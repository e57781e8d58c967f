use onuzglorp_core::utils::get_video_id;

#[test]
fn video_id_follows_the_watch_mark() {
    assert_eq!(get_video_id("https://www.youtube.com/watch?v=dQw4w9WgXcQ"), "dQw4w9WgXcQ");
    assert_eq!(get_video_id("https://www.youtube.com/watch?v=dQw4w9WgXcQ&t=42s"), "dQw4w9WgXcQ");
    assert_eq!(get_video_id("v="), "");
    assert_eq!(get_video_id("v=&"), "");
    assert_eq!(get_video_id("a&b v=c&d"), "c");
}

#[test]
fn video_id_follows_the_short_mark() {
    assert_eq!(get_video_id("https://youtu.be/dQw4w9WgXcQ"), "dQw4w9WgXcQ");
    assert_eq!(get_video_id("https://youtu.be/dQw4w9WgXcQ?si=abc&t=1"), "dQw4w9WgXcQ?si=abc");
}

#[test]
fn video_id_follows_the_embed_mark() {
    assert_eq!(get_video_id("https://www.youtube.com/embed/dQw4w9WgXcQ"), "dQw4w9WgXcQ");
    assert_eq!(get_video_id("https://www.youtube.com/embed/dQw4w9WgXcQ&x"), "dQw4w9WgXcQ");
}

#[test]
fn watch_mark_goes_before_short_mark_and_short_before_embed() {
    assert_eq!(get_video_id("https://youtu.be/aaa?v=bbb"), "bbb");
    assert_eq!(get_video_id("/embed/aaa youtu.be/bbb"), "bbb");
    assert_eq!(get_video_id("/embed/aaa?v=ccc youtu.be/bbb"), "ccc youtu.be/bbb");
    assert_eq!(get_video_id("v=one v=two"), "one v=two");
}

#[test]
fn link_without_a_mark_has_no_video_id() {
    assert_eq!(get_video_id(""), "");
    assert_eq!(get_video_id("none"), "");
    assert_eq!(get_video_id("https://example.com/watch?video=1&x"), "");
    assert_eq!(get_video_id("youtu.be"), "");
}

#[test]
fn video_id_keeps_characters_of_every_width() {
    assert_eq!(get_video_id("żółć v=💕id💕&x"), "💕id💕");
    assert_eq!(get_video_id("💕youtu.be/é"), "é");
}
