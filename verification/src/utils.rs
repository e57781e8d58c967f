use vstd::prelude::*;
use vstd::string::StrSliceExecFns;
use crate::text::{
    chars_of, cut_before, find, first_at, first_occurrence, lemma_first_occurrence, occurs,
    occurs_at, tail_after,
};

verus! {

/// The mark before the id in a watch link.
pub open spec fn watch_mark() -> Seq<char> {
    seq!['v', '=']
}

/// The mark before the id in a short link.
pub open spec fn short_mark() -> Seq<char> {
    seq!['y', 'o', 'u', 't', 'u', '.', 'b', 'e', '/']
}

/// The mark before the id in an embed link.
pub open spec fn embed_mark() -> Seq<char> {
    seq!['/', 'e', 'm', 'b', 'e', 'd', '/']
}

/// What follows the mark of a video link: the text after the first watch
/// mark; without one, after the first short mark; without that, after the
/// first embed mark; and nothing where the link has none of the three.
pub open spec fn after_mark(link: Seq<char>) -> Seq<char> {
    if tail_after(link, watch_mark()) is Some {
        tail_after(link, watch_mark())->0
    } else if tail_after(link, short_mark()) is Some {
        tail_after(link, short_mark())->0
    } else if tail_after(link, embed_mark()) is Some {
        tail_after(link, embed_mark())->0
    } else {
        Seq::<char>::empty()
    }
}

/// The video id of a link: what follows its mark, up to the first `&`.
pub open spec fn video_id_of(link: Seq<char>) -> Seq<char> {
    cut_before(after_mark(link), '&')
}

/// Where in `text` the rest after the first `mark` begins, if the mark occurs.
fn rest_after(text: &Vec<char>, mark: &Vec<char>) -> (start: Option<usize>)
    ensures
        match start {
            Some(s) => s <= text.len() && tail_after(text@, mark@) == Some(text@.skip(s as int)),
            None => tail_after(text@, mark@) is None,
        },
{
    match find(text, mark) {
        Some(at) => {
            proof {
                lemma_first_occurrence(text@, mark@, at as int);
                assert(occurs_at(text@, mark@, at as int));
            }
            let width = mark.len();
            assert(at + width <= text.len());
            Some(at + width)
        },
        None => None,
    }
}

/// The video id that a link to a video carries.
pub fn get_video_id(vido_link: &str) -> (video_id: String)
    ensures
        video_id@ == video_id_of(vido_link@),
{
    let text = chars_of(vido_link);
    let watch: Vec<char> = vec!['v', '='];
    let short: Vec<char> = vec!['y', 'o', 'u', 't', 'u', '.', 'b', 'e', '/'];
    let embed: Vec<char> = vec!['/', 'e', 'm', 'b', 'e', 'd', '/'];
    assert(watch@ =~= watch_mark());
    assert(short@ =~= short_mark());
    assert(embed@ =~= embed_mark());
    let start: usize = match rest_after(&text, &watch) {
        Some(s) => s,
        None => match rest_after(&text, &short) {
            Some(s) => s,
            None => match rest_after(&text, &embed) {
                Some(s) => s,
                None => text.len(),
            },
        },
    };
    assert(after_mark(text@) =~= text@.skip(start as int));
    let stop: Vec<char> = vec!['&'];
    assert(stop@ =~= seq!['&']);
    let ghost rest = text@.skip(start as int);
    let end: usize = match crate::text::find_from(&text, &stop, start) {
        Some(at) => {
            proof {
                assert(rest.subrange(at - start, at - start + 1) =~= text@.subrange(
                    at as int,
                    at + 1,
                ));
                assert(occurs_at(rest, stop@, at - start));
                assert forall|before: int| 0 <= before < at - start implies !occurs_at(
                    rest,
                    stop@,
                    before,
                ) by {
                    if occurs_at(rest, stop@, before) {
                        assert(text@.subrange(start + before, start + before + 1) =~= rest.subrange(
                            before,
                            before + 1,
                        ));
                        assert(occurs_at(text@, stop@, start + before));
                    }
                }
                assert(first_at(rest, stop@, at - start));
                lemma_first_occurrence(rest, stop@, at - start);
                assert(rest.take(at - start) =~= text@.subrange(start as int, at as int));
            }
            at
        },
        None => {
            proof {
                if occurs(rest, stop@) {
                    let at = choose|at: int| occurs_at(rest, stop@, at);
                    assert(text@.subrange(start + at, start + at + 1) =~= rest.subrange(at, at + 1));
                    assert(occurs_at(text@, stop@, start + at));
                }
                assert(rest =~= text@.subrange(start as int, text.len() as int));
            }
            text.len()
        },
    };
    vido_link.substring_char(start, end).to_owned()
}

} // verus!
