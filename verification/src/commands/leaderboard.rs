use vstd::prelude::*;
use vstd::string::StringExecFns;
use crate::text::{
    chars_of, decimal, find, find_from, first_occurrence, lemma_first_occurrence, occurs,
    occurs_at, parse_u32_from, parsed_u32, push_decimal,
};

verus! {

/// The players shown on one page of the leaderboard.
pub const PAGE_SIZE: u32 = 15;

/// Whether a page of the leaderboard can be asked for: pages count from
/// one, and the page's offset has to fit the request.
pub open spec fn is_page(page: u32) -> bool {
    page >= 1 && (page - 1) * PAGE_SIZE <= u32::MAX
}

/// Whether a page of the leaderboard can be asked for.
pub fn can_show_page(page: u32) -> (ok: bool)
    ensures
        ok == is_page(page),
{
    page >= 1 && page - 1 <= u32::MAX / PAGE_SIZE
}

/// The number of players that stand before the first one of a page.
pub fn page_offset(page: u32) -> (offset: u32)
    requires
        is_page(page),
    ensures
        offset == (page - 1) * PAGE_SIZE,
{
    (page - 1) * PAGE_SIZE
}

/// Whether the button to the previous page is switched off: there is no
/// page before the first.
pub fn previous_disabled(page: u32) -> (disabled: bool)
    ensures
        disabled == (page <= 1),
{
    page <= 1
}

/// The id of the button that leads from `page` to the page before it.
pub fn previous_button_id(page: u32) -> (id: String)
    requires
        page >= 1,
    ensures
        id@ == "lb_previous:"@ + decimal((page - 1) as nat),
{
    let mut id = String::from_str("lb_previous:");
    push_decimal(&mut id, (page - 1) as u64);
    id
}

/// The id of the button that leads from `page` to the page after it.
pub fn next_button_id(page: u32) -> (id: String)
    requires
        page < u32::MAX,
    ensures
        id@ == "lb_next:"@ + decimal((page + 1) as nat),
{
    let mut id = String::from_str("lb_next:");
    push_decimal(&mut id, (page + 1) as u64);
    id
}

/// What the id of a pressed button says to the leaderboard.
#[derive(Debug, Clone, Copy, PartialEq, Eq, Structural)]
pub enum Press {
    /// A leaderboard button that asks for this page.
    Page(u32),
    /// A leaderboard button whose page cannot be read.
    Unreadable,
    /// No leaderboard button.
    Foreign,
}

/// The colon that parts a button's name from its page.
pub open spec fn colon() -> Seq<char> {
    seq![':']
}

/// What a button id says: an id of the form `lb_previous:PAGE` or
/// `lb_next:PAGE`, with one colon and no more, is a leaderboard button, and
/// its page is what the part after the colon writes in base ten.
pub open spec fn press_of(id: Seq<char>) -> Press {
    if occurs(id, colon()) {
        let at = first_occurrence(id, colon());
        let name = id.take(at);
        let page = id.skip(at + 1);
        if !occurs(page, colon()) && (name == "lb_previous"@ || name == "lb_next"@) {
            match parsed_u32(page) {
                Some(number) => Press::Page(number),
                None => Press::Unreadable,
            }
        } else {
            Press::Foreign
        }
    } else {
        Press::Foreign
    }
}

/// Whether the first `len` characters of `text` are those of `name`, and
/// `name` has no more.
fn is_name(text: &Vec<char>, len: usize, name: &str) -> (same: bool)
    requires
        len <= text.len(),
    ensures
        same == (text@.take(len as int) == name@),
{
    let wanted = chars_of(name);
    if wanted.len() != len {
        return false;
    }
    let mut i: usize = 0;
    while i < len
        invariant
            i <= len <= text.len(),
            wanted.len() == len,
            wanted@ == name@,
            forall|j: int| 0 <= j < i ==> text@[j] == wanted@[j],
        decreases len - i,
    {
        if text[i] != wanted[i] {
            assert(text@.take(len as int)[i as int] != wanted@[i as int]);
            return false;
        }
        i += 1;
    }
    assert(text@.take(len as int) =~= wanted@);
    true
}

/// Reads the id of a pressed button.
pub fn read_press(custom_id: &str) -> (press: Press)
    ensures
        press == press_of(custom_id@),
{
    let text = chars_of(custom_id);
    let mark: Vec<char> = vec![':'];
    assert(mark@ =~= colon());
    let at = match find(&text, &mark) {
        Some(at) => at,
        None => {
            return Press::Foreign;
        },
    };
    proof {
        lemma_first_occurrence(text@, colon(), at as int);
        assert(occurs_at(text@, colon(), at as int));
    }
    let ghost page = text@.skip(at + 1);
    match find_from(&text, &mark, at + 1) {
        Some(again) => {
            proof {
                assert(page.subrange(again - (at + 1), again - (at + 1) + 1) =~= text@.subrange(
                    again as int,
                    again + 1,
                ));
                assert(occurs_at(page, colon(), again - (at + 1)));
            }
            return Press::Foreign;
        },
        None => {
            proof {
                if occurs(page, colon()) {
                    let inner = choose|inner: int| occurs_at(page, colon(), inner);
                    assert(text@.subrange(at + 1 + inner, at + 1 + inner + 1) =~= page.subrange(
                        inner,
                        inner + 1,
                    ));
                    assert(occurs_at(text@, colon(), at + 1 + inner));
                }
            }
        },
    }
    if !(is_name(&text, at, "lb_previous") || is_name(&text, at, "lb_next")) {
        return Press::Foreign;
    }
    match parse_u32_from(&text, at + 1) {
        Some(number) => Press::Page(number),
        None => Press::Unreadable,
    }
}

} // verus!
