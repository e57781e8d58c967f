use vstd::prelude::*;
use crate::text::{parse_i64, parsed_i64};

verus! {

/// The backing collection of the linked users.
pub const USERS_COLLECTION: &'static str = "users";

/// How the chat account of a profile stands to the user who asks to link
/// the profile.
#[derive(Debug, Clone, Copy, PartialEq, Eq, Structural)]
pub enum LinkVerdict {
    /// The profile names no chat account.
    NoAccount,
    /// The profile names another account than the user's.
    OtherAccount,
    /// The profile names the user's account.
    OwnAccount,
}

/// The account id that a profile's text names: the integer it writes in
/// base ten, and zero where it writes none.
pub open spec fn account_of(discord_id: Seq<char>) -> i64 {
    match parsed_i64(discord_id) {
        Some(id) => id,
        None => 0,
    }
}

/// How the chat account of a profile stands to the user.
pub open spec fn verdict_of(discord_id: Option<Seq<char>>, user_id: i64) -> LinkVerdict {
    match discord_id {
        Some(named) => if account_of(named) == user_id {
            LinkVerdict::OwnAccount
        } else {
            LinkVerdict::OtherAccount
        },
        None => LinkVerdict::NoAccount,
    }
}

/// Decides whether a user may link a profile, from the chat account that
/// the profile names.
pub fn link_verdict(discord_id: Option<&str>, user_id: i64) -> (verdict: LinkVerdict)
    ensures
        verdict == verdict_of(
            match discord_id {
                Some(named) => Some(named@),
                None => None,
            },
            user_id,
        ),
{
    match discord_id {
        Some(named) => {
            let account: i64 = match parse_i64(named) {
                Some(id) => id,
                None => 0,
            };
            if account == user_id {
                LinkVerdict::OwnAccount
            } else {
                LinkVerdict::OtherAccount
            }
        },
        None => LinkVerdict::NoAccount,
    }
}

} // verus!
