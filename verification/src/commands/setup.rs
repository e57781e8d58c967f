use vstd::prelude::*;
use crate::text::{parse_u64, parsed_u64};

verus! {

/// The kind under which a server's channel for the daily random level is recorded.
pub const DAILY_CHANNEL_KIND: &'static str = "daily-random-lvl-channel";

/// The backing collection of the servers' setups.
pub const SETUPS_COLLECTION: &'static str = "setups";

/// What a user typed where a channel id was asked for.
#[derive(Debug, Clone, Copy, PartialEq, Eq, Structural)]
pub enum ChannelInput {
    /// Nothing at all.
    Empty,
    /// Something that writes no channel id.
    Malformed,
    /// The channel id that the text writes in base ten.
    Channel(u64),
}

/// What a typed channel id says.
pub open spec fn channel_input_of(input: Seq<char>) -> ChannelInput {
    if input.len() == 0 {
        ChannelInput::Empty
    } else {
        match parsed_u64(input) {
            Some(id) => ChannelInput::Channel(id),
            None => ChannelInput::Malformed,
        }
    }
}

/// Reads what a user typed where a channel id was asked for.
pub fn read_channel_input(input: &str) -> (read: ChannelInput)
    ensures
        read == channel_input_of(input@),
{
    if input.is_empty() {
        return ChannelInput::Empty;
    }
    match parse_u64(input) {
        Some(id) => ChannelInput::Channel(id),
        None => ChannelInput::Malformed,
    }
}

/// Whether a channel belongs to the server that is being set up: it is a
/// channel of some server, and of this one.
pub fn belongs_to_server(channel_server: Option<u64>, server: u64) -> (belongs: bool)
    ensures
        belongs == (channel_server == Some(server)),
{
    match channel_server {
        Some(owner) => owner == server,
        None => false,
    }
}

} // verus!
