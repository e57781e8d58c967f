use vstd::prelude::*;
use crate::text::{parse_u64_chars, parsed_u64, pieces, split};

verus! {

/// The judgement counts of one clear, from the earliest to the latest hit
/// window: early double, early single, early perfect, perfect, late perfect,
/// late single, late double.
#[derive(Debug, Clone, Copy, PartialEq, Eq)]
pub struct Judgements(pub u64, pub u64, pub u64, pub u64, pub u64, pub u64, pub u64);

/// Whether the clear has no early double, which is what the game counts as a miss.
pub fn is_no_miss(judgement: &Judgements) -> (r: bool)
    ensures
        r == (judgement.0 == 0),
{
    judgement.0 == 0
}

/// The count that one piece of a judgement line writes: the number it
/// writes in base ten, and zero where it writes none.
pub open spec fn count_of(piece: Seq<char>) -> u64 {
    match parsed_u64(piece) {
        Some(count) => count,
        None => 0,
    }
}

/// The judgements that a line of counts writes: seven pieces parted by
/// single blanks, each read as a count. A line with more or fewer pieces
/// writes none.
pub open spec fn judgements_of(line: Seq<char>) -> Option<Judgements> {
    let parts = pieces(line, ' ');
    if parts.len() == 7 {
        Some(
            Judgements(
                count_of(parts[0]),
                count_of(parts[1]),
                count_of(parts[2]),
                count_of(parts[3]),
                count_of(parts[4]),
                count_of(parts[5]),
                count_of(parts[6]),
            ),
        )
    } else {
        None
    }
}

/// The count that one piece of a judgement line writes.
fn read_count(piece: &Vec<char>) -> (count: u64)
    ensures
        count == count_of(piece@),
{
    match parse_u64_chars(piece) {
        Some(count) => count,
        None => 0,
    }
}

/// Reads a line of seven judgement counts, such as `0 1 2 300 2 1 0`.
pub fn read_judgements(line: &str) -> (judgements: Option<Judgements>)
    ensures
        judgements == judgements_of(line@),
{
    let parts = split(line, ' ');
    let ghost views = parts@.map_values(|part: Vec<char>| part@);
    if parts.len() != 7 {
        return None;
    }
    proof {
        assert(forall|i: int| 0 <= i < 7 ==> views[i] == parts@[i]@);
    }
    Some(
        Judgements(
            read_count(&parts[0]),
            read_count(&parts[1]),
            read_count(&parts[2]),
            read_count(&parts[3]),
            read_count(&parts[4]),
            read_count(&parts[5]),
            read_count(&parts[6]),
        ),
    )
}

} // verus!
