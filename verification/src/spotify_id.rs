//! The ids of tracks.

use vstd::prelude::*;

verus! {

/// How long an id is when it is written.
pub const BASE62_LEN: usize = 22;

/// A track by its id.
#[derive(Clone, Copy, Debug, PartialEq, Eq, Structural)]
pub struct TrackUri {
    pub id: u128,
}

/// The value of a digit to the base 62: the digits are `0` to `9`, `a` to `z` and
/// `A` to `Z`.
pub open spec fn base62_digit(c: char) -> Option<int> {
    if '0' <= c && c <= '9' {
        Some(c as int - '0' as int)
    } else if 'a' <= c && c <= 'z' {
        Some(c as int - 'a' as int + 10)
    } else if 'A' <= c && c <= 'Z' {
        Some(c as int - 'A' as int + 36)
    } else {
        None
    }
}

/// The number that a text is to the base 62, the most significant digit first.
pub open spec fn base62_value(text: Seq<char>) -> Option<int>
    decreases text.len(),
{
    if text.len() == 0 {
        Some(0)
    } else {
        match (base62_value(text.drop_last()), base62_digit(text.last())) {
            (Some(front), Some(digit)) => Some(front * 62 + digit),
            _ => None,
        }
    }
}

/// The id that a text stands for: it has a fixed length and is a number to the
/// base 62 that 128 bits can hold.
pub open spec fn track_id_of(text: Seq<char>) -> Option<u128> {
    match base62_value(text) {
        Some(value) => if text.len() == BASE62_LEN && value <= u128::MAX {
            Some(value as u128)
        } else {
            None
        },
        None => None,
    }
}

/// `librespot::core::spotify_id::SpotifyId::from_base62`: the number that `text` is
/// to the base 62. Anything but 22 digits, and a number that 128 bits cannot hold,
/// is refused, which is `None` here.
#[verifier::external_body]
fn id_from_base62(text: &str) -> (r: Option<u128>)
    ensures
        r == track_id_of(text@),
{
    librespot::core::spotify_id::SpotifyId::from_base62(text).ok().map(|parsed| parsed.id)
}

impl TrackUri {
    /// The track that an id stands for, if it is a valid id.
    pub fn from_base62(text: &str) -> (r: Option<TrackUri>)
        ensures
            r == (match track_id_of(text@) {
                Some(id) => Some(TrackUri { id }),
                None => None,
            }),
    {
        match id_from_base62(text) {
            Some(id) => Some(TrackUri { id }),
            None => None,
        }
    }
}

/// The digits count from `0` over `9` and `a` to `z` up to `A` and `Z`, without a gap.
pub proof fn law_digits_count_on(c: char)
    ensures
        base62_digit('0') == Some(0int),
        base62_digit('a') == Some(10int),
        base62_digit('A') == Some(36int),
        base62_digit('Z') == Some(61int),
        base62_digit(c) matches Some(digit) ==> 0 <= digit < 62,
        ('0' <= c && c < '9') || ('a' <= c && c < 'z') || ('A' <= c && c < 'Z') ==> base62_digit(
            (c as u32 + 1) as char,
        ) == Some(base62_digit(c)->0 + 1),
        base62_digit(c) is None <==> !(('0' <= c && c <= '9') || ('a' <= c && c <= 'z') || ('A'
            <= c && c <= 'Z')),
{
}

/// One more digit at the end makes the number that many times larger, and adds it.
pub proof fn law_last_digit_counts_least(text: Seq<char>, c: char)
    ensures
        base62_value(text) is Some && base62_digit(c) is Some ==> base62_value(text.push(c))
            == Some(base62_value(text)->0 * 62 + base62_digit(c)->0),
        base62_value(text) is None || base62_digit(c) is None ==> base62_value(text.push(c))
            is None,
        track_id_of(text) is Some ==> text.len() == 22 && base62_value(text) == Some(
            track_id_of(text)->0 as int,
        ),
{
    assert(text.push(c).drop_last() =~= text);
    lemma_value_is_not_negative(text);
}

proof fn lemma_value_is_not_negative(text: Seq<char>)
    ensures
        base62_value(text) is Some ==> base62_value(text)->0 >= 0,
    decreases text.len(),
{
    if text.len() > 0 {
        lemma_value_is_not_negative(text.drop_last());
    }
}

} // verus!
