//! Text as the notification area takes it: UTF-16 code units in a field of
//! fixed length, cut short where the text is long and filled up with zeros.

use vstd::prelude::*;
use vstd::std_specs::iter::IteratorSpec;

verus! {

/// The number of code units of a text that a field takes at most, whatever its
/// own length.
pub const WIDE_LIMIT: usize = 64;

/// The UTF-16 code units of one character: the character itself inside the
/// basic plane, a high and a low surrogate beyond it.
pub open spec fn char_units(c: char) -> Seq<u16> {
    let v = c as int;
    if v < 0x1_0000 {
        seq![v as u16]
    } else {
        seq![(0xD800 + (v - 0x1_0000) / 0x400) as u16, (0xDC00 + (v - 0x1_0000) % 0x400) as u16]
    }
}

/// The UTF-16 encoding of a text: the code units of its characters in order.
pub open spec fn utf16(text: Seq<char>) -> Seq<u16>
    decreases text.len(),
{
    if text.len() == 0 {
        Seq::empty()
    } else {
        utf16(text.drop_last()) + char_units(text.last())
    }
}

/// The first `limit` items of `units`, or all of them where there are fewer.
pub open spec fn clipped(units: Seq<u16>, limit: nat) -> Seq<u16> {
    if units.len() <= limit {
        units
    } else {
        units.take(limit as int)
    }
}

/// A field of `length` code units that starts with `units`, as far as they
/// fit, and is zero from there on.
pub open spec fn padded(units: Seq<u16>, length: nat) -> Seq<u16> {
    Seq::new(
        length,
        |i: int|
            if i < units.len() {
                units[i]
            } else {
                0u16
            },
    )
}

/// The field of `length` code units that holds `text`: the first
/// [`WIDE_LIMIT`] code units of its encoding, then zeros. A character beyond
/// the basic plane that straddles the limit leaves its high surrogate behind.
pub open spec fn wide_field(text: Seq<char>, length: nat) -> Seq<u16> {
    padded(clipped(utf16(text), WIDE_LIMIT as nat), length)
}

/// The encoding of a text with one more character is the encoding of the text
/// followed by the code units of that character.
pub proof fn lemma_utf16_push(text: Seq<char>, c: char)
    ensures
        utf16(text.push(c)) == utf16(text) + char_units(c),
{
    assert(text.push(c).drop_last() =~= text);
}

/// The encoding of the first `n` characters of a text opens the encoding of the
/// whole text.
pub proof fn lemma_utf16_prefix(text: Seq<char>, n: int)
    requires
        0 <= n <= text.len(),
    ensures
        utf16(text.take(n)).is_prefix_of(utf16(text)),
    decreases text.len(),
{
    if n == text.len() {
        assert(text.take(n) =~= text);
    } else {
        let shorter = text.drop_last();
        lemma_utf16_prefix(shorter, n);
        assert(shorter.take(n) =~= text.take(n));
    }
}

/// A field is as long as asked, holds zeros behind the limit, and holds zeros
/// behind the text where the text is short.
pub proof fn lemma_wide_field_shape(text: Seq<char>, length: nat)
    ensures
        wide_field(text, length).len() == length,
        forall|i: int|
            WIDE_LIMIT <= i < length ==> #[trigger] wide_field(text, length)[i] == 0u16,
        forall|i: int|
            utf16(text).len() <= i < length ==> #[trigger] wide_field(text, length)[i] == 0u16,
        forall|i: int|
            0 <= i < length && i < WIDE_LIMIT && i < utf16(text).len() ==> #[trigger] wide_field(
                text,
                length,
            )[i] == utf16(text)[i],
{
}

/// The code units of one character: the first, and the second where the
/// character lies beyond the basic plane.
pub fn encode_char(c: char) -> (units: (u16, Option<u16>))
    ensures
        units.0 == char_units(c)[0],
        units.1 == (if char_units(c).len() == 2 {
            Some(char_units(c)[1])
        } else {
            None
        }),
{
    let v: u32 = c as u32;
    if v < 0x1_0000 {
        (v as u16, None)
    } else {
        let w: u32 = v - 0x1_0000;
        ((0xD800 + w / 0x400) as u16, Some((0xDC00 + w % 0x400) as u16))
    }
}

/// The first `limit` code units of the encoding of `text`, or all of them where
/// the encoding is shorter.
pub fn leading_units(text: &str, limit: usize) -> (units: Vec<u16>)
    ensures
        units@ == clipped(utf16(text@), limit as nat),
{
    let mut units: Vec<u16> = Vec::new();
    let mut chars = text.chars();
    let mut exhausted = false;
    let ghost mut seen: int = 0;
    while !exhausted && units.len() < limit
        invariant
            0 <= seen <= text@.len(),
            exhausted ==> seen == text@.len(),
            chars.remaining() == text@.skip(seen),
            units@ == clipped(utf16(text@.take(seen)), limit as nat),
        decreases
            text@.len() - seen + (if exhausted {
                0int
            } else {
                1int
            }),
    {
        match chars.next() {
            None => {
                exhausted = true;
            },
            Some(c) => {
                proof {
                    assert(text@.take(seen + 1) =~= text@.take(seen).push(c));
                    lemma_utf16_push(text@.take(seen), c);
                    seen = seen + 1;
                }
                let (first, second) = encode_char(c);
                units.push(first);
                if let Some(low) = second {
                    if units.len() < limit {
                        units.push(low);
                    }
                }
            },
        }
    }
    proof {
        lemma_utf16_prefix(text@, seen);
        if exhausted {
            assert(text@.take(seen) =~= text@);
        }
    }
    units
}

/// The field of `length` code units that holds `text`: the first
/// [`WIDE_LIMIT`] code units of its encoding, then zeros up to `length`.
pub fn encode_string_wide(text: &str, length: usize) -> (field: Vec<u16>)
    ensures
        field@ == wide_field(text@, length as nat),
{
    let units = leading_units(text, WIDE_LIMIT);
    let mut field: Vec<u16> = Vec::new();
    let mut i: usize = 0;
    while i < length
        invariant
            i <= length,
            field@ == padded(units@, i as nat),
        decreases length - i,
    {
        let unit: u16 = if i < units.len() {
            units[i]
        } else {
            0
        };
        field.push(unit);
        i = i + 1;
    }
    field
}

} // verus!
