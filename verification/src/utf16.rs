//! Text as the UTF-16 code units that Windows functions take and give.
use vstd::prelude::*;

verus! {

/// The character that stands for code units that encode nothing.
pub const REPLACEMENT: char = '\u{FFFD}';

/// The code units of one character: itself below the supplementary planes, a
/// surrogate pair above.
pub open spec fn char_units(c: char) -> Seq<u16> {
    let code = c as int;
    if code < 0x10000 {
        seq![code as u16]
    } else {
        seq![
            (0xD800 + (code - 0x10000) / 0x400) as u16,
            (0xDC00 + (code - 0x10000) % 0x400) as u16,
        ]
    }
}

/// The code units of a text, without a terminator.
pub open spec fn units(text: Seq<char>) -> Seq<u16>
    decreases text.len(),
{
    if text.len() == 0 {
        Seq::empty()
    } else {
        char_units(text.first()) + units(text.drop_first())
    }
}

/// The code units of a text, followed by a terminating zero.
pub open spec fn wide_units(text: Seq<char>) -> Seq<u16> {
    units(text).push(0)
}

/// A code unit that can open a surrogate pair.
pub open spec fn is_high(unit: u16) -> bool {
    0xD800 <= unit < 0xDC00
}

/// A code unit that can close a surrogate pair.
pub open spec fn is_low(unit: u16) -> bool {
    0xDC00 <= unit < 0xE000
}

/// The character that a surrogate pair encodes.
pub open spec fn pair_char(high: u16, low: u16) -> char {
    (0x10000 + (high - 0xD800) * 0x400 + (low - 0xDC00)) as char
}

/// Whether the code units start with a complete surrogate pair.
pub open spec fn starts_with_pair(encoded: Seq<u16>) -> bool {
    encoded.len() > 1 && is_high(encoded[0]) && is_low(encoded[1])
}

/// The first character that code units encode; a surrogate without a partner
/// reads as the replacement character.
pub open spec fn first_char(encoded: Seq<u16>) -> char {
    if starts_with_pair(encoded) {
        pair_char(encoded[0], encoded[1])
    } else if is_high(encoded[0]) || is_low(encoded[0]) {
        REPLACEMENT
    } else {
        encoded[0] as char
    }
}

/// How many code units the first character takes.
pub open spec fn first_width(encoded: Seq<u16>) -> int {
    if starts_with_pair(encoded) {
        2
    } else {
        1
    }
}

/// The text that code units encode.
pub open spec fn text_of(encoded: Seq<u16>) -> Seq<char>
    decreases encoded.len(),
{
    if encoded.len() == 0 {
        Seq::empty()
    } else {
        seq![first_char(encoded)] + text_of(encoded.skip(first_width(encoded)))
    }
}

/// Appends the code units of one character.
fn push_units(out: &mut Vec<u16>, c: char)
    ensures
        final(out)@ == old(out)@ + char_units(c),
{
    let code: u32 = c as u32;
    if code < 0x10000 {
        out.push(code as u16);
    } else {
        let rest: u32 = code - 0x10000;
        out.push((0xD800 + rest / 0x400) as u16);
        out.push((0xDC00 + rest % 0x400) as u16);
    }
    assert(out@ =~= old(out)@ + char_units(c));
}

/// Encoding a concatenation gives the concatenation of the encodings.
pub proof fn lemma_units_concat(left: Seq<char>, right: Seq<char>)
    ensures
        units(left + right) == units(left) + units(right),
    decreases left.len(),
{
    if left.len() == 0 {
        assert(left + right =~= right);
        assert(units(left) + units(right) =~= units(right));
    } else {
        lemma_units_concat(left.drop_first(), right);
        assert((left + right).drop_first() =~= left.drop_first() + right);
        assert(units(left + right) =~= units(left) + units(right));
    }
}

/// The code units of `text`, without a terminator.
pub fn encode(text: &str) -> (out: Vec<u16>)
    ensures
        out@ == units(text@),
{
    let mut out: Vec<u16> = Vec::new();
    for c in it: text.chars()
        invariant
            it.seq() == text@,
            out@ == units(text@.take(it.index())),
    {
        let ghost done = text@.take(it.index());
        push_units(&mut out, c);
        proof {
            lemma_units_concat(done, seq![c]);
            assert(text@.take(it.index() + 1) =~= done + seq![c]);
            assert(seq![c].drop_first() =~= Seq::<char>::empty());
            assert(units(seq![c]) =~= char_units(c)) by {
                reveal_with_fuel(units, 2);
            }
        }
    }
    assert(text@.take(text@.len() as int) =~= text@);
    out
}

/// The code units of `text` with a terminating zero, as Windows reads a string
/// by address alone.
pub fn wide(text: &str) -> (out: Vec<u16>)
    ensures
        out@ == wide_units(text@),
{
    let mut out: Vec<u16> = encode(text);
    out.push(0);
    out
}

/// The character at `i` among the first `len` code units of `buffer`, and how
/// many code units it takes.
fn read_char(buffer: &[u16], i: usize, len: usize) -> (read: (char, usize))
    requires
        i < len <= buffer@.len(),
    ensures
        read.0 == first_char(buffer@.subrange(i as int, len as int)),
        read.1 == first_width(buffer@.subrange(i as int, len as int)),
{
    let unit: u16 = buffer[i];
    let ghost rest = buffer@.subrange(i as int, len as int);
    assert(rest[0] == unit);
    if 0xD800 <= unit && unit < 0xDC00 {
        if len - i > 1 {
            let next: u16 = buffer[i + 1];
            assert(rest[1] == next);
            if 0xDC00 <= next && next < 0xE000 {
                let code: u32 = 0x10000 + (unit as u32 - 0xD800) * 0x400 + (next as u32 - 0xDC00);
                match char::from_u32(code) {
                    Some(c) => {
                        return (c, 2);
                    },
                    None => {
                        return (REPLACEMENT, 2);
                    },
                }
            }
        }
        (REPLACEMENT, 1)
    } else {
        match char::from_u32(unit as u32) {
            Some(c) => (c, 1),
            None => (REPLACEMENT, 1),
        }
    }
}

/// The text of the first `len` code units of `buffer`: what a call that fills a
/// buffer and reports a length has written.
pub fn decode(buffer: &[u16], len: usize) -> (text: String)
    requires
        len <= buffer@.len(),
    ensures
        text@ == text_of(buffer@.take(len as int)),
{
    let mut text: String = String::new();
    let mut i: usize = 0;
    let ghost encoded = buffer@.take(len as int);
    assert(encoded.skip(0) =~= encoded);
    while i < len
        invariant
            i <= len <= buffer@.len(),
            encoded == buffer@.take(len as int),
            text@ + text_of(encoded.skip(i as int)) == text_of(encoded),
        decreases len - i,
    {
        let ghost before = text@;
        let ghost rest = encoded.skip(i as int);
        assert(rest =~= buffer@.subrange(i as int, len as int));
        let (c, width) = read_char(buffer, i, len);
        text.push(c);
        i = i + width;
        proof {
            assert(rest.skip(width as int) =~= encoded.skip(i as int));
            assert(text@ + text_of(encoded.skip(i as int)) =~= before + text_of(rest));
        }
    }
    assert(encoded.skip(len as int) =~= Seq::<u16>::empty());
    assert(text@ + Seq::<char>::empty() =~= text@);
    text
}

/// The bytes that a registry string holds for these code units: each unit's low
/// byte, then its high byte.
pub open spec fn unit_bytes(encoded: Seq<u16>) -> Seq<u8> {
    Seq::new(
        2 * encoded.len(),
        |i: int|
            if i % 2 == 0 {
                (encoded[i / 2] % 0x100) as u8
            } else {
                (encoded[i / 2] / 0x100) as u8
            },
    )
}

/// The code units that such bytes hold.
pub open spec fn units_in_bytes(bytes: Seq<u8>) -> Seq<u16> {
    Seq::new(bytes.len() / 2, |i: int| (bytes[2 * i] + 0x100 * bytes[2 * i + 1]) as u16)
}

/// The data of a registry string value: the terminated code units of `text` as
/// bytes.
pub fn reg_sz_bytes(text: &str) -> (bytes: Vec<u8>)
    ensures
        bytes@ == unit_bytes(wide_units(text@)),
{
    let encoded: Vec<u16> = wide(text);
    let mut bytes: Vec<u8> = Vec::new();
    let mut i: usize = 0;
    while i < encoded.len()
        invariant
            i <= encoded@.len(),
            bytes@ == unit_bytes(encoded@.take(i as int)),
        decreases encoded.len() - i,
    {
        let ghost before = bytes@;
        let unit: u16 = encoded[i];
        bytes.push((unit % 0x100) as u8);
        bytes.push((unit / 0x100) as u8);
        i = i + 1;
        proof {
            let longer = encoded@.take(i as int);
            assert forall|k: int| 0 <= k < bytes@.len() implies #[trigger] bytes@[k] == unit_bytes(
                longer,
            )[k] by {
                if k < before.len() {
                    assert(bytes@[k] == before[k]);
                }
            }
            assert(bytes@ =~= unit_bytes(longer));
        }
    }
    assert(encoded@.take(encoded@.len() as int) =~= encoded@);
    bytes
}

proof fn lemma_char_units(c: char, rest: Seq<u16>)
    ensures
        first_char(char_units(c) + rest) == c,
        first_width(char_units(c) + rest) == char_units(c).len(),
        c != '\0' ==> forall|i: int| 0 <= i < char_units(c).len() ==> char_units(c)[i] != 0,
{
    let encoded = char_units(c) + rest;
    assert(encoded[0] == char_units(c)[0]);
    if c as int >= 0x10000 {
        assert(encoded[1] == char_units(c)[1]);
    }
}

/// Reading back what was encoded gives the text, for every text.
pub proof fn lemma_text_of_units(text: Seq<char>)
    ensures
        text_of(units(text)) == text,
    decreases text.len(),
{
    if text.len() > 0 {
        let c = text.first();
        let rest = units(text.drop_first());
        let encoded = char_units(c) + rest;
        lemma_text_of_units(text.drop_first());
        lemma_char_units(c, rest);
        assert(encoded.skip(char_units(c).len() as int) =~= rest);
        assert(seq![c] + text.drop_first() =~= text);
    }
}

/// Different texts have different code units.
pub proof fn lemma_units_injective(left: Seq<char>, right: Seq<char>)
    requires
        units(left) == units(right),
    ensures
        left == right,
{
    lemma_text_of_units(left);
    lemma_text_of_units(right);
}

/// A text takes at least one and at most two code units for each character.
pub proof fn lemma_units_len(text: Seq<char>)
    ensures
        text.len() <= units(text).len() <= 2 * text.len(),
    decreases text.len(),
{
    if text.len() > 0 {
        lemma_units_len(text.drop_first());
    }
}

/// In a terminated text without a zero character, the terminator is the only
/// zero: a reader that stops at the first zero reads the whole text.
pub proof fn lemma_terminator_is_first_zero(text: Seq<char>)
    requires
        !text.contains('\0'),
    ensures
        wide_units(text).index_of_first(0u16) == Some(units(text).len() as int),
        text_of(wide_units(text).take(units(text).len() as int)) == text,
{
    lemma_no_zero_unit(text);
    lemma_text_of_units(text);
    let terminated = wide_units(text);
    let end = units(text).len() as int;
    assert(terminated.take(end) =~= units(text));
    assert(terminated[end] == 0);
    terminated.index_of_first_ensures(0u16);
}

proof fn lemma_no_zero_unit(text: Seq<char>)
    requires
        !text.contains('\0'),
    ensures
        forall|i: int| 0 <= i < units(text).len() ==> units(text)[i] != 0,
    decreases text.len(),
{
    if text.len() > 0 {
        let rest = text.drop_first();
        assert(text[0] != '\0');
        assert(!rest.contains('\0')) by {
            assert forall|i: int| 0 <= i < rest.len() implies rest[i] != '\0' by {
                assert(rest[i] == text[i + 1]);
            }
        }
        lemma_no_zero_unit(rest);
        lemma_char_units(text[0], units(rest));
    }
}

/// Reading a registry string's bytes back gives its code units.
pub proof fn lemma_bytes_read_back(encoded: Seq<u16>)
    ensures
        units_in_bytes(unit_bytes(encoded)) == encoded,
{
    let bytes = unit_bytes(encoded);
    assert forall|i: int| 0 <= i < encoded.len() implies units_in_bytes(bytes)[i] == encoded[i] by {
        assert((2 * i) / 2 == i && (2 * i) % 2 == 0);
        assert((2 * i + 1) / 2 == i && (2 * i + 1) % 2 == 1);
    }
    assert(units_in_bytes(bytes) =~= encoded);
}

} // verus!
