//! Laws of text: as code units and bytes, in the log, and as names of identifiers.
use vstd::arithmetic::div_mod::lemma_div_denominator;
use vstd::prelude::*;

use crate::clock::Span;
use crate::guid::{
    guid_of, guid_to_reg_path, guids_equal, hex, hex_bytes, hex_digit, lemma_reg_path_parts, Guid,
};
use crate::laws::time::is_floor;
use crate::log::{decimal, decimal_digit, log_line};
use crate::registration::{clsid_tip, profile_guid};
use crate::utf16::{
    char_units, decode, encode, first_char, first_width, lemma_text_of_units, lemma_units_concat,
    reg_sz_bytes, text_of, units, wide,
};

verus! {

/// Whether code units are those of one character: the character's code where that fits
/// one unit, else a leading and a trailing surrogate that make up the code.
pub open spec fn encodes(encoded: Seq<u16>, c: char) -> bool {
    if (c as int) < 0x10000 {
        encoded.len() == 1 && encoded[0] == c as int
    } else {
        &&& encoded.len() == 2
        &&& 0xD800 <= encoded[0] <= 0xDBFF
        &&& 0xDC00 <= encoded[1] <= 0xDFFF
        &&& c as int == 0x10000 + (encoded[0] - 0xD800) * 0x400 + (encoded[1] - 0xDC00)
    }
}

/// The empty text has no code units.
pub proof fn lemma_nothing_encodes_to_nothing(text: &str, out: Vec<u16>)
    requires
        call_ensures(encode, (text,), out),
    ensures
        text@.len() == 0 ==> out@.len() == 0,
{
}

proof fn lemma_char_units_encode(c: char)
    ensures
        encodes(char_units(c), c),
{
}

/// A text of one character has the code units of that character.
pub proof fn lemma_one_character(text: &str, out: Vec<u16>)
    requires
        call_ensures(encode, (text,), out),
        text@.len() == 1,
    ensures
        encodes(out@, text@[0]),
{
    assert(text@.drop_first() =~= Seq::<char>::empty());
    reveal_with_fuel(units, 2);
    assert(out@ =~= char_units(text@[0]));
    lemma_char_units_encode(text@[0]);
}

/// A text in two parts has the code units of the first part and then those of the
/// second.
pub proof fn lemma_parts_encode_apart(
    first: &str,
    second: &str,
    whole: &str,
    first_out: Vec<u16>,
    second_out: Vec<u16>,
    whole_out: Vec<u16>,
)
    requires
        call_ensures(encode, (first,), first_out),
        call_ensures(encode, (second,), second_out),
        call_ensures(encode, (whole,), whole_out),
        whole@ == first@ + second@,
    ensures
        whole_out@ == first_out@ + second_out@,
{
    lemma_units_concat(first@, second@);
}

/// A terminated text is its code units and one zero behind them.
pub proof fn lemma_terminator_comes_last(text: &str, out: Vec<u16>, terminated: Vec<u16>)
    requires
        call_ensures(encode, (text,), out),
        call_ensures(wide, (text,), terminated),
    ensures
        terminated@ == out@.push(0),
{
}

/// What was encoded reads back as it was, wherever it lies at the start of a buffer.
pub proof fn lemma_encoded_text_reads_back(
    text: &str,
    out: Vec<u16>,
    buffer: &[u16],
    len: usize,
    read: String,
)
    requires
        call_ensures(encode, (text,), out),
        len <= buffer@.len(),
        buffer@.take(len as int) == out@,
        call_ensures(decode, (buffer, len), read),
    ensures
        read@ == text@,
{
    lemma_text_of_units(text@);
}

/// What lies in a buffer behind the reported length is not read.
pub proof fn lemma_rest_of_buffer_is_not_read(
    one: &[u16],
    other: &[u16],
    len: usize,
    one_read: String,
    other_read: String,
)
    requires
        len <= one@.len(),
        len <= other@.len(),
        one@.take(len as int) == other@.take(len as int),
        call_ensures(decode, (one, len), one_read),
        call_ensures(decode, (other, len), other_read),
    ensures
        one_read@ == other_read@,
        len == 0 ==> one_read@.len() == 0,
{
}

/// Whether a code unit is a surrogate.
pub open spec fn is_surrogate(unit: u16) -> bool {
    0xD800 <= unit <= 0xDFFF
}

/// Whether two code units are a surrogate pair.
pub open spec fn is_pair(first: u16, second: u16) -> bool {
    0xD800 <= first <= 0xDBFF && 0xDC00 <= second <= 0xDFFF
}

/// Code units are read one character after another: a pair gives the character that
/// it encodes, any other surrogate the replacement character, and any other unit the
/// character with its code.
pub proof fn lemma_characters_are_read_in_turn(
    buffer: &[u16],
    len: usize,
    read: String,
    rest: &[u16],
    rest_len: usize,
    rest_read: String,
)
    requires
        0 < len <= buffer@.len(),
        rest_len <= rest@.len(),
        call_ensures(decode, (buffer, len), read),
        call_ensures(decode, (rest, rest_len), rest_read),
        rest@.take(rest_len as int) == buffer@.take(len as int).skip(
            if len > 1 && is_pair(buffer@[0], buffer@[1]) {
                2
            } else {
                1
            },
        ),
    ensures
        read@.len() == rest_read@.len() + 1,
        read@.skip(1) == rest_read@,
        len > 1 && is_pair(buffer@[0], buffer@[1]) ==> encodes(
            buffer@.take(2),
            read@[0],
        ),
        !(len > 1 && is_pair(buffer@[0], buffer@[1])) && is_surrogate(buffer@[0]) ==> read@[0]
            == '\u{FFFD}',
        !is_surrogate(buffer@[0]) ==> read@[0] as int == buffer@[0],
{
    let encoded = buffer@.take(len as int);
    assert(encoded[0] == buffer@[0]);
    if len > 1 {
        assert(encoded[1] == buffer@[1]);
    }
    assert(read@ == seq![first_char(encoded)] + text_of(encoded.skip(first_width(encoded))));
    assert(read@.skip(1) =~= rest_read@);
}

/// A registry string holds the terminated code units of its text, each as its low byte
/// and then its high byte.
pub proof fn lemma_registry_string_is_little_endian(
    text: &str,
    bytes: Vec<u8>,
    terminated: Vec<u16>,
)
    requires
        call_ensures(reg_sz_bytes, (text,), bytes),
        call_ensures(wide, (text,), terminated),
    ensures
        bytes@.len() == 2 * terminated@.len(),
        forall|i: int|
            0 <= i < terminated@.len() ==> bytes@[2 * i] + 0x100 * bytes@[2 * i + 1]
                == #[trigger] terminated@[i],
{
    assert forall|i: int| 0 <= i < terminated@.len() implies bytes@[2 * i] + 0x100 * bytes@[2 * i
        + 1] == #[trigger] terminated@[i] by {
        assert((2 * i) / 2 == i && (2 * i) % 2 == 0);
        assert((2 * i + 1) / 2 == i && (2 * i + 1) % 2 == 1);
    }
}

/// The value of a digit, in decimal and in upper-case hexadecimal.
pub open spec fn digit_value(c: char) -> int {
    if '0' as int <= c as int <= '9' as int {
        c as int - '0' as int
    } else if 'A' as int <= c as int <= 'F' as int {
        c as int - 'A' as int + 10
    } else {
        -1
    }
}

/// Whether all characters are digits to a base.
pub open spec fn all_digits(digits: Seq<char>, base: int) -> bool {
    forall|i: int| 0 <= i < digits.len() ==> 0 <= digit_value(#[trigger] digits[i]) < base
}

/// The number that digits to a base stand for, the highest first.
pub open spec fn number_in(digits: Seq<char>, base: int) -> int
    decreases digits.len(),
{
    if digits.len() == 0 {
        0
    } else {
        number_in(digits.drop_last(), base) * base + digit_value(digits.last())
    }
}

/// Whether digits are a number as it is written: in decimal, without leading zeros.
pub open spec fn writes(digits: Seq<char>, number: int) -> bool {
    &&& digits.len() > 0
    &&& all_digits(digits, 10)
    &&& digits.len() > 1 ==> digits[0] != '0'
    &&& number_in(digits, 10) == number
}

proof fn lemma_decimal_digit(value: int)
    requires
        0 <= value < 10,
    ensures
        digit_value(decimal_digit(value)) == value,
        value != 0 ==> decimal_digit(value) != '0',
{
}

proof fn lemma_decimal_writes(value: nat)
    ensures
        writes(decimal(value), value as int),
        value > 0 ==> decimal(value)[0] != '0',
    decreases value,
{
    let digits = decimal(value);
    reveal_with_fuel(number_in, 2);
    lemma_decimal_digit((value % 10) as int);
    if value < 10 {
        assert(digits.drop_last() =~= Seq::<char>::empty());
    } else {
        lemma_decimal_writes(value / 10);
        assert(digits.drop_last() =~= decimal(value / 10));
        assert(digits[0] == decimal(value / 10)[0]);
        assert forall|i: int| 0 <= i < digits.len() implies 0 <= digit_value(#[trigger] digits[i])
            < 10 by {
            if i < digits.len() - 1 {
                assert(digits[i] == decimal(value / 10)[i]);
            }
        }
    }
}

/// A log line tells when it was written, in whole milliseconds since the epoch, and by
/// which process, and then the message as it is. A clock that stands before the epoch
/// is told as zero.
pub proof fn lemma_log_line_tells_all(
    since_epoch: Option<Span>,
    pid: u32,
    msg: &str,
    line: String,
)
    requires
        call_ensures(log_line, (since_epoch, pid, msg), line),
    ensures
        exists|now: int, when: Seq<char>, who: Seq<char>|
            {
                &&& match since_epoch {
                    Some(span) => is_floor(now, span),
                    None => now == 0,
                }
                &&& #[trigger] writes(when, now)
                &&& #[trigger] writes(who, pid as int)
                &&& line@ == "["@ + when + " pid="@ + who + "] "@ + msg@ + "\n"@
            },
{
    let now = match since_epoch {
        Some(span) => span.ms(),
        None => 0,
    };
    lemma_decimal_writes(now as nat);
    lemma_decimal_writes(pid as nat);
    assert(writes(decimal(now as nat), now));
    assert(writes(decimal(pid as nat), pid as int));
}

proof fn lemma_hex_digit(value: int)
    requires
        0 <= value < 16,
    ensures
        digit_value(hex_digit(value)) == value,
{
}

/// One more than the largest number in `width` hexadecimal digits.
pub open spec fn limit(width: nat) -> int
    decreases width,
{
    if width == 0 {
        1
    } else {
        16 * limit((width - 1) as nat)
    }
}

proof fn lemma_hex_reads_back(value: int, width: nat)
    requires
        0 <= value < limit(width),
    ensures
        hex(value, width).len() == width,
        all_digits(hex(value, width), 16),
        number_in(hex(value, width), 16) == value,
    decreases width,
{
    if width > 0 {
        let shorter = (width - 1) as nat;
        let digits = hex(value, width);
        lemma_hex_reads_back(value / 16, shorter);
        lemma_hex_digit(value % 16);
        assert(digits.drop_last() =~= hex(value / 16, shorter));
        assert forall|i: int| 0 <= i < digits.len() implies 0 <= digit_value(#[trigger] digits[i])
            < 16 by {
            if i < digits.len() - 1 {
                assert(digits[i] == hex(value / 16, shorter)[i]);
            }
        }
    }
}

proof fn lemma_byte_reads_back(bytes: Seq<u8>, at: int)
    requires
        0 <= at < bytes.len(),
    ensures
        hex_bytes(bytes).len() == 2 * bytes.len(),
        hex_bytes(bytes).subrange(2 * at, 2 * at + 2) == hex(bytes[at] as int, 2),
        hex(bytes[at] as int, 2).len() == 2,
        all_digits(hex(bytes[at] as int, 2), 16),
        number_in(hex(bytes[at] as int, 2), 16) == bytes[at],
    decreases bytes.len(),
{
    reveal_with_fuel(limit, 3);
    lemma_hex_reads_back(bytes[at] as int, 2);
    lemma_hex_reads_back(bytes.last() as int, 2);
    let shorter = bytes.drop_last();
    if shorter.len() == 0 {
        assert(hex_bytes(shorter) =~= Seq::<char>::empty());
    } else {
        lemma_byte_reads_back(shorter, 0);
    }
    if at < shorter.len() {
        lemma_byte_reads_back(shorter, at);
        assert(hex_bytes(bytes).subrange(2 * at, 2 * at + 2) =~= hex_bytes(shorter).subrange(
            2 * at,
            2 * at + 2,
        ));
        assert(shorter[at] == bytes[at]);
    } else {
        assert(hex_bytes(bytes).subrange(2 * at, 2 * at + 2) =~= hex(bytes[at] as int, 2));
    }
}

/// Whether a part of a name is a number in that many upper-case hexadecimal digits.
pub open spec fn holds(name: Seq<char>, from: int, to: int, number: int) -> bool {
    all_digits(name.subrange(from, to), 16) && number_in(name.subrange(from, to), 16) == number
}

/// An identifier's name in the registry reads back as the identifier: braces around
/// five groups of upper-case hexadecimal digits with dashes between them, each group
/// a field in all its digits, and the last two the eight bytes in order.
pub proof fn lemma_name_reads_back(guid: &Guid, path: String)
    requires
        call_ensures(guid_to_reg_path, (guid,), path),
    ensures
        path@.len() == 38,
        path@[0] == '{' && path@[37] == '}',
        path@[9] == '-' && path@[14] == '-' && path@[19] == '-' && path@[24] == '-',
        holds(path@, 1, 9, guid.data1 as int),
        holds(path@, 10, 14, guid.data2 as int),
        holds(path@, 15, 19, guid.data3 as int),
        forall|i: int|
            0 <= i < 2 ==> holds(
                path@,
                20 + 2 * i,
                22 + 2 * i,
                #[trigger] guid.data4@[i] as int,
            ),
        forall|i: int|
            2 <= i < 8 ==> holds(
                path@,
                21 + 2 * i,
                23 + 2 * i,
                #[trigger] guid.data4@[i] as int,
            ),
{
    let name = path@;
    lemma_reg_path_parts(*guid);
    reveal_with_fuel(limit, 9);
    lemma_hex_reads_back(guid.data1 as int, 8);
    lemma_hex_reads_back(guid.data2 as int, 4);
    lemma_hex_reads_back(guid.data3 as int, 4);
    lemma_byte_reads_back(guid.data4@.take(2), 0);
    lemma_byte_reads_back(guid.data4@.skip(2), 0);
    assert forall|i: int| 0 <= i < 2 implies holds(
        name,
        20 + 2 * i,
        22 + 2 * i,
        #[trigger] guid.data4@[i] as int,
    ) by {
        lemma_byte_reads_back(guid.data4@.take(2), i);
        assert(name.subrange(20 + 2 * i, 22 + 2 * i) =~= name.subrange(20, 24).subrange(
            2 * i,
            2 * i + 2,
        ));
    }
    assert forall|i: int| 2 <= i < 8 implies holds(
        name,
        21 + 2 * i,
        23 + 2 * i,
        #[trigger] guid.data4@[i] as int,
    ) by {
        lemma_byte_reads_back(guid.data4@.skip(2), i - 2);
        assert(guid.data4@.skip(2)[i - 2] == guid.data4@[i]);
        assert(name.subrange(21 + 2 * i, 23 + 2 * i) =~= name.subrange(25, 37).subrange(
            2 * (i - 2),
            2 * (i - 2) + 2,
        ));
    }
}

/// Two identifiers are taken for the same exactly when every field and every byte is.
pub proof fn lemma_same_in_every_byte(left: &Guid, right: &Guid, equal: bool)
    requires
        call_ensures(guids_equal, (left, right), equal),
    ensures
        equal <==> left.data1 == right.data1 && left.data2 == right.data2 && left.data3
            == right.data3 && forall|i: int|
            0 <= i < 8 ==> #[trigger] left.data4@[i] == right.data4@[i],
{
    if forall|i: int| 0 <= i < 8 ==> #[trigger] left.data4@[i] == right.data4@[i] {
        assert(left.data4 =~= right.data4);
    }
}

/// An identifier as the number that its fields and bytes make up, the highest first.
pub open spec fn number_of(guid: Guid) -> int {
    guid.data1 * 0x1_0000_0000_0000_0000_0000_0000 + guid.data2 * 0x1_0000_0000_0000_0000_0000
        + guid.data3 * 0x1_0000_0000_0000_0000 + guid.data4@[0] * 0x100_0000_0000_0000
        + guid.data4@[1] * 0x1_0000_0000_0000 + guid.data4@[2] * 0x100_0000_0000 + guid.data4@[3]
        * 0x1_0000_0000 + guid.data4@[4] * 0x100_0000 + guid.data4@[5] * 0x1_0000 + guid.data4@[6]
        * 0x100 + guid.data4@[7]
}

/// The identifier of a number makes up that number again.
pub proof fn lemma_identifier_makes_up_its_number(number: u128)
    ensures
        number_of(guid_of(number)) == number,
{
    let n = number as int;
    let guid = guid_of(number);
    lemma_div_denominator(n, 0x100, 0x100);
    lemma_div_denominator(n, 0x1_0000, 0x100);
    lemma_div_denominator(n, 0x100_0000, 0x100);
    lemma_div_denominator(n, 0x1_0000_0000, 0x100);
    lemma_div_denominator(n, 0x100_0000_0000, 0x100);
    lemma_div_denominator(n, 0x1_0000_0000_0000, 0x100);
    lemma_div_denominator(n, 0x100_0000_0000_0000, 0x100);
    lemma_div_denominator(n, 0x1_0000_0000_0000_0000, 0x1_0000);
    lemma_div_denominator(n, 0x1_0000_0000_0000_0000_0000, 0x1_0000);
    let q1 = n / 0x100;
    let q2 = n / 0x1_0000;
    let q3 = n / 0x100_0000;
    let q4 = n / 0x1_0000_0000;
    let q5 = n / 0x100_0000_0000;
    let q6 = n / 0x1_0000_0000_0000;
    let q7 = n / 0x100_0000_0000_0000;
    let q8 = n / 0x1_0000_0000_0000_0000;
    let q10 = n / 0x1_0000_0000_0000_0000_0000;
    let q12 = n / 0x1_0000_0000_0000_0000_0000_0000;
    assert(guid.data4@[7] == n - 0x100 * q1);
    assert(guid.data4@[6] == q1 - 0x100 * q2);
    assert(guid.data4@[5] == q2 - 0x100 * q3);
    assert(guid.data4@[4] == q3 - 0x100 * q4);
    assert(guid.data4@[3] == q4 - 0x100 * q5);
    assert(guid.data4@[2] == q5 - 0x100 * q6);
    assert(guid.data4@[1] == q6 - 0x100 * q7);
    assert(guid.data4@[0] == q7 - 0x100 * q8);
    assert(guid.data3 == q8 - 0x1_0000 * q10);
    assert(guid.data2 == q10 - 0x1_0000 * q12);
    assert(q12 < 0x1_0000_0000);
    assert(guid.data1 == q12);
}

/// The class and the profile have their own identifiers.
pub proof fn lemma_own_identifiers(clsid: Guid, profile: Guid)
    requires
        call_ensures(clsid_tip, (), clsid),
        call_ensures(profile_guid, (), profile),
    ensures
        number_of(clsid) == 0x8f2c1a6e_3d47_4b8a_9e12_5a6f7c8d9e0f,
        number_of(profile) == 0x1b3d5f7a_9c2e_4f6b_8a1d_3e5f7a9c2e4f,
        clsid != profile,
{
    lemma_identifier_makes_up_its_number(0x8f2c1a6e_3d47_4b8a_9e12_5a6f7c8d9e0f);
    lemma_identifier_makes_up_its_number(0x1b3d5f7a_9c2e_4f6b_8a1d_3e5f7a9c2e4f);
}

} // verus!
