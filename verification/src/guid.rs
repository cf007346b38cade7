//! Identifiers of classes and profiles, and their names in the registry.
use vstd::prelude::*;

verus! {

/// A globally unique identifier.
#[derive(Clone, Copy, Debug, PartialEq, Eq)]
pub struct Guid {
    pub data1: u32,
    pub data2: u16,
    pub data3: u16,
    pub data4: [u8; 8],
}

/// The identifier that a number stands for: the number's bits from the highest
/// down fill the fields in order, and `data4` byte by byte.
pub open spec fn guid_of(number: u128) -> Guid {
    Guid {
        data1: (number / 0x1_0000_0000_0000_0000_0000_0000) as u32,
        data2: (number / 0x1_0000_0000_0000_0000_0000 % 0x1_0000) as u16,
        data3: (number / 0x1_0000_0000_0000_0000 % 0x1_0000) as u16,
        data4: [
            (number / 0x100_0000_0000_0000 % 0x100) as u8,
            (number / 0x1_0000_0000_0000 % 0x100) as u8,
            (number / 0x100_0000_0000 % 0x100) as u8,
            (number / 0x1_0000_0000 % 0x100) as u8,
            (number / 0x100_0000 % 0x100) as u8,
            (number / 0x1_0000 % 0x100) as u8,
            (number / 0x100 % 0x100) as u8,
            (number % 0x100) as u8,
        ],
    }
}

impl Guid {
    /// Calls `windows_core::GUID::from_u128` and moves its fields. The contract
    /// claims that the call cuts the number from its highest bits down: 32 bits,
    /// twice 16 bits, then the low 64 bits as bytes, the highest first.
    #[verifier::external_body]
    pub(crate) fn from_u128(number: u128) -> (guid: Guid)
        ensures
            guid == guid_of(number),
    {
        let cut = windows_core::GUID::from_u128(number);
        Guid { data1: cut.data1, data2: cut.data2, data3: cut.data3, data4: cut.data4 }
    }
}

/// Whether two identifiers are the same.
pub fn guids_equal(left: &Guid, right: &Guid) -> (equal: bool)
    ensures
        equal == (*left == *right),
{
    if left.data1 != right.data1 || left.data2 != right.data2 || left.data3 != right.data3 {
        return false;
    }
    let mut i: usize = 0;
    while i < 8
        invariant
            i <= 8,
            forall|k: int| 0 <= k < i ==> left.data4@[k] == right.data4@[k],
        decreases 8 - i,
    {
        if left.data4[i] != right.data4[i] {
            return false;
        }
        i = i + 1;
    }
    assert(left.data4 =~= right.data4);
    true
}

/// An upper-case hexadecimal digit.
pub open spec fn hex_digit(value: int) -> char {
    if value < 10 {
        ('0' as int + value) as char
    } else {
        ('A' as int + value - 10) as char
    }
}

/// The lowest `width` hexadecimal digits of a number, the highest first.
pub open spec fn hex(value: int, width: nat) -> Seq<char>
    decreases width,
{
    if width == 0 {
        Seq::empty()
    } else {
        hex(value / 16, (width - 1) as nat).push(hex_digit(value % 16))
    }
}

/// Bytes as two hexadecimal digits each.
pub open spec fn hex_bytes(bytes: Seq<u8>) -> Seq<char>
    decreases bytes.len(),
{
    if bytes.len() == 0 {
        Seq::empty()
    } else {
        hex_bytes(bytes.drop_last()) + hex(bytes.last() as int, 2)
    }
}

/// An identifier's name in the registry: braces around groups of digits.
pub open spec fn reg_path(guid: Guid) -> Seq<char> {
    seq!['{'] + hex(guid.data1 as int, 8) + seq!['-'] + hex(guid.data2 as int, 4) + seq!['-'] + hex(
        guid.data3 as int,
        4,
    ) + seq!['-'] + hex_bytes(guid.data4@.take(2)) + seq!['-'] + hex_bytes(guid.data4@.skip(2))
        + seq!['}']
}

fn digit(value: u32) -> (c: char)
    requires
        value < 16,
    ensures
        c == hex_digit(value as int),
{
    match value {
        0 => '0',
        1 => '1',
        2 => '2',
        3 => '3',
        4 => '4',
        5 => '5',
        6 => '6',
        7 => '7',
        8 => '8',
        9 => '9',
        10 => 'A',
        11 => 'B',
        12 => 'C',
        13 => 'D',
        14 => 'E',
        _ => 'F',
    }
}

/// Appends the lowest `width` hexadecimal digits of a number.
fn push_hex(out: &mut String, value: u32, width: usize)
    ensures
        final(out)@ == old(out)@ + hex(value as int, width as nat),
    decreases width,
{
    if width > 0 {
        push_hex(out, value / 16, width - 1);
        out.push(digit(value % 16));
    }
    assert(out@ =~= old(out)@ + hex(value as int, width as nat));
}

/// Appends the bytes from `from` up to `to` as two hexadecimal digits each.
fn push_hex_bytes(out: &mut String, bytes: &[u8; 8], from: usize, to: usize)
    requires
        from <= to <= 8,
    ensures
        final(out)@ == old(out)@ + hex_bytes(bytes@.subrange(from as int, to as int)),
{
    let mut i: usize = from;
    assert(hex_bytes(bytes@.subrange(from as int, from as int)) =~= Seq::<char>::empty());
    assert(out@ =~= old(out)@ + Seq::<char>::empty());
    while i < to
        invariant
            from <= i <= to <= 8,
            out@ == old(out)@ + hex_bytes(bytes@.subrange(from as int, i as int)),
        decreases to - i,
    {
        let ghost done = bytes@.subrange(from as int, i as int);
        push_hex(out, bytes[i] as u32, 2);
        i = i + 1;
        proof {
            let longer = bytes@.subrange(from as int, i as int);
            assert(longer.drop_last() =~= done);
            assert(out@ =~= old(out)@ + hex_bytes(longer));
        }
    }
}

/// An identifier's name in the registry.
pub fn guid_to_reg_path(guid: &Guid) -> (path: String)
    ensures
        path@ == reg_path(*guid),
{
    let mut path: String = String::new();
    path.push('{');
    push_hex(&mut path, guid.data1, 8);
    path.push('-');
    push_hex(&mut path, guid.data2 as u32, 4);
    path.push('-');
    push_hex(&mut path, guid.data3 as u32, 4);
    path.push('-');
    push_hex_bytes(&mut path, &guid.data4, 0, 2);
    path.push('-');
    push_hex_bytes(&mut path, &guid.data4, 2, 8);
    path.push('}');
    assert(guid.data4@.subrange(0, 2) =~= guid.data4@.take(2));
    assert(guid.data4@.subrange(2, 8) =~= guid.data4@.skip(2));
    assert(path@ =~= reg_path(*guid));
    path
}

/// One more than the largest number with `width` hexadecimal digits.
pub open spec fn hex_limit(width: nat) -> int
    decreases width,
{
    if width == 0 {
        1
    } else {
        16 * hex_limit((width - 1) as nat)
    }
}

proof fn lemma_hex(left: int, right: int, width: nat)
    requires
        0 <= left < hex_limit(width),
        0 <= right < hex_limit(width),
    ensures
        hex(left, width).len() == width,
        hex(left, width) == hex(right, width) ==> left == right,
    decreases width,
{
    if width > 0 {
        let shorter = (width - 1) as nat;
        lemma_hex(left / 16, right / 16, shorter);
        lemma_hex(right / 16, left / 16, shorter);
        if hex(left, width) == hex(right, width) {
            assert(hex(left, width).drop_last() =~= hex(left / 16, shorter));
            assert(hex(right, width).drop_last() =~= hex(right / 16, shorter));
            assert(hex(left, width).last() == hex_digit(left % 16));
            assert(hex(right, width).last() == hex_digit(right % 16));
        }
    }
}

proof fn lemma_hex_bytes(left: Seq<u8>, right: Seq<u8>)
    requires
        left.len() == right.len(),
    ensures
        hex_bytes(left).len() == 2 * left.len(),
        hex_bytes(left) == hex_bytes(right) ==> left == right,
    decreases left.len(),
{
    if left.len() > 0 {
        lemma_hex_bytes(left.drop_last(), right.drop_last());
        lemma_hex_bytes(right.drop_last(), left.drop_last());
        assert(hex_limit(2) == 256) by {
            reveal_with_fuel(hex_limit, 3);
        }
        lemma_hex(left.last() as int, right.last() as int, 2);
        lemma_hex(right.last() as int, left.last() as int, 2);
        if hex_bytes(left) == hex_bytes(right) {
            let cut = 2 * (left.len() - 1);
            assert(hex_bytes(left).take(cut) =~= hex_bytes(left.drop_last()));
            assert(hex_bytes(right).take(cut) =~= hex_bytes(right.drop_last()));
            assert(hex_bytes(left).skip(cut) =~= hex(left.last() as int, 2));
            assert(hex_bytes(right).skip(cut) =~= hex(right.last() as int, 2));
            assert(left =~= left.drop_last().push(left.last()));
            assert(right =~= right.drop_last().push(right.last()));
        }
    } else {
        assert(left =~= right);
    }
}

/// Where the parts of a name stand.
pub proof fn lemma_reg_path_parts(guid: Guid)
    ensures
        reg_path(guid).len() == 38,
        reg_path(guid).subrange(1, 9) == hex(guid.data1 as int, 8),
        reg_path(guid).subrange(10, 14) == hex(guid.data2 as int, 4),
        reg_path(guid).subrange(15, 19) == hex(guid.data3 as int, 4),
        reg_path(guid).subrange(20, 24) == hex_bytes(guid.data4@.take(2)),
        reg_path(guid).subrange(25, 37) == hex_bytes(guid.data4@.skip(2)),
{
    lemma_hex_limits();
    lemma_hex(guid.data1 as int, guid.data1 as int, 8);
    lemma_hex(guid.data2 as int, guid.data2 as int, 4);
    lemma_hex(guid.data3 as int, guid.data3 as int, 4);
    lemma_hex_bytes(guid.data4@.take(2), guid.data4@.take(2));
    lemma_hex_bytes(guid.data4@.skip(2), guid.data4@.skip(2));
    let path = reg_path(guid);
    assert(path.subrange(1, 9) =~= hex(guid.data1 as int, 8));
    assert(path.subrange(10, 14) =~= hex(guid.data2 as int, 4));
    assert(path.subrange(15, 19) =~= hex(guid.data3 as int, 4));
    assert(path.subrange(20, 24) =~= hex_bytes(guid.data4@.take(2)));
    assert(path.subrange(25, 37) =~= hex_bytes(guid.data4@.skip(2)));
}

proof fn lemma_hex_limits()
    ensures
        hex_limit(4) == 0x1_0000,
        hex_limit(8) == 0x1_0000_0000,
{
    reveal_with_fuel(hex_limit, 9);
}

/// Different identifiers have different names in the registry, and every name is
/// 38 characters long.
pub proof fn lemma_reg_paths_differ(left: Guid, right: Guid)
    ensures
        reg_path(left).len() == 38,
        reg_path(left) == reg_path(right) ==> left == right,
{
    lemma_reg_path_parts(left);
    lemma_reg_path_parts(right);
    if reg_path(left) == reg_path(right) {
        lemma_hex_limits();
        lemma_hex(left.data1 as int, right.data1 as int, 8);
        lemma_hex(left.data2 as int, right.data2 as int, 4);
        lemma_hex(left.data3 as int, right.data3 as int, 4);
        lemma_hex_bytes(left.data4@.take(2), right.data4@.take(2));
        lemma_hex_bytes(left.data4@.skip(2), right.data4@.skip(2));
        assert(left.data4@ =~= left.data4@.take(2) + left.data4@.skip(2));
        assert(right.data4@ =~= right.data4@.take(2) + right.data4@.skip(2));
        assert(left.data4 =~= right.data4);
    }
}

} // verus!
