//! A 32-bit identifier whose bytes, most significant first, spell four
//! characters.

use std::cmp::Ordering;
use vstd::prelude::*;

verus! {

/// The value of four bytes read as an unsigned big-endian integer.
pub open spec fn big_endian(b: Seq<u8>) -> int
    recommends
        b.len() == 4,
{
    b[0] as int * 0x100_0000 + b[1] as int * 0x1_0000 + b[2] as int * 0x100 + b[3] as int
}

/// Whether `a` comes before `b` when four bytes are compared one by one,
/// the first byte deciding first.
pub open spec fn bytes_less(a: Seq<u8>, b: Seq<u8>) -> bool
    recommends
        a.len() == 4,
        b.len() == 4,
{
    a[0] < b[0] || (a[0] == b[0] && (a[1] < b[1] || (a[1] == b[1] && (a[2] < b[2] || (a[2]
        == b[2] && a[3] < b[3])))))
}

/// The four bytes of `v`, most significant first.
pub open spec fn bytes_of(v: u32) -> Seq<u8> {
    seq![
        (v / 0x100_0000) as u8,
        (v / 0x1_0000 % 0x100) as u8,
        (v / 0x100 % 0x100) as u8,
        (v % 0x100) as u8,
    ]
}

proof fn lemma_pack_bits(a: u8, b: u8, c: u8, d: u8)
    by (bit_vector)
    ensures
        ((a as u32) << 24u32) | ((b as u32) << 16u32) | ((c as u32) << 8u32) | (d as u32)
            == ((a as u32) * 0x100_0000u32 + (b as u32) * 0x1_0000u32 + (c as u32) * 0x100u32
            + (d as u32)) as u32,
{
}

proof fn lemma_unpack_bits(v: u32)
    by (bit_vector)
    ensures
        v >> 24u32 == v / 0x100_0000u32,
        (v >> 16u32) & 0xffu32 == (v / 0x1_0000u32) % 0x100u32,
        (v >> 8u32) & 0xffu32 == (v / 0x100u32) % 0x100u32,
        v & 0xffu32 == v % 0x100u32,
        ((v >> 16u32) as u8) as u32 == (v >> 16u32) & 0xffu32,
        ((v >> 8u32) as u8) as u32 == (v >> 8u32) & 0xffu32,
        (v as u8) as u32 == v & 0xffu32,
{
}

proof fn lemma_split_bits(a: u8, b: u8, c: u8, d: u8, v: u32)
    by (bit_vector)
    requires
        v == ((a as u32) * 0x100_0000u32 + (b as u32) * 0x1_0000u32 + (c as u32) * 0x100u32
            + (d as u32)) as u32,
    ensures
        v / 0x100_0000u32 == a as u32,
        (v / 0x1_0000u32) % 0x100u32 == b as u32,
        (v / 0x100u32) % 0x100u32 == c as u32,
        v % 0x100u32 == d as u32,
{
}

proof fn lemma_join_bits(v: u32)
    by (bit_vector)
    ensures
        v == ((v / 0x100_0000u32) * 0x100_0000u32 + ((v / 0x1_0000u32) % 0x100u32) * 0x1_0000u32
            + ((v / 0x100u32) % 0x100u32) * 0x100u32 + v % 0x100u32) as u32,
{
}

/// Packing four bytes and unpacking the result gives the same four bytes.
pub proof fn lemma_chars_round_trip(b: Seq<u8>)
    requires
        b.len() == 4,
    ensures
        0 <= big_endian(b) <= u32::MAX,
        bytes_of(big_endian(b) as u32) == b,
{
    let v = big_endian(b) as u32;
    lemma_split_bits(b[0], b[1], b[2], b[3], v);
    assert(bytes_of(v) =~= b);
}

/// Unpacking an integer into its bytes and packing them again gives the same
/// integer.
pub proof fn lemma_int_round_trip(v: u32)
    ensures
        big_endian(bytes_of(v)) == v,
{
    lemma_join_bits(v);
}

proof fn lemma_digits_less(a0: int, a1: int, a2: int, a3: int, b0: int, b1: int, b2: int, b3: int)
    requires
        0 <= a0 < 0x100,
        0 <= a1 < 0x100,
        0 <= a2 < 0x100,
        0 <= a3 < 0x100,
        0 <= b0 < 0x100,
        0 <= b1 < 0x100,
        0 <= b2 < 0x100,
        0 <= b3 < 0x100,
    ensures
        (a0 * 0x100_0000 + a1 * 0x1_0000 + a2 * 0x100 + a3 < b0 * 0x100_0000 + b1 * 0x1_0000
            + b2 * 0x100 + b3) == (a0 < b0 || (a0 == b0 && (a1 < b1 || (a1 == b1 && (a2 < b2
            || (a2 == b2 && a3 < b3)))))),
{
    assert(a0 < b0 ==> a0 * 0x100_0000 + 0x100_0000 <= b0 * 0x100_0000) by (nonlinear_arith);
    assert(b0 < a0 ==> b0 * 0x100_0000 + 0x100_0000 <= a0 * 0x100_0000) by (nonlinear_arith);
    assert(a1 < b1 ==> a1 * 0x1_0000 + 0x1_0000 <= b1 * 0x1_0000) by (nonlinear_arith);
    assert(b1 < a1 ==> b1 * 0x1_0000 + 0x1_0000 <= a1 * 0x1_0000) by (nonlinear_arith);
}

/// Codes packed from bytes are equal exactly when the bytes are, and one is
/// smaller than the other exactly when its bytes come first byte by byte.
pub proof fn lemma_order_of_bytes(a: Seq<u8>, b: Seq<u8>)
    requires
        a.len() == 4,
        b.len() == 4,
    ensures
        (big_endian(a) == big_endian(b)) == (a == b),
        (big_endian(a) < big_endian(b)) == bytes_less(a, b),
{
    lemma_chars_round_trip(a);
    lemma_chars_round_trip(b);
    lemma_digits_less(
        a[0] as int,
        a[1] as int,
        a[2] as int,
        a[3] as int,
        b[0] as int,
        b[1] as int,
        b[2] as int,
        b[3] as int,
    );
}

/// The digit of `n`, below 16, in lower-case hexadecimal.
pub open spec fn hex_digit(n: u8) -> char {
    if n < 10 {
        ((0x30 + n) as u8) as char
    } else {
        ((0x57 + n) as u8) as char
    }
}

/// How one byte is written between double quotes: printable ASCII as itself,
/// except the double quote and the backslash, which follow a backslash; tab,
/// carriage return and line feed as `\t`, `\r` and `\n`; any other byte as `\x`
/// and two lower-case hex digits.
pub open spec fn escaped(b: u8) -> Seq<char> {
    if b == 0x09 {
        seq!['\\', 't']
    } else if b == 0x0d {
        seq!['\\', 'r']
    } else if b == 0x0a {
        seq!['\\', 'n']
    } else if b == 0x22 || b == 0x5c {
        seq!['\\', b as char]
    } else if 0x20 <= b < 0x7f {
        seq![b as char]
    } else {
        seq!['\\', 'x', hex_digit(b / 16), hex_digit(b % 16)]
    }
}

/// The debug text of a code: its four bytes, escaped, between double quotes.
pub open spec fn debug_text(v: u32) -> Seq<char> {
    let b = bytes_of(v);
    seq!['"'] + escaped(b[0]) + escaped(b[1]) + escaped(b[2]) + escaped(b[3]) + seq!['"']
}

/// A code whose four bytes are printable ASCII, none of them a double quote or
/// a backslash, shows as those four characters between double quotes.
pub proof fn lemma_printable_debug_text(v: u32)
    requires
        forall|i: int|
            0 <= i < 4 ==> 0x20 <= #[trigger] bytes_of(v)[i] < 0x7f && bytes_of(v)[i] != 0x22
                && bytes_of(v)[i] != 0x5c,
    ensures
        debug_text(v) == seq![
            '"',
            bytes_of(v)[0] as char,
            bytes_of(v)[1] as char,
            bytes_of(v)[2] as char,
            bytes_of(v)[3] as char,
            '"',
        ],
{
    let b = bytes_of(v);
    assert(0x20 <= b[0] < 0x7f && b[0] != 0x22 && b[0] != 0x5c);
    assert(0x20 <= b[1] < 0x7f && b[1] != 0x22 && b[1] != 0x5c);
    assert(0x20 <= b[2] < 0x7f && b[2] != 0x22 && b[2] != 0x5c);
    assert(0x20 <= b[3] < 0x7f && b[3] != 0x22 && b[3] != 0x5c);
    assert(debug_text(v) =~= seq!['"', b[0] as char, b[1] as char, b[2] as char, b[3] as char, '"']);
}

/// Relies on `String::push`: appends one character at the end.
#[verifier::external_body]
fn push_char(s: &mut String, c: char)
    ensures
        final(s)@ == old(s)@.push(c),
{
    s.push(c)
}

fn hex_digit_char(n: u8) -> (r: char)
    requires
        n < 16,
    ensures
        r == hex_digit(n),
{
    if n < 10 {
        (0x30u8 + n) as char
    } else {
        (0x57u8 + n) as char
    }
}

fn push_escaped(s: &mut String, b: u8)
    ensures
        final(s)@ == old(s)@ + escaped(b),
{
    if b == 0x09 {
        push_char(s, '\\');
        push_char(s, 't');
    } else if b == 0x0d {
        push_char(s, '\\');
        push_char(s, 'r');
    } else if b == 0x0a {
        push_char(s, '\\');
        push_char(s, 'n');
    } else if b == 0x22 || b == 0x5c {
        push_char(s, '\\');
        push_char(s, b as char);
    } else if 0x20 <= b && b < 0x7f {
        push_char(s, b as char);
    } else {
        push_char(s, '\\');
        push_char(s, 'x');
        push_char(s, hex_digit_char(b / 16));
        push_char(s, hex_digit_char(b % 16));
    }
    assert(final(s)@ =~= old(s)@ + escaped(b));
}

/// A four-character code.
#[derive(Clone, Copy, PartialEq, Eq, Structural, Ord, Hash)]
pub struct FourCharCode(pub u32);

impl View for FourCharCode {
    type V = u32;

    open spec fn view(&self) -> u32 {
        self.0
    }
}

/// The order of two integers, as `u32`'s comparison gives it.
pub open spec fn compare(a: u32, b: u32) -> Ordering {
    if a < b {
        Ordering::Less
    } else if a == b {
        Ordering::Equal
    } else {
        Ordering::Greater
    }
}

/// Orders codes by their integer values.
fn compare_values(a: u32, b: u32) -> (r: Ordering)
    ensures
        r == compare(a, b),
{
    if a < b {
        Ordering::Less
    } else if a == b {
        Ordering::Equal
    } else {
        Ordering::Greater
    }
}

impl PartialOrd for FourCharCode {
    fn partial_cmp(&self, other: &FourCharCode) -> (r: Option<Ordering>)
        ensures
            r == Some(compare(self@, other@)),
    {
        Some(compare_values(self.0, other.0))
    }
}

impl vstd::std_specs::cmp::PartialOrdSpecImpl for FourCharCode {
    open spec fn obeys_partial_cmp_spec() -> bool {
        true
    }

    open spec fn partial_cmp_spec(&self, other: &FourCharCode) -> Option<Ordering> {
        Some(compare(self@, other@))
    }
}

impl FourCharCode {
    /// Returns an instance holding `value` unchanged.
    pub fn from_int(value: u32) -> (r: Self)
        ensures
            r@ == value,
    {
        FourCharCode(value)
    }

    /// Packs four bytes, the first one most significant.
    pub fn from_chars(chars: [u8; 4]) -> (r: Self)
        ensures
            r@ == big_endian(chars@),
    {
        proof {
            lemma_pack_bits(chars@[0], chars@[1], chars@[2], chars@[3]);
        }
        FourCharCode(
            ((chars[0] as u32) << 24u32) | ((chars[1] as u32) << 16u32) | ((chars[2] as u32)
                << 8u32) | (chars[3] as u32),
        )
    }

    /// Returns the integer value.
    pub fn into_int(self) -> (r: u32)
        ensures
            r == self@,
    {
        self.0
    }

    /// Unpacks the four bytes, the most significant first.
    pub fn into_chars(self) -> (r: [u8; 4])
        ensures
            r@ == bytes_of(self@),
    {
        let v = self.0;
        proof {
            lemma_unpack_bits(v);
        }
        let r = [(v >> 24u32) as u8, (v >> 16u32) as u8, (v >> 8u32) as u8, v as u8];
        assert(r@ =~= bytes_of(v));
        r
    }

    /// The four bytes as escaped text between double quotes, as `Debug`
    /// shows a code.
    pub fn debug_string(&self) -> (r: String)
        ensures
            r@ == debug_text(self@),
    {
        let b = self.into_chars();
        let mut s = String::new();
        push_char(&mut s, '"');
        push_escaped(&mut s, b[0]);
        push_escaped(&mut s, b[1]);
        push_escaped(&mut s, b[2]);
        push_escaped(&mut s, b[3]);
        push_char(&mut s, '"');
        assert(s@ =~= debug_text(self@));
        s
    }
}

} // verus!
