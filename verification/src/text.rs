//! Text building blocks: decimal and hexadecimal rendering of integers and
//! joining lists of strings with a separator.

use vstd::prelude::*;

verus! {

/// The decimal digit character for a value below ten.
pub open spec fn digit_char(d: nat) -> char {
    if d == 0 { '0' }
    else if d == 1 { '1' }
    else if d == 2 { '2' }
    else if d == 3 { '3' }
    else if d == 4 { '4' }
    else if d == 5 { '5' }
    else if d == 6 { '6' }
    else if d == 7 { '7' }
    else if d == 8 { '8' }
    else { '9' }
}

/// The upper-case hexadecimal digit character for a value below sixteen.
pub open spec fn hex_char(d: nat) -> char {
    if d < 10 { digit_char(d) }
    else if d == 10 { 'A' }
    else if d == 11 { 'B' }
    else if d == 12 { 'C' }
    else if d == 13 { 'D' }
    else if d == 14 { 'E' }
    else { 'F' }
}

/// Decimal text of a natural number, as `{}` prints it: no sign, no leading zeros.
pub open spec fn decimal(n: nat) -> Seq<char>
    decreases n,
{
    if n < 10 {
        seq![digit_char(n)]
    } else {
        decimal(n / 10).push(digit_char(n % 10))
    }
}

/// Decimal text of an integer, as `{}` prints it: a leading `-` for negatives.
pub open spec fn signed_decimal(i: int) -> Seq<char> {
    if i < 0 {
        seq!['-'] + decimal((-i) as nat)
    } else {
        decimal(i as nat)
    }
}

/// Upper-case hexadecimal text of a byte sequence, two digits per byte,
/// high nibble first.
pub open spec fn hex_upper(bytes: Seq<u8>) -> Seq<char>
    decreases bytes.len(),
{
    if bytes.len() == 0 {
        seq![]
    } else {
        hex_upper(bytes.drop_last()) + seq![
            hex_char((bytes.last() / 16) as nat),
            hex_char((bytes.last() % 16) as nat),
        ]
    }
}

/// The parts joined with `sep` between neighbours.
pub open spec fn join(parts: Seq<Seq<char>>, sep: Seq<char>) -> Seq<char>
    decreases parts.len(),
{
    if parts.len() == 0 {
        seq![]
    } else if parts.len() == 1 {
        parts[0]
    } else {
        join(parts.drop_last(), sep) + sep + parts.last()
    }
}

/// `String::push`: appends the character to the end of the string. The
/// contract claims just that, as std documents it: the new text is the old
/// one followed by `c`.
#[verifier::external_body]
pub(crate) fn push_char(s: &mut String, c: char)
    ensures
        final(s)@ == old(s)@.push(c),
{
    s.push(c)
}

/// The character of a hexadecimal digit.
pub(crate) fn hex_char_of(d: u32) -> (c: char)
    requires
        d < 16,
    ensures
        c == hex_char(d as nat),
{
    match d {
        0 => '0',
        1 => '1',
        2 => '2',
        3 => '3',
        4 => '4',
        5 => '5',
        6 => '6',
        7 => '7',
        8 => '8',
        9 => '9',
        10 => 'A',
        11 => 'B',
        12 => 'C',
        13 => 'D',
        14 => 'E',
        _ => 'F',
    }
}

/// Appends the decimal text of `n`.
pub(crate) fn push_decimal(s: &mut String, n: u64)
    ensures
        final(s)@ == old(s)@ + decimal(n as nat),
    decreases n,
{
    if n >= 10 {
        push_decimal(s, n / 10);
    }
    let d: u64 = n % 10;
    let c = hex_char_of(d as u32);
    push_char(s, c);
    proof {
        assert(hex_char(d as nat) == digit_char(d as nat));
    }
}

/// The eight hexadecimal digits of a 32-bit value, most significant first:
/// what `format!("{:08X}", v)` gives.
pub open spec fn hex8(v: u32) -> Seq<char> {
    seq![
        hex_char(((v >> 28u32) & 0xfu32) as nat),
        hex_char(((v >> 24u32) & 0xfu32) as nat),
        hex_char(((v >> 20u32) & 0xfu32) as nat),
        hex_char(((v >> 16u32) & 0xfu32) as nat),
        hex_char(((v >> 12u32) & 0xfu32) as nat),
        hex_char(((v >> 8u32) & 0xfu32) as nat),
        hex_char(((v >> 4u32) & 0xfu32) as nat),
        hex_char((v & 0xfu32) as nat),
    ]
}

/// Appends `format!("{:08X}", v)`.
pub(crate) fn push_hex8(s: &mut String, v: u32)
    ensures
        final(s)@ == old(s)@ + hex8(v),
{
    assert(((v >> 28u32) & 0xfu32) < 16u32 && ((v >> 24u32) & 0xfu32) < 16u32 && ((v >> 20u32)
        & 0xfu32) < 16u32 && ((v >> 16u32) & 0xfu32) < 16u32 && ((v >> 12u32) & 0xfu32) < 16u32
        && ((v >> 8u32) & 0xfu32) < 16u32 && ((v >> 4u32) & 0xfu32) < 16u32 && (v & 0xfu32)
        < 16u32) by (bit_vector);
    push_char(s, hex_char_of((v >> 28u32) & 0xfu32));
    push_char(s, hex_char_of((v >> 24u32) & 0xfu32));
    push_char(s, hex_char_of((v >> 20u32) & 0xfu32));
    push_char(s, hex_char_of((v >> 16u32) & 0xfu32));
    push_char(s, hex_char_of((v >> 12u32) & 0xfu32));
    push_char(s, hex_char_of((v >> 8u32) & 0xfu32));
    push_char(s, hex_char_of((v >> 4u32) & 0xfu32));
    push_char(s, hex_char_of(v & 0xfu32));
    assert(final(s)@ =~= old(s)@ + hex8(v));
}

/// The nibbles of a big-endian 32-bit word are those of its four bytes.
pub proof fn lemma_be_word_nibbles(b0: u8, b1: u8, b2: u8, b3: u8)
    ensures
        ({
            let v: u32 = ((b0 as u32) << 24u32) | ((b1 as u32) << 16u32) | ((b2 as u32) << 8u32)
                | (b3 as u32);
            &&& (v >> 28u32) & 0xfu32 == (b0 / 16) as u32
            &&& (v >> 24u32) & 0xfu32 == (b0 % 16) as u32
            &&& (v >> 20u32) & 0xfu32 == (b1 / 16) as u32
            &&& (v >> 16u32) & 0xfu32 == (b1 % 16) as u32
            &&& (v >> 12u32) & 0xfu32 == (b2 / 16) as u32
            &&& (v >> 8u32) & 0xfu32 == (b2 % 16) as u32
            &&& (v >> 4u32) & 0xfu32 == (b3 / 16) as u32
            &&& v & 0xfu32 == (b3 % 16) as u32
        }),
{
    assert({
        let v: u32 = ((b0 as u32) << 24u32) | ((b1 as u32) << 16u32) | ((b2 as u32) << 8u32)
            | (b3 as u32);
        &&& (v >> 28u32) & 0xfu32 == (b0 / 16) as u32
        &&& (v >> 24u32) & 0xfu32 == (b0 % 16) as u32
        &&& (v >> 20u32) & 0xfu32 == (b1 / 16) as u32
        &&& (v >> 16u32) & 0xfu32 == (b1 % 16) as u32
        &&& (v >> 12u32) & 0xfu32 == (b2 / 16) as u32
        &&& (v >> 8u32) & 0xfu32 == (b2 % 16) as u32
        &&& (v >> 4u32) & 0xfu32 == (b3 / 16) as u32
        &&& v & 0xfu32 == (b3 % 16) as u32
    }) by (bit_vector);
}

/// Distinct digit values below sixteen have distinct characters.
proof fn lemma_hex_char_injective(x: nat, y: nat)
    requires
        x < 16,
        y < 16,
        hex_char(x) == hex_char(y),
    ensures
        x == y,
{
}

/// Law: the hexadecimal text has two characters per byte, and equal texts
/// come from equal bytes, so an order number names the random bytes it was
/// made of.
pub proof fn law_hex_upper_injective(a: Seq<u8>, b: Seq<u8>)
    requires
        a.len() == b.len(),
        hex_upper(a) == hex_upper(b),
    ensures
        a == b,
        hex_upper(a).len() == 2 * a.len(),
    decreases a.len(),
{
    if a.len() > 0 {
        let ha = hex_upper(a.drop_last());
        let hb = hex_upper(b.drop_last());
        law_hex_upper_length(a.drop_last());
        law_hex_upper_length(b.drop_last());
        let n: int = ha.len() as int;
        let ta = seq![hex_char((a.last() / 16) as nat), hex_char((a.last() % 16) as nat)];
        let tb = seq![hex_char((b.last() / 16) as nat), hex_char((b.last() % 16) as nat)];
        assert(hex_upper(a) == ha + ta);
        assert(hex_upper(b) == hb + tb);
        assert((ha + ta)[n] == ta[0]);
        assert((hb + tb)[n] == tb[0]);
        assert((ha + ta)[n + 1] == ta[1]);
        assert((hb + tb)[n + 1] == tb[1]);
        assert(hex_upper(a)[n] == hex_upper(b)[n]);
        assert(hex_upper(a)[n + 1] == hex_upper(b)[n + 1]);
        lemma_hex_char_injective((a.last() / 16) as nat, (b.last() / 16) as nat);
        lemma_hex_char_injective((a.last() % 16) as nat, (b.last() % 16) as nat);
        assert(hex_upper(a).take(n) =~= ha);
        assert(hex_upper(b).take(n) =~= hb);
        law_hex_upper_injective(a.drop_last(), b.drop_last());
        assert(a =~= a.drop_last().push(a.last()));
        assert(b =~= b.drop_last().push(b.last()));
    }
    law_hex_upper_length(a);
}

/// The hexadecimal text has two characters per byte.
pub proof fn law_hex_upper_length(a: Seq<u8>)
    ensures
        hex_upper(a).len() == 2 * a.len(),
    decreases a.len(),
{
    if a.len() > 0 {
        law_hex_upper_length(a.drop_last());
    }
}

/// Decimal text of an unsigned integer: what `format!("{}", n)` gives.
pub fn u64_to_decimal(n: u64) -> (s: String)
    ensures
        s@ == decimal(n as nat),
{
    let mut s = String::new();
    push_decimal(&mut s, n);
    assert(s@ =~= decimal(n as nat));
    s
}

/// Decimal text of a signed byte: what `format!("{}", n)` gives.
pub fn i8_to_decimal(n: i8) -> (s: String)
    ensures
        s@ == signed_decimal(n as int),
{
    let mut s = String::new();
    if n < 0 {
        push_char(&mut s, '-');
        let m: i16 = -(n as i16);
        push_decimal(&mut s, m as u64);
    } else {
        push_decimal(&mut s, n as u64);
    }
    assert(s@ =~= signed_decimal(n as int));
    s
}

/// The parts joined with `sep`: what `parts.join(sep)` gives.
pub fn join_strings(parts: &Vec<String>, sep: &str) -> (s: String)
    ensures
        s@ == join(parts.deep_view(), sep@),
{
    let mut s = String::new();
    let ghost dv = parts.deep_view();
    let mut i: usize = 0;
    while i < parts.len()
        invariant
            0 <= i <= parts.len(),
            dv == parts.deep_view(),
            dv.len() == parts.len(),
            s@ == join(dv.take(i as int), sep@),
        decreases parts.len() - i,
    {
        assert(dv.take(i + 1).drop_last() =~= dv.take(i as int));
        if i != 0 {
            s.append(sep);
        }
        s.append(parts[i].as_str());
        assert(dv[i as int] == parts[i as int]@);
        i = i + 1;
    }
    assert(dv.take(parts.len() as int) =~= dv);
    s
}

} // verus!
