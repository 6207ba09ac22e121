//! Decimal numerals and the UTF-8 conversions the library needs.
use vstd::prelude::*;
use vstd::utf8::{
    decode_utf8, encode_utf8, encode_utf8_decode_utf8, encode_utf8_valid_utf8, is_ascii_chars,
    is_ascii_chars_encode_utf8, valid_utf8,
};

verus! {

/// The ASCII digits of `n` in base ten, most significant first.
pub open spec fn decimal_bytes(n: nat) -> Seq<u8>
    decreases n,
{
    if n < 10 {
        seq![(n + 48) as u8]
    } else {
        decimal_bytes(n / 10).push((n % 10 + 48) as u8)
    }
}

/// The base-ten numeral of `n`.
pub open spec fn decimal(n: nat) -> Seq<char> {
    decimal_bytes(n).map_values(|b: u8| b as char)
}

/// The numeral of a signed integer: a minus sign before a negative one.
pub open spec fn signed_decimal(n: int) -> Seq<char> {
    if n < 0 {
        seq!['-'] + decimal((-n) as nat)
    } else {
        decimal(n as nat)
    }
}

pub proof fn lemma_decimal_bytes_digits(n: nat)
    ensures
        decimal_bytes(n).len() >= 1,
        n < 10 <==> decimal_bytes(n).len() == 1,
        forall|i: int| 0 <= i < decimal_bytes(n).len() ==> 48 <= #[trigger] decimal_bytes(n)[i] <= 57,
    decreases n,
{
    if n >= 10 {
        lemma_decimal_bytes_digits(n / 10);
    }
}

/// A numeral is ASCII, and its UTF-8 encoding is its digit bytes.
pub proof fn lemma_decimal_utf8(n: nat)
    ensures
        is_ascii_chars(decimal(n)),
        encode_utf8(decimal(n)) == decimal_bytes(n),
        valid_utf8(decimal_bytes(n)),
        decode_utf8(decimal_bytes(n)) == decimal(n),
{
    lemma_decimal_bytes_digits(n);
    let c = decimal(n);
    assert(is_ascii_chars(c));
    is_ascii_chars_encode_utf8(c);
    assert(c.map_values(|ch: char| ch as u8) =~= decimal_bytes(n));
    encode_utf8_valid_utf8(c);
    encode_utf8_decode_utf8(c);
}

/// Different numbers have different numerals.
pub proof fn lemma_decimal_injective(a: nat, b: nat)
    requires
        decimal(a) == decimal(b),
    ensures
        a == b,
    decreases a,
{
    lemma_decimal_utf8(a);
    lemma_decimal_utf8(b);
    lemma_decimal_bytes_injective(a, b);
}

proof fn lemma_decimal_bytes_injective(a: nat, b: nat)
    requires
        decimal_bytes(a) == decimal_bytes(b),
    ensures
        a == b,
    decreases a,
{
    lemma_decimal_bytes_digits(a);
    lemma_decimal_bytes_digits(b);
    if a >= 10 && b >= 10 {
        let x = decimal_bytes(a);
        assert(decimal_bytes(a / 10) =~= x.drop_last());
        assert(decimal_bytes(b / 10) =~= x.drop_last());
        lemma_decimal_bytes_injective(a / 10, b / 10);
        assert(x.last() == decimal_bytes(b).last());
        assert(x.last() == ((a % 10 + 48) as u8));
        assert(decimal_bytes(b).last() == ((b % 10 + 48) as u8));
        assert(a / 10 == b / 10);
        assert(a % 10 == b % 10);
        assert(a == 10 * (a / 10) + a % 10);
        assert(b == 10 * (b / 10) + b % 10);
        assert(a == b);
    } else if a < 10 && b < 10 {
        assert(decimal_bytes(a) == seq![(a + 48) as u8]);
        assert(decimal_bytes(b) == seq![(b + 48) as u8]);
        assert(decimal_bytes(a)[0] == decimal_bytes(b)[0]);
        assert(decimal_bytes(a)[0] == (a + 48) as u8);
        assert(decimal_bytes(b)[0] == (b + 48) as u8);
        assert(((a + 48) as u8) as int == a + 48);
        assert(((b + 48) as u8) as int == b + 48);
        assert((a + 48) == (b + 48));
    } else {
        assert(decimal_bytes(a).len() != decimal_bytes(b).len());
    }
}

/// Relies on `String::from_utf8`: it accepts exactly the valid UTF-8
/// sequences, and the string then holds the characters they encode.
#[verifier::external_body]
pub(crate) fn utf8_string(b: Vec<u8>) -> (r: Option<String>)
    ensures
        r is Some <==> valid_utf8(b@),
        r matches Some(s) ==> s@ == decode_utf8(b@),
{
    String::from_utf8(b).ok()
}

fn push_decimal(out: &mut Vec<u8>, n: u64)
    ensures
        final(out)@ == old(out)@ + decimal_bytes(n as nat),
    decreases n,
{
    if n >= 10 {
        push_decimal(out, n / 10);
    }
    out.push((n % 10) as u8 + 48);
    assert(final(out)@ =~= old(out)@ + decimal_bytes(n as nat));
}

/// The base-ten numeral of `n`.
pub fn decimal_string(n: u64) -> (r: String)
    ensures
        r@ == decimal(n as nat),
{
    let mut bytes: Vec<u8> = Vec::new();
    push_decimal(&mut bytes, n);
    assert(bytes@ =~= decimal_bytes(n as nat));
    proof {
        lemma_decimal_utf8(n as nat);
    }
    match utf8_string(bytes) {
        Some(s) => s,
        None => String::new(),
    }
}

/// Appends bytes to a buffer.
pub(crate) fn append(out: &mut Vec<u8>, b: &[u8])
    ensures
        final(out)@ == old(out)@ + b@,
{
    let mut i: usize = 0;
    while i < b.len()
        invariant
            i <= b@.len(),
            out@ == old(out)@ + b@.take(i as int),
        decreases b@.len() - i,
    {
        out.push(b[i]);
        assert(b@.take(i + 1) =~= b@.take(i as int).push(b@[i as int]));
        i = i + 1;
    }
    assert(b@.take(i as int) =~= b@);
}

/// The characters of a string, in order.
pub(crate) fn chars_of(s: &str) -> (r: Vec<char>)
    ensures
        r@ == s@,
{
    broadcast use vstd::string::axiom_spec_iter;

    let mut out: Vec<char> = Vec::new();
    for c in it: s.chars()
        invariant
            it.seq() == s@,
            out@ == s@.take(it.index() as int),
    {
        out.push(c);
        assert(s@.take(it.index() + 1) =~= s@.take(it.index() as int).push(c));
    }
    assert(s@.take(s@.len() as int) =~= s@);
    out
}

/// Relies on `String`'s `FromIterator<char>`: the string of these characters.
#[verifier::external_body]
pub(crate) fn string_of(c: &Vec<char>) -> (r: String)
    ensures
        r@ == c@,
{
    c.iter().collect()
}

} // verus!
