use vstd::prelude::*;
use vstd::string::StringSliceAdditionalSpecFns;
use crate::canonical::append_bytes;

verus! {

/// The lower-case hexadecimal digit byte for a value below 16.
pub open spec fn hex_lower_digit(n: u8) -> u8
    recommends
        n < 16,
{
    if n < 10 {
        (48 + n) as u8  // '0' ..= '9'
    } else {
        (87 + n) as u8  // 'a' ..= 'f'
    }
}

/// How one byte of a string value appears inside a JSON string literal:
/// quote and backslash get a backslash escape, control bytes get a
/// `\u00XX` escape, every other byte stands as itself.
pub open spec fn escape_byte(b: u8) -> Seq<u8> {
    if b == 34 {  // '"'
        seq![92u8, 34u8]
    } else if b == 92 {  // '\'
        seq![92u8, 92u8]
    } else if b < 32 {
        seq![92u8, 117u8, 48u8, 48u8, hex_lower_digit(b / 16), hex_lower_digit(b % 16)]
    } else {
        seq![b]
    }
}

/// The JSON escaping of a whole byte string.
pub open spec fn json_escape(s: Seq<u8>) -> Seq<u8>
    decreases s.len(),
{
    if s.len() == 0 {
        Seq::empty()
    } else {
        json_escape(s.drop_last()) + escape_byte(s.last())
    }
}

/// A byte string as a JSON string literal: quoted and escaped.
pub open spec fn json_string(s: Seq<u8>) -> Seq<u8> {
    seq![34u8] + json_escape(s) + seq![34u8]
}

/// The decimal digits of a byte value, without leading zeros.
pub open spec fn u8_decimal(n: u8) -> Seq<u8> {
    if n < 10 {
        seq![(48 + n) as u8]
    } else if n < 100 {
        seq![(48 + n / 10) as u8, (48 + n % 10) as u8]
    } else {
        seq![(48 + n / 100) as u8, (48 + (n / 10) % 10) as u8, (48 + n % 10) as u8]
    }
}

/// The JSON form of a boolean.
pub open spec fn bool_json(b: bool) -> Seq<u8> {
    if b {
        ("true").spec_bytes()
    } else {
        ("false").spec_bytes()
    }
}

/// The lower-case hexadecimal digit byte for a value below 16.
fn hex_lower(n: u8) -> (r: u8)
    requires
        n < 16,
    ensures
        r == hex_lower_digit(n),
{
    if n < 10 {
        48 + n
    } else {
        87 + n
    }
}

/// Appends the bytes of a string literal to `out`.
pub fn append_str(out: &mut Vec<u8>, s: &str)
    ensures
        final(out)@ == old(out)@ + s.spec_bytes(),
{
    append_bytes(out, s.as_bytes());
}

/// The bytes of a string slice, as a fresh vector.
pub fn str_to_bytes(s: &str) -> (r: Vec<u8>)
    ensures
        r@ == s.spec_bytes(),
{
    let mut out: Vec<u8> = Vec::new();
    append_bytes(&mut out, s.as_bytes());
    out
}

/// Appends the JSON escaping of `s` to `out`.
pub fn append_escaped(out: &mut Vec<u8>, s: &[u8])
    ensures
        final(out)@ == old(out)@ + json_escape(s@),
{
    let mut i: usize = 0;
    while i < s.len()
        invariant
            i <= s@.len(),
            out@ == old(out)@ + json_escape(s@.subrange(0, i as int)),
        decreases s@.len() - i,
    {
        let b = s[i];
        proof {
            let pre = s@.subrange(0, i + 1);
            assert(pre.drop_last() =~= s@.subrange(0, i as int));
            assert(pre.last() == s@[i as int]);
        }
        if b == 34 {
            out.push(92);
            out.push(34);
        } else if b == 92 {
            out.push(92);
            out.push(92);
        } else if b < 32 {
            out.push(92);
            out.push(117);
            out.push(48);
            out.push(48);
            out.push(hex_lower(b / 16));
            out.push(hex_lower(b % 16));
        } else {
            out.push(b);
        }
        assert(out@ =~= old(out)@ + json_escape(s@.subrange(0, i + 1)));
        i = i + 1;
    }
    assert(s@.subrange(0, s@.len() as int) =~= s@);
}

/// Appends `s` as a quoted, escaped JSON string literal to `out`.
pub fn append_json_string(out: &mut Vec<u8>, s: &[u8])
    ensures
        final(out)@ == old(out)@ + json_string(s@),
{
    out.push(34);
    append_escaped(out, s);
    out.push(34);
    assert(out@ =~= old(out)@ + json_string(s@));
}

/// Appends the decimal digits of `n` to `out`.
pub fn append_u8_decimal(out: &mut Vec<u8>, n: u8)
    ensures
        final(out)@ == old(out)@ + u8_decimal(n),
{
    if n < 10 {
        out.push(48 + n);
    } else if n < 100 {
        out.push(48 + n / 10);
        out.push(48 + n % 10);
    } else {
        out.push(48 + n / 100);
        out.push(48 + (n / 10) % 10);
        out.push(48 + n % 10);
    }
    assert(out@ =~= old(out)@ + u8_decimal(n));
}

/// Appends `true` or `false` to `out`.
pub fn append_bool(out: &mut Vec<u8>, b: bool)
    ensures
        final(out)@ == old(out)@ + bool_json(b),
{
    if b {
        append_str(out, "true");
    } else {
        append_str(out, "false");
    }
}

} // verus!
