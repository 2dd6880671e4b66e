use vstd::prelude::*;

verus! {

/// The value of one ASCII hexadecimal digit, or `None` when the byte is not
/// such a digit. Both upper and lower case digits are accepted.
pub open spec fn hex_digit_value(b: u8) -> Option<u8> {
    if 48 <= b <= 57 {  // '0' ..= '9'
        Some((b - 48) as u8)
    } else if 97 <= b <= 102 {  // 'a' ..= 'f'
        Some((b - 97 + 10) as u8)
    } else if 65 <= b <= 70 {  // 'A' ..= 'F'
        Some((b - 65 + 10) as u8)
    } else {
        None
    }
}

/// True when every byte of `s` is an ASCII hexadecimal digit.
pub open spec fn all_hex_digits(s: Seq<u8>) -> bool {
    forall|i: int| 0 <= i < s.len() ==> hex_digit_value(#[trigger] s[i]) is Some
}

/// The bytes that a well-formed hexadecimal string stands for: each pair of
/// digits yields one byte, high digit first.
pub open spec fn hex_bytes(s: Seq<u8>) -> Seq<u8> {
    Seq::new(
        s.len() / 2,
        |i: int| (hex_digit_value(s[2 * i]).unwrap() * 16 + hex_digit_value(
            s[2 * i + 1],
        ).unwrap()) as u8,
    )
}

/// What decoding a hexadecimal transport string yields: the byte string it
/// stands for, or nothing when the length is odd or a byte is not a digit.
pub open spec fn hex_decode_spec(s: Seq<u8>) -> Option<Seq<u8>> {
    if s.len() % 2 == 0 && all_hex_digits(s) {
        Some(hex_bytes(s))
    } else {
        None
    }
}

/// The value of one hexadecimal digit byte, or `None` for any other byte.
fn hex_digit(b: u8) -> (r: Option<u8>)
    ensures
        r == hex_digit_value(b),
{
    if 48 <= b && b <= 57 {
        Some(b - 48)
    } else if 97 <= b && b <= 102 {
        Some(b - 97 + 10)
    } else if 65 <= b && b <= 70 {
        Some(b - 65 + 10)
    } else {
        None
    }
}

/// Decodes a hexadecimal string into the bytes it stands for. Returns `None`
/// exactly when the input has odd length or holds a non-digit byte.
pub fn hex_decode(s: &[u8]) -> (r: Option<Vec<u8>>)
    ensures
        match r {
            Some(v) => hex_decode_spec(s@) == Some(v@),
            None => hex_decode_spec(s@) is None,
        },
{
    if s.len() % 2 != 0 {
        return None;
    }
    let mut out: Vec<u8> = Vec::new();
    let mut i: usize = 0;
    while i < s.len()
        invariant
            i <= s@.len(),
            i % 2 == 0,
            s@.len() % 2 == 0,
            out@.len() == i / 2,
            forall|j: int| 0 <= j < i ==> hex_digit_value(#[trigger] s@[j]) is Some,
            forall|j: int|
                0 <= j < i / 2 ==> out@[j] == (hex_digit_value(s@[2 * j]).unwrap() * 16
                    + hex_digit_value(s@[2 * j + 1]).unwrap()) as u8,
        decreases s@.len() - i,
    {
        let hi = match hex_digit(s[i]) {
            Some(v) => v,
            None => {
                return None;
            },
        };
        let lo = match hex_digit(s[i + 1]) {
            Some(v) => v,
            None => {
                return None;
            },
        };
        out.push(hi * 16 + lo);
        i = i + 2;
    }
    assert(out@ =~= hex_bytes(s@));
    Some(out)
}

} // verus!
