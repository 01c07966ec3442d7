//! Bytecode as plain bytes: hex decoding of artifact bytecode strings and
//! byte-for-byte comparison.
//!
//! Compiler artifacts carry bytecode as a hexadecimal string with an optional
//! `0x` prefix; on-chain creation code is compared against the decoded bytes.

use vstd::prelude::*;
use vstd::string::StringSliceAdditionalSpecFns;

verus! {

/// `b` is the ASCII code of a hexadecimal digit.
pub open spec fn is_hex_digit(b: u8) -> bool {
    (48 <= b && b <= 57) || (97 <= b && b <= 102) || (65 <= b && b <= 70)
}

/// Numeric value of the hexadecimal digit with ASCII code `b`.
pub open spec fn hex_digit_value(b: u8) -> int
    recommends
        is_hex_digit(b),
{
    if 48 <= b && b <= 57 {
        b - 48
    } else if 97 <= b && b <= 102 {
        b - 87
    } else {
        b - 55
    }
}

/// `s` with a leading `0x` (or `0X`) removed, if it has one.
pub open spec fn strip_hex_prefix(s: Seq<u8>) -> Seq<u8> {
    if s.len() >= 2 && s[0] == 48 && (s[1] == 120 || s[1] == 88) {
        s.skip(2)
    } else {
        s
    }
}

/// Every byte of `s` is the ASCII code of a hexadecimal digit.
pub open spec fn all_hex_digits(s: Seq<u8>) -> bool {
    forall|i: int| 0 <= i < s.len() ==> is_hex_digit(#[trigger] s[i])
}

/// The bytes denoted by an even-length sequence of hexadecimal digits,
/// two digits per byte, high nibble first.
pub open spec fn hex_pairs(s: Seq<u8>) -> Seq<u8>
    recommends
        s.len() % 2 == 0,
        all_hex_digits(s),
{
    Seq::new((s.len() / 2) as nat, |i: int| (hex_digit_value(s[2 * i]) * 16 + hex_digit_value(s[2 * i + 1])) as u8)
}

/// The bytes denoted by the hexadecimal text `s` (an optional `0x` prefix,
/// then an even number of hexadecimal digits), or `None` if `s` is not
/// well-formed hexadecimal.
pub open spec fn hex_decode(s: Seq<u8>) -> Option<Seq<u8>> {
    let t = strip_hex_prefix(s);
    if t.len() % 2 == 0 && all_hex_digits(t) {
        Some(hex_pairs(t))
    } else {
        None
    }
}

/// The bytes denoted by the hexadecimal text written as the characters `s`,
/// or `None` if that text is not well-formed hexadecimal.
pub open spec fn hex_decode_chars(s: Seq<char>) -> Option<Seq<u8>> {
    hex_decode(vstd::utf8::encode_utf8(s))
}

/// Numeric value of one hexadecimal digit, or `None` if `b` is not one.
fn hex_nibble(b: u8) -> (r: Option<u8>)
    ensures
        r is Some <==> is_hex_digit(b),
        r is Some ==> r->0 == hex_digit_value(b),
{
    if 48 <= b && b <= 57 {
        Some(b - 48)
    } else if 97 <= b && b <= 102 {
        Some(b - 87)
    } else if 65 <= b && b <= 70 {
        Some(b - 55)
    } else {
        None
    }
}

/// Decodes the hexadecimal text `s` (UTF-8 bytes of the artifact's bytecode
/// string) into bytes, or returns `None` when `s` is not well-formed.
pub fn decode_hex_str(s: &str) -> (r: Option<Vec<u8>>)
    ensures
        r is Some <==> hex_decode(s.spec_bytes()) is Some,
        r is Some ==> r->0@ == hex_decode(s.spec_bytes())->0,
{
    let b = s.as_bytes();
    let ghost whole: Seq<u8> = b@;
    let n = b.len();
    let start: usize = if n >= 2 && b[0] == 48 && (b[1] == 120 || b[1] == 88) {
        2
    } else {
        0
    };
    let ghost t = strip_hex_prefix(whole);
    proof {
        assert(t =~= whole.skip(start as int));
    }
    if (n - start) % 2 != 0 {
        return None;
    }
    let mut out: Vec<u8> = Vec::new();
    let mut i: usize = start;
    while i < n
        invariant
            start <= i <= n,
            n == whole.len(),
            b@ == whole,
            whole == s.spec_bytes(),
            t == whole.skip(start as int),
            t == strip_hex_prefix(whole),
            (n - start) % 2 == 0,
            (i - start) % 2 == 0,
            (n - i) % 2 == 0,
            forall|j: int| start <= j < i ==> is_hex_digit(#[trigger] whole[j]),
            out@.len() == (i - start) / 2,
            forall|k: int| 0 <= k < out@.len()
                ==> #[trigger] out@[k] == (hex_digit_value(whole[start + 2 * k]) * 16
                    + hex_digit_value(whole[start + 2 * k + 1])) as u8,
        decreases n - i,
    {
        let hi = hex_nibble(b[i]);
        let lo = hex_nibble(b[i + 1]);
        match (hi, lo) {
            (Some(h), Some(l)) => {
                out.push(h * 16 + l);
            },
            _ => {
                proof {
                    assert(n - i >= 2);
                    let bad = if !is_hex_digit(whole[i as int]) { i as int } else { i + 1 };
                    assert(whole.skip(start as int).len() == n - start);
                    assert(0 <= bad - start < t.len());
                    assert(whole.skip(start as int)[bad - start] == whole[bad]);
                    assert(t[bad - start] == whole[bad]);
                    assert(!is_hex_digit(t[bad - start]));
                    assert(!all_hex_digits(t));
                    assert(hex_decode(whole) is None);
                }
                return None;
            },
        }
        i = i + 2;
    }
    proof {
        assert(whole.skip(start as int).len() == n - start);
        assert(t.len() % 2 == 0);
        assert forall|j: int| 0 <= j < t.len() implies is_hex_digit(#[trigger] t[j]) by {
            assert(whole.skip(start as int)[j] == whole[start + j]);
            assert(t[j] == whole[start + j]);
        }
        assert(hex_decode(whole) is Some);
        let d = hex_pairs(t);
        assert forall|k: int| 0 <= k < d.len() implies out@[k] == d[k] by {
            assert(whole.skip(start as int)[2 * k] == whole[start + 2 * k]);
            assert(whole.skip(start as int)[2 * k + 1] == whole[start + 2 * k + 1]);
            assert(t[2 * k] == whole[start + 2 * k]);
            assert(t[2 * k + 1] == whole[start + 2 * k + 1]);
        }
        assert(out@ =~= d);
    }
    Some(out)
}

/// Byte-for-byte equality of two byte vectors.
pub fn bytes_eq(a: &Vec<u8>, b: &Vec<u8>) -> (r: bool)
    ensures
        r == (a@ == b@),
{
    if a.len() != b.len() {
        return false;
    }
    let n = a.len();
    let mut i: usize = 0;
    while i < n
        invariant
            0 <= i <= n,
            n == a@.len(),
            n == b@.len(),
            forall|j: int| 0 <= j < i ==> a@[j] == b@[j],
        decreases n - i,
    {
        if a[i] != b[i] {
            return false;
        }
        i = i + 1;
    }
    proof {
        assert(a@ =~= b@);
    }
    true
}

} // verus!
