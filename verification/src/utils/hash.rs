//! MD5 digests in lower-case hex, and standard Base64, as the attendance
//! API's signatures use them.

use base64::Engine;
use vstd::prelude::*;

verus! {

/// The MD5 digest of `data`.
pub uninterp spec fn md5_digest(data: Seq<u8>) -> Seq<u8>;

/// The standard Base64 digit of `n < 64` (RFC 4648, table 1).
pub open spec fn base64_digit(n: int) -> char {
    if n < 26 {
        (65 + n) as char
    } else if n < 52 {
        (97 + n - 26) as char
    } else if n < 62 {
        (48 + n - 52) as char
    } else if n == 62 {
        '+'
    } else {
        '/'
    }
}

/// The standard Base64 encoding (with padding) of `data` (RFC 4648,
/// section 4): each group of three bytes gives four digits of six bits; a
/// last group of one or two bytes is padded with `=`.
pub open spec fn base64_standard(data: Seq<u8>) -> Seq<char>
    decreases data.len(),
{
    if data.len() == 0 {
        Seq::empty()
    } else if data.len() == 1 {
        let a = data[0] as int;
        seq![base64_digit(a / 4), base64_digit((a % 4) * 16), '=', '=']
    } else if data.len() == 2 {
        let a = data[0] as int;
        let b = data[1] as int;
        seq![base64_digit(a / 4), base64_digit((a % 4) * 16 + b / 16), base64_digit((b % 16) * 4), '=']
    } else {
        let a = data[0] as int;
        let b = data[1] as int;
        let c = data[2] as int;
        seq![
            base64_digit(a / 4),
            base64_digit((a % 4) * 16 + b / 16),
            base64_digit((b % 16) * 4 + c / 64),
            base64_digit(c % 64),
        ] + base64_standard(data.skip(3))
    }
}

proof fn lemma_base64_digit(n: int)
    requires
        0 <= n < 64,
    ensures
        is_base64_char(base64_digit(n)),
{
}

/// A Base64 text uses only the standard alphabet and padding, and is empty
/// only for empty data.
pub proof fn lemma_base64_shape(data: Seq<u8>)
    ensures
        forall|i: int|
            0 <= i < base64_standard(data).len() ==> is_base64_char(#[trigger] base64_standard(data)[i]),
        data.len() > 0 ==> base64_standard(data).len() > 0,
    decreases data.len(),
{
    if data.len() > 0 {
        let a = data[0] as int;
        lemma_base64_digit(a / 4);
        if data.len() == 1 {
            lemma_base64_digit((a % 4) * 16);
        } else {
            let b = data[1] as int;
            lemma_base64_digit((a % 4) * 16 + b / 16);
            if data.len() == 2 {
                lemma_base64_digit((b % 16) * 4);
            } else {
                let c = data[2] as int;
                lemma_base64_digit((b % 16) * 4 + c / 64);
                lemma_base64_digit(c % 64);
                lemma_base64_shape(data.skip(3));
                let head = seq![
                    base64_digit(a / 4),
                    base64_digit((a % 4) * 16 + b / 16),
                    base64_digit((b % 16) * 4 + c / 64),
                    base64_digit(c % 64),
                ];
                let rest = base64_standard(data.skip(3));
                assert forall|i: int| 0 <= i < (head + rest).len() implies is_base64_char(
                    #[trigger] (head + rest)[i],
                ) by {
                    if i >= 4 {
                        assert((head + rest)[i] == rest[i - 4]);
                    }
                }
            }
        }
    }
}

/// `md5::compute(data)`: the 16 digest bytes, named, not stated.
#[verifier::external_body]
fn md5_bytes(data: &[u8]) -> (r: Vec<u8>)
    ensures
        r@ == md5_digest(data@),
        r@.len() == 16,
{
    md5::compute(data).0.to_vec()
}

/// What `STANDARD.decode` gives for a text: the bytes, or `None` when the
/// text is not valid padded standard Base64.
pub uninterp spec fn base64_standard_decode(text: Seq<char>) -> Option<Seq<u8>>;

/// A character of the standard Base64 alphabet or its padding.
pub open spec fn is_base64_char(c: char) -> bool {
    ('A' <= c && c <= 'Z') || ('a' <= c && c <= 'z') || ('0' <= c && c <= '9') || c == '+' || c
        == '/' || c == '='
}

/// `base64::engine::general_purpose::STANDARD.encode(data)`.
///
/// The contract claims what RFC 4648 and the crate's documentation give:
/// the text is the standard padded encoding, and it decodes back to `data`.
#[verifier::external_body]
pub(crate) fn base64_encode(data: &[u8]) -> (r: String)
    ensures
        r@ == base64_standard(data@),
        base64_standard_decode(r@) == Some(data@),
{
    base64::engine::general_purpose::STANDARD.encode(data)
}

/// `STANDARD.decode(text).ok()`; the outcome is named, not stated.
#[verifier::external_body]
pub(crate) fn base64_decode(text: &str) -> (r: Option<Vec<u8>>)
    ensures
        match r {
            Some(v) => base64_standard_decode(text@) == Some(v@),
            None => base64_standard_decode(text@) is None,
        },
{
    match base64::engine::general_purpose::STANDARD.decode(text) {
        Ok(v) => Some(v),
        Err(_) => None,
    }
}

/// The lower-case hex digit of `n < 16`.
pub open spec fn hex_digit(n: int) -> char {
    seq!['0', '1', '2', '3', '4', '5', '6', '7', '8', '9', 'a', 'b', 'c', 'd', 'e', 'f'][n]
}

/// Bytes in lower-case hex, two digits each (what `{:x}` prints for an MD5
/// digest).
pub open spec fn hex_lower(data: Seq<u8>) -> Seq<char>
    decreases data.len(),
{
    if data.len() == 0 {
        Seq::empty()
    } else {
        hex_lower(data.drop_last()) + seq![
            hex_digit(data.last() as int / 16),
            hex_digit(data.last() as int % 16),
        ]
    }
}

/// The lower-case hex MD5 digest of the UTF-8 bytes of `s`.
pub open spec fn md5_hex(s: Seq<char>) -> Seq<char> {
    hex_lower(md5_digest(vstd::utf8::encode_utf8(s)))
}

fn hex_digit_str(n: u8) -> (r: &'static str)
    requires
        n < 16,
    ensures
        r@ == seq![hex_digit(n as int)],
{
    let digits = "0123456789abcdef";
    proof {
        reveal_strlit("0123456789abcdef");
    }
    digits.substring_char(n as usize, n as usize + 1)
}

/// Appends `data` in lower-case hex to `out`.
fn push_hex(out: &mut String, data: &Vec<u8>)
    ensures
        final(out)@ == old(out)@ + hex_lower(data@),
{
    let mut k: usize = 0;
    while k < data.len()
        invariant
            k <= data@.len(),
            out@ == old(out)@ + hex_lower(data@.take(k as int)),
        decreases data@.len() - k,
    {
        let b = data[k];
        out.append(hex_digit_str(b / 16));
        out.append(hex_digit_str(b % 16));
        proof {
            let t = data@.take(k + 1);
            assert(t.drop_last() =~= data@.take(k as int));
            assert(t.last() == b);
            assert(out@ =~= old(out)@ + hex_lower(t));
        }
        k = k + 1;
    }
    proof {
        assert(data@.take(k as int) =~= data@);
    }
}

/// `format!("{:x}", md5::compute(s))`.
pub fn encode_md5(s: &str) -> (r: String)
    ensures
        r@ == md5_hex(s@),
{
    let digest = md5_bytes(s.as_bytes());
    let mut out = String::new();
    push_hex(&mut out, &digest);
    proof {
        assert(out@ =~= md5_hex(s@));
    }
    out
}

/// `STANDARD.encode(s)` of the UTF-8 bytes of `s`.
pub fn encode_base64(s: &str) -> (r: String)
    ensures
        r@ == base64_standard(vstd::utf8::encode_utf8(s@)),
{
    base64_encode(s.as_bytes())
}

} // verus!
