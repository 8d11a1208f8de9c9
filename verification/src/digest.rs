//! Byte encodings and digests that name cached files and build data URLs.

use base64::engine::general_purpose::STANDARD;
use base64::Engine;
use sha2::Digest;
use sha2::Sha256;
use vstd::prelude::*;

verus! {

/// What SHA-256 gives for `data` (`sha2::Sha256::digest`).
pub uninterp spec fn sha256(data: Seq<u8>) -> Seq<u8>;

/// The char of the standard base64 alphabet for a six-bit value `n`:
/// `A`-`Z`, `a`-`z`, `0`-`9`, `+` and `/`.
pub open spec fn base64_char(n: int) -> char {
    if n < 26 {
        (65 + n) as char
    } else if n < 52 {
        (71 + n) as char
    } else if n < 62 {
        (n - 4) as char
    } else if n == 62 {
        '+'
    } else {
        '/'
    }
}

/// Standard, padded base64 of `data` (RFC 4648, section 4): each group of
/// three bytes becomes four chars of six bits each, high bits first; a last
/// group of one or two bytes is filled with zero bits and padded with `=`.
pub open spec fn base64_standard(data: Seq<u8>) -> Seq<char>
    decreases data.len(),
{
    if data.len() == 0 {
        Seq::empty()
    } else if data.len() == 1 {
        seq![base64_char((data[0] / 4) as int), base64_char((data[0] % 4) * 16), '=', '=']
    } else if data.len() == 2 {
        seq![
            base64_char((data[0] / 4) as int),
            base64_char((data[0] % 4) * 16 + data[1] / 16),
            base64_char((data[1] % 16) * 4),
            '=',
        ]
    } else {
        seq![
            base64_char((data[0] / 4) as int),
            base64_char((data[0] % 4) * 16 + data[1] / 16),
            base64_char((data[1] % 16) * 4 + data[2] / 64),
            base64_char((data[2] % 64) as int),
        ] + base64_standard(data.skip(3))
    }
}

/// The lower-case hexadecimal digit for `n < 16`.
pub open spec fn hex_digit(n: u8) -> char {
    if n < 10 {
        (48 + n) as char
    } else {
        (87 + n) as char
    }
}

/// Each byte of `b` as two lower-case hexadecimal digits, high nibble first.
pub open spec fn hex_lower(b: Seq<u8>) -> Seq<char>
    decreases b.len(),
{
    if b.len() == 0 {
        Seq::empty()
    } else {
        seq![hex_digit(b[0] / 16), hex_digit(b[0] % 16)] + hex_lower(b.drop_first())
    }
}

/// A char that can stand in a file name on any platform: a digit, a
/// lower-case ASCII letter, `.` or `-`.
pub open spec fn plain_name_char(c: char) -> bool {
    let u = c as u32;
    (48 <= u <= 57) || (97 <= u <= 122) || u == 46 || u == 45
}

/// Every char of `s` can stand in a file name on any platform.
pub open spec fn plain_name(s: Seq<char>) -> bool {
    forall|i: int| 0 <= i < s.len() ==> plain_name_char(#[trigger] s[i])
}

/// Hexadecimal text is made of digits and lower-case letters.
pub proof fn lemma_hex_lower_plain(b: Seq<u8>)
    ensures
        plain_name(hex_lower(b)),
        hex_lower(b).len() == 2 * b.len(),
    decreases b.len(),
{
    if b.len() > 0 {
        lemma_hex_lower_plain(b.drop_first());
        let hi = b[0] / 16;
        let lo = b[0] % 16;
        assert(plain_name_char(hex_digit(hi)));
        assert(plain_name_char(hex_digit(lo)));
        let h = hex_lower(b);
        let rest = hex_lower(b.drop_first());
        assert(h == seq![hex_digit(hi), hex_digit(lo)] + rest);
        assert forall|i: int| 0 <= i < h.len() implies plain_name_char(#[trigger] h[i]) by {
            if i >= 2 {
                assert(h[i] == rest[i - 2]);
            }
        }
    }
}

/// Joining texts that can stand in file names gives such a text.
pub proof fn lemma_plain_name_concat(a: Seq<char>, b: Seq<char>)
    requires
        plain_name(a),
        plain_name(b),
    ensures
        plain_name(a + b),
{
    assert forall|i: int| 0 <= i < (a + b).len() implies plain_name_char(#[trigger] (a + b)[i]) by {
        if i < a.len() {
            assert((a + b)[i] == a[i]);
        } else {
            assert((a + b)[i] == b[i - a.len()]);
        }
    }
}

/// The `n` little-endian bytes of `x` (`u64::to_le_bytes` for `n == 8`).
pub open spec fn le_bytes(x: nat, n: nat) -> Seq<u8>
    decreases n,
{
    if n == 0 {
        Seq::empty()
    } else {
        seq![(x % 256) as u8] + le_bytes(x / 256, (n - 1) as nat)
    }
}

/// `sha2::Sha256::digest`: the contract names the digest of `data` and says,
/// as the crate's output size does, that it has 32 bytes.
#[verifier::external_body]
pub(crate) fn sha256_digest(data: &[u8]) -> (d: Vec<u8>)
    ensures
        d@ == sha256(data@),
        d@.len() == 32,
{
    Sha256::digest(data).to_vec()
}

/// `hex::encode`, which its documentation describes as encoding each byte as
/// two lower-case hexadecimal digits; the contract states exactly that.
#[verifier::external_body]
pub(crate) fn hex_encode(data: &[u8]) -> (s: String)
    ensures
        s@ == hex_lower(data@),
{
    hex::encode(data)
}

/// `STANDARD.encode` of the `base64` crate. Its documentation describes the
/// engine as the standard alphabet of RFC 4648 with padding; the contract
/// states that encoding.
#[verifier::external_body]
pub(crate) fn base64_encode(data: &[u8]) -> (s: String)
    ensures
        s@ == base64_standard(data@),
{
    STANDARD.encode(data)
}

/// The lower-case hexadecimal SHA-256 digest of `data`.
pub fn sha256_hex(data: &[u8]) -> (s: String)
    ensures
        s@ == hex_lower(sha256(data@)),
{
    let d = sha256_digest(data);
    hex_encode(d.as_slice())
}

/// The eight little-endian bytes of `x`, appended to `out`.
pub fn push_le_bytes(out: &mut Vec<u8>, x: u64)
    ensures
        final(out)@ == old(out)@ + le_bytes(x as nat, 8),
{
    let mut v: u64 = x;
    let mut i: usize = 0;
    while i < 8
        invariant
            i <= 8,
            out@ + le_bytes(v as nat, (8 - i) as nat) == old(out)@ + le_bytes(x as nat, 8),
        decreases 8 - i,
    {
        let ghost before = out@;
        let ghost rest = le_bytes((v / 256) as nat, (8 - i - 1) as nat);
        assert(le_bytes(v as nat, (8 - i) as nat) == seq![(v % 256) as u8] + rest);
        out.push((v % 256) as u8);
        assert(out@ + rest =~= before + (seq![(v % 256) as u8] + rest));
        v = v / 256;
        i = i + 1;
    }
    assert(le_bytes(v as nat, 0) =~= Seq::<u8>::empty());
    assert(out@ =~= out@ + le_bytes(v as nat, 0));
}

} // verus!
