//! Text encodings and hashes that push messages use.
use base64::engine::general_purpose::URL_SAFE_NO_PAD;
use base64::Engine;
use sha2::{Digest, Sha256};
use vstd::prelude::*;

use crate::push::store::TokenHash;

verus! {

/// The byte at `i`, or zero behind the end.
pub open spec fn byte_or_zero(bytes: Seq<u8>, i: int) -> int {
    if 0 <= i < bytes.len() {
        bytes[i] as int
    } else {
        0
    }
}

/// The `i`-th group of six bits: every three bytes make four such groups.
pub open spec fn sextet(bytes: Seq<u8>, i: int) -> int {
    let a = byte_or_zero(bytes, 3 * (i / 4));
    let b = byte_or_zero(bytes, 3 * (i / 4) + 1);
    let c = byte_or_zero(bytes, 3 * (i / 4) + 2);
    if i % 4 == 0 {
        a / 4
    } else if i % 4 == 1 {
        (a % 4) * 16 + b / 16
    } else if i % 4 == 2 {
        (b % 16) * 4 + c / 64
    } else {
        c % 64
    }
}

/// The character of the URL-safe base64 alphabet for a group of six bits.
pub open spec fn symbol(v: int) -> char {
    if v < 26 {
        ('A' as u32 + v) as char
    } else if v < 52 {
        ('a' as u32 + (v - 26)) as char
    } else if v < 62 {
        ('0' as u32 + (v - 52)) as char
    } else if v == 62 {
        '-'
    } else {
        '_'
    }
}

/// URL-safe base64 without padding.
pub open spec fn base64url(bytes: Seq<u8>) -> Seq<char> {
    Seq::new((4 * bytes.len() + 2) as nat / 3, |i: int| symbol(sextet(bytes, i)))
}

/// Why a text is not URL-safe base64.
#[derive(Clone, Copy, Debug, PartialEq, Eq, Structural)]
pub enum DecodeError {
    /// A character outside the alphabet, with its offset.
    InvalidByte(usize, u8),
    /// A length that no byte string encodes to.
    InvalidLength(usize),
    /// A last character with bits set that belong to no byte, with its offset.
    InvalidLastSymbol(usize, u8),
    /// Padding, which this encoding has none of.
    InvalidPadding,
}

/// The reason that the `base64` crate gives for refusing `s`.
pub uninterp spec fn base64url_fault(s: Seq<char>) -> DecodeError;

/// Encodes `bytes` in URL-safe base64 without padding.
///
/// Calls `base64::Engine::encode` of `URL_SAFE_NO_PAD`. Taken on trust: the
/// result is the standard encoding, symbol by symbol. The crate panics where
/// the encoded text does not fit into memory.
#[verifier::external_body]
pub fn base64_url_encode(bytes: &[u8]) -> (res: String)
    requires
        (4 * bytes@.len() + 2) / 3 <= isize::MAX,
    ensures
        res@ == base64url(bytes@),
{
    URL_SAFE_NO_PAD.encode(bytes)
}

/// Decodes URL-safe base64 without padding.
///
/// Calls `base64::Engine::decode` of `URL_SAFE_NO_PAD`. Taken on trust: the
/// engine accepts a text if and only if it is the encoding of some bytes,
/// unused bits being zero, and then returns those bytes; the reason for a
/// refusal depends on the text alone.
#[verifier::external_body]
pub fn base64_url_decode(s: &str) -> (res: Result<Vec<u8>, DecodeError>)
    ensures
        match res {
            Ok(bytes) => s@ == base64url(bytes@),
            Err(e) => e == base64url_fault(s@) && forall|b: Seq<u8>| s@ != #[trigger] base64url(b),
        },
{
    URL_SAFE_NO_PAD.decode(s).map_err(|e| match e {
        base64::DecodeError::InvalidByte(at, byte) => DecodeError::InvalidByte(at, byte),
        base64::DecodeError::InvalidLength(n) => DecodeError::InvalidLength(n),
        base64::DecodeError::InvalidLastSymbol(at, byte) => DecodeError::InvalidLastSymbol(at, byte),
        base64::DecodeError::InvalidPadding => DecodeError::InvalidPadding,
    })
}

/// Decoding an encoded text gives the bytes back: `res` is any result that
/// `base64_url_decode` may give for the encoding of `bytes`.
pub proof fn law_decode_undoes_encode(bytes: Seq<u8>, res: Result<Seq<u8>, DecodeError>)
    requires
        match res {
            Ok(decoded) => base64url(bytes) == base64url(decoded),
            Err(_) => forall|b: Seq<u8>| base64url(bytes) != #[trigger] base64url(b),
        },
    ensures
        res == Ok::<Seq<u8>, DecodeError>(bytes),
{
    match res {
        Ok(decoded) => law_base64url_injective(bytes, decoded),
        Err(_) => assert(base64url(bytes).len() >= 0),
    }
}

/// Bytes that encode to the same text are the same.
pub proof fn law_base64url_injective(a: Seq<u8>, b: Seq<u8>)
    requires
        base64url(a) == base64url(b),
    ensures
        a == b,
{
    let ea = base64url(a);
    let eb = base64url(b);
    assert(a.len() == b.len()) by {
        assert(ea.len() == eb.len());
    }
    assert forall|i: int| 0 <= i < ea.len() implies sextet(a, i) == sextet(b, i) by {
        assert(ea[i] == eb[i]);
        lemma_sextet_range(a, i);
        lemma_sextet_range(b, i);
        lemma_symbol_injective(sextet(a, i), sextet(b, i));
    }
    assert forall|j: int| 0 <= j < a.len() implies a[j] == b[j] by {
        lemma_byte_from_sextets(a, j);
        lemma_byte_from_sextets(b, j);
        let g = j / 3;
        assert(4 * g + j % 3 + 1 < ea.len());
        assert(sextet(a, 4 * g + j % 3) == sextet(b, 4 * g + j % 3));
        assert(sextet(a, 4 * g + j % 3 + 1) == sextet(b, 4 * g + j % 3 + 1));
    }
    assert(a =~= b);
}

proof fn lemma_sextet_range(bytes: Seq<u8>, i: int)
    ensures
        0 <= sextet(bytes, i) < 64,
{
}

proof fn lemma_symbol_injective(v: int, w: int)
    requires
        0 <= v < 64,
        0 <= w < 64,
        symbol(v) == symbol(w),
    ensures
        v == w,
{
}

proof fn lemma_byte_from_sextets(bytes: Seq<u8>, j: int)
    requires
        0 <= j < bytes.len(),
    ensures
        ({
            let hi = sextet(bytes, 4 * (j / 3) + j % 3);
            let lo = sextet(bytes, 4 * (j / 3) + j % 3 + 1);
            bytes[j] == if j % 3 == 0 {
                hi * 4 + lo / 16
            } else if j % 3 == 1 {
                (hi % 16) * 16 + lo / 4
            } else {
                (hi % 4) * 64 + lo
            }
        }),
{
    let g = j / 3;
    let r = j % 3;
    assert((4 * g + r) / 4 == g && (4 * g + r) % 4 == r);
    assert((4 * g + r + 1) / 4 == g && (4 * g + r + 1) % 4 == r + 1);
    assert(3 * g + r == j);
}

/// The SHA-256 digest of some bytes.
pub uninterp spec fn sha256_digest(bytes: Seq<u8>) -> Seq<u8>;

/// Hashes `bytes` with SHA-256.
///
/// Calls `sha2::Sha256`, one `update` and `finalize`. Taken on trust: the
/// digest depends on the bytes alone.
#[verifier::external_body]
fn sha256(bytes: &[u8]) -> (res: TokenHash)
    ensures
        res@ == sha256_digest(bytes@),
{
    let mut h = Sha256::new();
    h.update(bytes);
    h.finalize().into()
}

/// The hash under which the owner of a token is known: the SHA-256 digest of
/// its UTF-8 bytes.
pub fn sha256_token(token: &str) -> (res: TokenHash)
    ensures
        res@ == sha256_digest(vstd::utf8::encode_utf8(token@)),
{
    sha256(token.as_bytes())
}

} // verus!
