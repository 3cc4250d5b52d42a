//! Message authentication codes and their text form.

use base64::Engine;
use hmac::{Hmac, Mac};
use sha2::Sha256;
use vstd::prelude::*;

verus! {

/// The HMAC-SHA256 code of `message` under `key`.
pub uninterp spec fn hmac_sha256(key: Seq<u8>, message: Seq<u8>) -> Seq<u8>;

/// The symbol that the standard base64 alphabet has for `v`, for `0 <= v < 64`.
pub open spec fn base64_symbol(v: int) -> char {
    "ABCDEFGHIJKLMNOPQRSTUVWXYZabcdefghijklmnopqrstuvwxyz0123456789+/"@[v]
}

/// The standard base64 text of `bytes`: four symbols for each three bytes,
/// and `=` to fill the last four where one or two bytes are left.
pub open spec fn base64_standard(bytes: Seq<u8>) -> Seq<char>
    decreases bytes.len(),
{
    if bytes.len() == 0 {
        Seq::empty()
    } else if bytes.len() == 1 {
        let a = bytes[0] as int;
        seq![base64_symbol(a / 4), base64_symbol(a % 4 * 16), '=', '=']
    } else if bytes.len() == 2 {
        let a = bytes[0] as int;
        let b = bytes[1] as int;
        seq![
            base64_symbol(a / 4),
            base64_symbol(a % 4 * 16 + b / 16),
            base64_symbol(b % 16 * 4),
            '=',
        ]
    } else {
        let a = bytes[0] as int;
        let b = bytes[1] as int;
        let c = bytes[2] as int;
        seq![
            base64_symbol(a / 4),
            base64_symbol(a % 4 * 16 + b / 16),
            base64_symbol(b % 16 * 4 + c / 64),
            base64_symbol(c % 64),
        ] + base64_standard(bytes.skip(3))
    }
}

/// The base64 text of `bytes` has four characters for each three bytes, a
/// last one or two counting for three.
pub proof fn lemma_base64_len(bytes: Seq<u8>)
    ensures
        base64_standard(bytes).len() == (bytes.len() + 2) / 3 * 4,
    decreases bytes.len(),
{
    if bytes.len() >= 3 {
        lemma_base64_len(bytes.skip(3));
    }
}

/// The alphabet has a symbol of its own for each of the 64 values, and
/// none of them is the filling `=`.
pub proof fn lemma_base64_symbols(i: int, j: int)
    requires
        0 <= i < 64,
        0 <= j < 64,
    ensures
        base64_symbol(i) != '=',
        base64_symbol(i) == base64_symbol(j) ==> i == j,
{
    reveal_strlit("ABCDEFGHIJKLMNOPQRSTUVWXYZabcdefghijklmnopqrstuvwxyz0123456789+/");
}

proof fn lemma_base64_head(bytes: Seq<u8>)
    requires
        bytes.len() > 0,
    ensures
        ({
            let text = base64_standard(bytes);
            let a = bytes[0] as int;
            let b = if bytes.len() >= 2 { bytes[1] as int } else { 0 };
            let c = if bytes.len() >= 3 { bytes[2] as int } else { 0 };
            &&& text.len() >= 4
            &&& text[0] == base64_symbol(a / 4)
            &&& text[1] == base64_symbol(a % 4 * 16 + b / 16)
            &&& text[2] == if bytes.len() >= 2 { base64_symbol(b % 16 * 4 + c / 64) } else { '=' }
            &&& text[3] == if bytes.len() >= 3 { base64_symbol(c % 64) } else { '=' }
            &&& bytes.len() >= 3 ==> text.skip(4) == base64_standard(bytes.skip(3))
        }),
{
    if bytes.len() >= 3 {
        assert(base64_standard(bytes).skip(4) =~= base64_standard(bytes.skip(3)));
    }
}

/// The base64 text ends in one filling `=` where the bytes are two more
/// than a multiple of three, and in two where they are one more.
pub proof fn lemma_base64_filling(bytes: Seq<u8>)
    ensures
        ({
            let text = base64_standard(bytes);
            let n = text.len() as int;
            &&& bytes.len() % 3 == 1 ==> n >= 4 && text[n - 1] == '=' && text[n - 2] == '='
            &&& bytes.len() % 3 == 2 ==> n >= 4 && text[n - 1] == '=' && text[n - 2] != '='
        }),
    decreases bytes.len(),
{
    if bytes.len() > 0 {
        lemma_base64_head(bytes);
        lemma_base64_len(bytes);
        if bytes.len() >= 3 {
            let rest = bytes.skip(3);
            lemma_base64_filling(rest);
            lemma_base64_len(rest);
            let text = base64_standard(bytes);
            let tail = base64_standard(rest);
            let n = text.len() as int;
            assert(tail == text.skip(4));
            if rest.len() % 3 != 0 {
                assert(text[n - 1] == tail[n - 5]);
                assert(text[n - 2] == tail[n - 6]);
            }
        } else if bytes.len() == 2 {
            let b = bytes[1] as int;
            lemma_base64_symbols(b % 16 * 4, 0);
        }
    }
}

/// Different bytes have different base64 texts.
pub proof fn lemma_base64_injective(first: Seq<u8>, second: Seq<u8>)
    requires
        base64_standard(first) == base64_standard(second),
    ensures
        first == second,
    decreases first.len(),
{
    lemma_base64_len(first);
    lemma_base64_len(second);
    if first.len() == 0 || second.len() == 0 {
        assert(first =~= second);
    } else {
        lemma_base64_head(first);
        lemma_base64_head(second);
        let a1 = first[0] as int;
        let b1 = if first.len() >= 2 { first[1] as int } else { 0 };
        let c1 = if first.len() >= 3 { first[2] as int } else { 0 };
        let a2 = second[0] as int;
        let b2 = if second.len() >= 2 { second[1] as int } else { 0 };
        let c2 = if second.len() >= 3 { second[2] as int } else { 0 };
        lemma_base64_symbols(a1 / 4, a2 / 4);
        lemma_base64_symbols(a1 % 4 * 16 + b1 / 16, a2 % 4 * 16 + b2 / 16);
        lemma_base64_symbols(b1 % 16 * 4 + c1 / 64, b2 % 16 * 4 + c2 / 64);
        lemma_base64_symbols(b2 % 16 * 4 + c2 / 64, b1 % 16 * 4 + c1 / 64);
        lemma_base64_symbols(c1 % 64, c2 % 64);
        lemma_base64_symbols(c2 % 64, c1 % 64);
        let x = base64_standard(first);
        let y = base64_standard(second);
        assert(x[0] == y[0] && x[1] == y[1] && x[2] == y[2] && x[3] == y[3]);
        assert((first.len() >= 2) == (second.len() >= 2));
        assert((first.len() >= 3) == (second.len() >= 3));
        assert(a1 == a2 && b1 == b2 && c1 == c2);
        if first.len() >= 3 {
            lemma_base64_injective(first.skip(3), second.skip(3));
            assert(first =~= second) by {
                assert forall|i: int| 0 <= i < first.len() implies first[i] == second[i] by {
                    if i >= 3 {
                        assert(first[i] == first.skip(3)[i - 3]);
                        assert(second[i] == second.skip(3)[i - 3]);
                    }
                }
                assert(first.len() == first.skip(3).len() + 3);
                assert(second.len() == second.skip(3).len() + 3);
            }
        } else {
            assert(first =~= second);
        }
    }
}

/// Computes the code with `hmac::Hmac<sha2::Sha256>`: `new_from_slice` on the
/// key, `update` with the message, `finalize` and `into_bytes`. The contract
/// claims that the 32 bytes that come back are the HMAC-SHA256 code, and that
/// the call succeeds on every key: the key set-up of `Hmac` pads or hashes a
/// key of any length and returns `Ok` on every path. The error, were there
/// one, comes back as its text.
#[verifier::external_body]
pub(crate) fn hmac_sha256_code(key: &[u8], message: &[u8]) -> (code: Result<Vec<u8>, String>)
    ensures
        code is Ok,
        code->Ok_0@ == hmac_sha256(key@, message@),
        code->Ok_0@.len() == 32,
{
    let mut mac = Hmac::<Sha256>::new_from_slice(key).map_err(|e| e.to_string())?;
    mac.update(message);
    Ok(mac.finalize().into_bytes().to_vec())
}

/// Encodes with `base64::engine::general_purpose::STANDARD` (`Engine::encode`):
/// the alphabet of RFC 4648 with padding. The contract claims that the text
/// is the one that `base64_standard` describes. `encode` panics where the
/// length of the text does not fit `usize`, so such input is left out.
#[verifier::external_body]
pub(crate) fn base64_encode(bytes: &[u8]) -> (text: String)
    requires
        (bytes@.len() + 2) / 3 * 4 <= usize::MAX,
    ensures
        text@ == base64_standard(bytes@),
{
    base64::engine::general_purpose::STANDARD.encode(bytes)
}

} // verus!
