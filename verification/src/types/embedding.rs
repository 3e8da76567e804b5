//! Embedding requests.

use vstd::prelude::*;
use vstd::string::*;
use base64::Engine;
use crate::text::{usize_decimal, decimal_text};

verus! {

/// Encoding of returned embeddings.
#[derive(Debug, Clone, Copy, PartialEq, Eq, Structural)]
pub enum EmbeddingFormat {
    /// Array of floats.
    Float,
    /// Base64-encoded little-endian floats.
    Base64,
}

/// Embedding request.
#[derive(Debug, Clone, Default, PartialEq)]
pub struct EmbeddingRequest {
    /// Model ID.
    pub model: String,
    /// Text(s) to embed.
    pub input: EmbeddingInput,
    /// Encoding of returned embeddings.
    pub encoding_format: Option<EmbeddingFormat>,
    /// Number of output dimensions.
    pub dimensions: Option<u32>,
    /// End-user identifier.
    pub user: Option<String>,
}

/// One text or several texts to embed.
#[derive(Debug, Clone, PartialEq)]
pub enum EmbeddingInput {
    /// A single text.
    Single(String),
    /// Several texts.
    Multiple(Vec<String>),
}

impl Default for EmbeddingInput {
    /// A single empty text.
    fn default() -> (i: Self)
        ensures
            i matches EmbeddingInput::Single(t) && t@ == Seq::<char>::empty(),
    {
        EmbeddingInput::Single(String::new())
    }
}

/// What standard (padded) base64 decoding makes of `text`: its bytes, or
/// `None` when the text is not valid standard base64.
pub uninterp spec fn base64_standard_decoded(text: Seq<char>) -> Option<Seq<u8>>;

/// `base64::DecodeError`, why a text is not valid base64.
#[verifier::external_type_specification]
#[verifier::external_body]
pub struct ExBase64DecodeError(base64::DecodeError);

/// Decodes `text` with `base64::engine::general_purpose::STANDARD`.
///
/// Trusted: decoding depends on the text alone; the bytes (or the failure)
/// are named by [`base64_standard_decoded`], not spelled out.
#[verifier::external_body]
fn base64_decode(text: &str) -> (r: Result<Vec<u8>, base64::DecodeError>)
    ensures
        r matches Ok(b) ==> base64_standard_decoded(text@) == Some(b@),
        r is Err ==> base64_standard_decoded(text@) is None,
{
    base64::engine::general_purpose::STANDARD.decode(text)
}

/// The display text of a `base64::DecodeError`.  Nothing is stated of it.
#[verifier::external_body]
fn decode_error_text(e: &base64::DecodeError) -> String {
    e.to_string()
}

/// Why a base64 embedding could not be decoded.
#[derive(Debug, Clone, PartialEq, Eq)]
pub enum EmbeddingDecodeError {
    /// The text is not valid base64; the decoder's explanation.
    InvalidBase64(String),
    /// The decoded byte count, which is not a multiple of 4.
    NotMultipleOfFour(usize),
}

/// Message of an embedding decoding error.
pub open spec fn embedding_decode_message(e: EmbeddingDecodeError) -> Seq<char> {
    match e {
        EmbeddingDecodeError::InvalidBase64(detail) => "invalid base64 embedding: "@ + detail@,
        EmbeddingDecodeError::NotMultipleOfFour(n) => "base64 embedding length "@ + decimal_text(n as nat)
            + " is not a multiple of 4"@,
    }
}

impl EmbeddingDecodeError {
    /// The error's message.
    pub fn message(&self) -> (s: String)
        ensures
            s@ == embedding_decode_message(*self),
    {
        match self {
            EmbeddingDecodeError::InvalidBase64(detail) => {
                let mut s = String::from_str("invalid base64 embedding: ");
                s.append(detail.as_str());
                proof { reveal_strlit("invalid base64 embedding: "); }
                s
            },
            EmbeddingDecodeError::NotMultipleOfFour(n) => {
                let mut s = String::from_str("base64 embedding length ");
                let digits = usize_decimal(*n);
                s.append(digits.as_str());
                s.append(" is not a multiple of 4");
                proof {
                    reveal_strlit("base64 embedding length ");
                    reveal_strlit(" is not a multiple of 4");
                }
                s
            },
        }
    }
}

/// The little-endian 32-bit word at position `i` of `bytes`.
pub open spec fn le_word(bytes: Seq<u8>, i: int) -> nat {
    (bytes[4 * i] + 256 * bytes[4 * i + 1] + 65536 * bytes[4 * i + 2] + 16777216 * bytes[4 * i + 3]) as nat
}

/// The bit patterns of the `f32` values of an embedding from its decoded
/// bytes: one little-endian word per 4 bytes; a byte count that is not a
/// multiple of 4 is refused.
pub fn embedding_bits_from_bytes(bytes: Vec<u8>) -> (r: Result<Vec<u32>, EmbeddingDecodeError>)
    ensures
        bytes@.len() % 4 != 0 ==> r == Err::<Vec<u32>, EmbeddingDecodeError>(EmbeddingDecodeError::NotMultipleOfFour(bytes@.len() as usize)),
        bytes@.len() % 4 == 0 ==> (r matches Ok(w) && w@.len() * 4 == bytes@.len()
            && forall|i: int| 0 <= i < w@.len() ==> #[trigger] w@[i] as nat == le_word(bytes@, i)),
{
    let n = bytes.len();
    if n % 4 != 0 {
        return Err(EmbeddingDecodeError::NotMultipleOfFour(n));
    }
    let mut words: Vec<u32> = Vec::new();
    let mut i: usize = 0;
    while i < n / 4
        invariant
            n == bytes@.len(),
            n % 4 == 0,
            i <= n / 4,
            words@.len() == i,
            forall|j: int| 0 <= j < i ==> #[trigger] words@[j] as nat == le_word(bytes@, j),
        decreases n / 4 - i,
    {
        let b0 = bytes[4 * i] as u32;
        let b1 = bytes[4 * i + 1] as u32;
        let b2 = bytes[4 * i + 2] as u32;
        let b3 = bytes[4 * i + 3] as u32;
        let w = b0 + 256 * b1 + 65536 * b2 + 16777216 * b3;
        words.push(w);
        i = i + 1;
    }
    Ok(words)
}

/// The bit patterns of the `f32` values of a base64 embedding (standard,
/// padded base64 of little-endian `f32` bytes).
pub fn base64_embedding_bits(text: &str) -> (r: Result<Vec<u32>, EmbeddingDecodeError>)
    ensures
        base64_standard_decoded(text@) is None ==> (r matches Err(EmbeddingDecodeError::InvalidBase64(_))),
        base64_standard_decoded(text@) matches Some(b) ==> (
            (b.len() % 4 != 0 ==> r == Err::<Vec<u32>, EmbeddingDecodeError>(EmbeddingDecodeError::NotMultipleOfFour(b.len() as usize)))
            && (b.len() % 4 == 0 ==> (r matches Ok(w) && w@.len() * 4 == b.len()
                && forall|i: int| 0 <= i < w@.len() ==> #[trigger] w@[i] as nat == le_word(b, i)))),
{
    match base64_decode(text) {
        Ok(bytes) => embedding_bits_from_bytes(bytes),
        Err(e) => Err(EmbeddingDecodeError::InvalidBase64(decode_error_text(&e))),
    }
}

/// Byte `k` (0 to 3, least significant first) of the little-endian
/// encoding of `w`.
pub open spec fn le_byte(w: u32, k: int) -> u8 {
    if k == 0 {
        (w % 256) as u8
    } else if k == 1 {
        ((w / 256) % 256) as u8
    } else if k == 2 {
        ((w / 65536) % 256) as u8
    } else {
        (w / 16777216) as u8
    }
}

/// The little-endian bytes of a sequence of 32-bit words (how `f32`
/// embeddings are laid out before base64 encoding).
pub open spec fn le_bytes(words: Seq<u32>) -> Seq<u8> {
    Seq::new((4 * words.len()) as nat, |j: int| le_byte(words[j / 4], j % 4))
}

/// The words of a little-endian byte layout read back one by one.
proof fn lemma_le_word_of_bytes(w: u32)
    ensures
        le_byte(w, 0) + 256 * le_byte(w, 1) + 65536 * le_byte(w, 2) + 16777216 * le_byte(w, 3) == w,
{
    let a = w % 256;
    let b = (w / 256) % 256;
    let c = (w / 65536) % 256;
    let d = w / 16777216;
    assert(a + 256 * b + 65536 * c + 16777216 * d == w) by (nonlinear_arith)
        requires
            a == w % 256,
            b == (w / 256) % 256,
            c == (w / 65536) % 256,
            d == w / 16777216,
            w <= 0xffff_ffff;
}

/// Round trip of a base64 embedding: when a text decodes (standard base64)
/// to the little-endian bytes of some words, as the base64 encoding of those
/// bytes does, its byte count is a multiple of 4 and reading the words back
/// from the bytes gives exactly the words, so [`base64_embedding_bits`]
/// answers with them.
pub proof fn law_base64_embedding_round_trip(words: Seq<u32>, text: Seq<char>)
    requires
        base64_standard_decoded(text) == Some(le_bytes(words)),
    ensures
        le_bytes(words).len() % 4 == 0,
        le_bytes(words).len() == 4 * words.len(),
        forall|i: int| 0 <= i < words.len() ==> #[trigger] le_word(le_bytes(words), i) == words[i] as nat,
{
    assert forall|i: int| 0 <= i < words.len() implies #[trigger] le_word(le_bytes(words), i) == words[i] as nat by {
        assert((4 * i) / 4 == i && (4 * i) % 4 == 0);
        assert((4 * i + 1) / 4 == i && (4 * i + 1) % 4 == 1);
        assert((4 * i + 2) / 4 == i && (4 * i + 2) % 4 == 2);
        assert((4 * i + 3) / 4 == i && (4 * i + 3) % 4 == 3);
        lemma_le_word_of_bytes(words[i]);
    }
}

} // verus!
