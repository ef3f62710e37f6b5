//! Standard base64 with padding, through the `base64` crate.
use base64::Engine;
use vstd::prelude::*;

verus! {

/// The character of a six-bit value in the standard base64 alphabet.
pub open spec fn b64_char(i: nat) -> char {
    if i < 26 {
        (65 + i) as char
    } else if i < 52 {
        (71 + i) as char
    } else if i < 62 {
        (i - 4) as char
    } else if i == 62 {
        '+'
    } else {
        '/'
    }
}

/// The standard base64 text of some bytes, with `=` padding: each group of
/// three bytes gives four characters, a last group of one or two bytes gives
/// two or three characters and the padding.
pub open spec fn b64_encode(b: Seq<u8>) -> Seq<char>
    decreases b.len(),
{
    if b.len() == 0 {
        Seq::empty()
    } else if b.len() == 1 {
        seq![b64_char((b[0] / 4) as nat), b64_char(((b[0] % 4) * 16) as nat), '=', '=']
    } else if b.len() == 2 {
        seq![
            b64_char((b[0] / 4) as nat),
            b64_char(((b[0] % 4) * 16 + b[1] / 16) as nat),
            b64_char(((b[1] % 16) * 4) as nat),
            '=',
        ]
    } else {
        seq![
            b64_char((b[0] / 4) as nat),
            b64_char(((b[0] % 4) * 16 + b[1] / 16) as nat),
            b64_char(((b[1] % 16) * 4 + b[2] / 64) as nat),
            b64_char((b[2] % 64) as nat),
        ] + b64_encode(b.skip(3))
    }
}

/// What the standard engine's `decode` gives for a text: the bytes, or `None`
/// when the text is refused.
pub uninterp spec fn b64_decode(s: Seq<char>) -> Option<Seq<u8>>;

/// Calls `STANDARD.encode`. Trusted: the result is the padded standard
/// base64 text of the bytes, and, as the crate documents, decoding it gives
/// the bytes back.
#[verifier::external_body]
pub fn b64_encode_bytes(bytes: &[u8]) -> (res: String)
    ensures
        res@ == b64_encode(bytes@),
        b64_decode(res@) == Some(bytes@),
{
    base64::engine::general_purpose::STANDARD.encode(bytes)
}

#[verifier::external_type_specification]
#[verifier::external_body]
pub struct ExDecodeError(base64::DecodeError);

/// Calls `STANDARD.decode` on the text. Trusted: it succeeds exactly when
/// `b64_decode` gives bytes, and gives those bytes.
#[verifier::external_body]
pub fn b64_decode_text(s: &str) -> (res: Result<Vec<u8>, base64::DecodeError>)
    ensures
        res is Ok <==> b64_decode(s@) is Some,
        res matches Ok(v) ==> b64_decode(s@) == Some(v@),
{
    base64::engine::general_purpose::STANDARD.decode(s)
}

/// A base64 text holds only alphabet characters and `=`; in particular no
/// dot.
pub proof fn lemma_b64_lacks_dot(b: Seq<u8>)
    ensures
        forall|i: int| 0 <= i < b64_encode(b).len() ==> b64_encode(b)[i] != '.',
    decreases b.len(),
{
    assert forall|i: nat| i < 64 implies b64_char(i) != '.' by {
        if i < 26 {
            assert((65 + i) as char as u32 == 65 + i);
        } else if i < 52 {
            assert((71 + i) as char as u32 == 71 + i);
        } else if i < 62 {
            assert((i - 4) as char as u32 == i - 4);
        }
    }
    if b.len() >= 3 {
        lemma_b64_lacks_dot(b.skip(3));
        assert(((b[0] % 4) * 16 + b[1] / 16) < 64) by (nonlinear_arith)
            requires b[0] < 256, b[1] < 256;
        assert(((b[1] % 16) * 4 + b[2] / 64) < 64) by (nonlinear_arith)
            requires b[1] < 256, b[2] < 256;
        let head = seq![
            b64_char((b[0] / 4) as nat),
            b64_char(((b[0] % 4) * 16 + b[1] / 16) as nat),
            b64_char(((b[1] % 16) * 4 + b[2] / 64) as nat),
            b64_char((b[2] % 64) as nat),
        ];
        let rest = b64_encode(b.skip(3));
        assert(b64_encode(b) == head + rest);
        assert forall|i: int| 0 <= i < (head + rest).len() implies (head + rest)[i] != '.' by {
            if i >= 4 {
                assert((head + rest)[i] == rest[i - 4]);
            }
        }
    } else if b.len() == 2 {
        assert(((b[0] % 4) * 16 + b[1] / 16) < 64) by (nonlinear_arith)
            requires b[0] < 256, b[1] < 256;
        assert(((b[1] % 16) * 4) < 64) by (nonlinear_arith)
            requires b[1] < 256;
    } else if b.len() == 1 {
        assert(((b[0] % 4) * 16) < 64) by (nonlinear_arith)
            requires b[0] < 256;
    }
}

/// Encodes and decodes standard base64 with padding.
pub trait Base64Repository {
    fn encode(&self, bytes: &[u8]) -> (res: String)
        ensures
            res@ == b64_encode(bytes@),
            b64_decode(res@) == Some(bytes@),
    ;

    fn decode(&self, b64: &str) -> (res: Result<Vec<u8>, base64::DecodeError>)
        ensures
            res is Ok <==> b64_decode(b64@) is Some,
            res matches Ok(v) ==> b64_decode(b64@) == Some(v@),
    ;
}

/// The base64 repository of the service, on the standard engine.
pub struct Base64RepositoryImpl;

impl Base64Repository for Base64RepositoryImpl {
    fn encode(&self, bytes: &[u8]) -> (res: String) {
        b64_encode_bytes(bytes)
    }

    fn decode(&self, b64: &str) -> (res: Result<Vec<u8>, base64::DecodeError>) {
        b64_decode_text(b64)
    }
}

} // verus!
