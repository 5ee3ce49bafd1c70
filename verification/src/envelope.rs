use vstd::prelude::*;

use crate::codecs::{
    b64_decode_bytes, b64_decoded, b64_encode_bytes, b64_of, gunzip_text_of, gunzip_to_string,
    gzip_compress,
};
use crate::errors::EnvelopeError;
use crate::lines::{
    bytes_eq, lemma_bytes_deep_view, lemma_normalize_no_cr, lemma_split_no_lf,
    lemma_split_prepend_line, normalize_newlines, normalize_spec, split_lines, split_spec,
};

verus! {

/// The bytes of the version header line, `EC v1`.
pub open spec fn header_line() -> Seq<u8> {
    seq![69u8, 67u8, 32u8, 118u8, 49u8]
}

/// The bytes of the transform descriptor line, `t=gz>b64;ct=json`.
pub open spec fn transform_line() -> Seq<u8> {
    seq![
        116u8,
        61u8,
        103u8,
        122u8,
        62u8,
        98u8,
        54u8,
        52u8,
        59u8,
        99u8,
        116u8,
        61u8,
        106u8,
        115u8,
        111u8,
        110u8,
    ]
}

/// A payload line wrapped under the two fixed lines of an envelope.
pub open spec fn wrap_payload(p: Seq<u8>) -> Seq<u8> {
    header_line() + seq![10u8] + transform_line() + seq![10u8] + p
}

/// The lines of envelope text, after newline normalization.
pub open spec fn envelope_lines(s: Seq<u8>) -> Seq<Seq<u8>> {
    split_spec(normalize_spec(s))
}

/// What decoding makes of envelope text: the original content, or the error
/// naming the first validation step that fails. The transform descriptor
/// line is read but deliberately not validated: any value is accepted there.
pub open spec fn decode_result(s: Seq<u8>) -> Result<Seq<char>, EnvelopeError> {
    let lines = envelope_lines(s);
    if lines.len() < 3 {
        Err(EnvelopeError::TooFewLines)
    } else if lines[0] != header_line() {
        Err(EnvelopeError::InvalidHeader)
    } else {
        match b64_decoded(lines[2]) {
            Option::None => Err(EnvelopeError::InvalidPayload),
            Option::Some(compressed) => match gunzip_text_of(compressed) {
                Option::None => Err(EnvelopeError::InvalidStream),
                Option::Some(text) => Ok(text),
            },
        }
    }
}

/// The version header line, as bytes.
pub fn header_line_bytes() -> (r: Vec<u8>)
    ensures
        r@ == header_line(),
{
    let mut v: Vec<u8> = Vec::new();
    v.push(69);
    v.push(67);
    v.push(32);
    v.push(118);
    v.push(49);
    proof {
        assert(v@ =~= header_line());
    }
    v
}

/// The transform descriptor line, as bytes.
pub fn transform_line_bytes() -> (r: Vec<u8>)
    ensures
        r@ == transform_line(),
{
    let mut v: Vec<u8> = Vec::new();
    v.push(116);
    v.push(61);
    v.push(103);
    v.push(122);
    v.push(62);
    v.push(98);
    v.push(54);
    v.push(52);
    v.push(59);
    v.push(99);
    v.push(116);
    v.push(61);
    v.push(106);
    v.push(115);
    v.push(111);
    v.push(110);
    proof {
        assert(v@ =~= transform_line());
    }
    v
}

/// Builds the three-line envelope text around an already compressed payload.
/// Success is owed for every payload small enough for the text encoder; a
/// larger one is refused rather than handed to it.
pub fn assemble_envelope(compressed: &Vec<u8>) -> (r: Result<Vec<u8>, EnvelopeError>)
    ensures
        r matches Ok(v) ==> {
            &&& v@ == wrap_payload(b64_of(compressed@))
            &&& envelope_lines(v@) =~= seq![header_line(), transform_line(), b64_of(compressed@)]
            &&& (gunzip_text_of(compressed@) matches Some(t) ==> decode_result(v@) == Ok::<
                Seq<char>,
                EnvelopeError,
            >(t))
        },
        r is Err <==> compressed@.len() > usize::MAX / 2,
        r matches Err(e) ==> e == EnvelopeError::PayloadTooLarge,
{
    if compressed.len() > usize::MAX / 2 {
        return Err(EnvelopeError::PayloadTooLarge);
    }
    let mut payload = b64_encode_bytes(compressed);
    let ghost p = payload@;
    let mut v = header_line_bytes();
    v.push(10);
    let mut t = transform_line_bytes();
    v.append(&mut t);
    v.push(10);
    v.append(&mut payload);
    proof {
        assert(v@ =~= wrap_payload(p));
        assert(forall|i: int| 0 <= i < v@.len() ==> v@[i] != 13u8) by {
            assert(forall|i: int| 0 <= i < header_line().len() ==> header_line()[i] != 13u8);
            assert(forall|i: int| 0 <= i < transform_line().len() ==> transform_line()[i] != 13u8);
        }
        lemma_normalize_no_cr(v@);
        assert(forall|i: int| 0 <= i < header_line().len() ==> header_line()[i] != 10u8);
        assert(forall|i: int| 0 <= i < transform_line().len() ==> transform_line()[i] != 10u8);
        assert(v@ =~= header_line() + seq![10u8] + (transform_line() + seq![10u8] + p));
        lemma_split_prepend_line(header_line(), transform_line() + seq![10u8] + p);
        lemma_split_prepend_line(transform_line(), p);
        lemma_split_no_lf(p);
        assert(split_spec(v@) =~= seq![header_line()] + (seq![transform_line()] + seq![p]));
        assert(envelope_lines(v@) =~= seq![header_line(), transform_line(), p]);
        assert(envelope_lines(v@).len() == 3);
        assert(envelope_lines(v@)[0] == header_line());
        assert(envelope_lines(v@)[2] == p);
        assert(b64_decoded(p) == Some(compressed@));
    }
    Ok(v)
}

/// Compresses `input` and wraps it as envelope text. The envelope it returns
/// decodes back to exactly `input`; an error is either the compressor's own
/// failure or a compressed payload too large to re-encode as text.
pub fn encode(input: &str) -> (r: Result<Vec<u8>, EnvelopeError>)
    ensures
        r matches Ok(v) ==> {
            &&& envelope_lines(v@).len() == 3
            &&& envelope_lines(v@)[0] == header_line()
            &&& envelope_lines(v@)[1] == transform_line()
            &&& decode_result(v@) == Ok::<Seq<char>, EnvelopeError>(input@)
        },
        r matches Err(e) ==> (e == EnvelopeError::CompressionFailed || e
            == EnvelopeError::PayloadTooLarge),
{
    let compressed = match gzip_compress(input) {
        Ok(c) => c,
        Err(_) => {
            return Err(EnvelopeError::CompressionFailed);
        },
    };
    assemble_envelope(&compressed)
}

/// Parses envelope text and recovers the original content, validating the
/// line count, the header line, the payload encoding and the compressed
/// stream, in that order. The transform descriptor line is not validated.
pub fn decode(input: &[u8]) -> (r: Result<String, EnvelopeError>)
    ensures
        r matches Ok(t) ==> decode_result(input@) == Ok::<Seq<char>, EnvelopeError>(t@),
        r matches Err(e) ==> decode_result(input@) == Err::<Seq<char>, EnvelopeError>(e),
{
    let normalized = normalize_newlines(input);
    let lines = split_lines(normalized.as_slice());
    proof {
        assert(lines.deep_view() == envelope_lines(input@));
        assert(lines.deep_view().len() == lines@.len());
    }
    if lines.len() < 3 {
        return Err(EnvelopeError::TooFewLines);
    }
    let hdr = header_line_bytes();
    proof {
        lemma_bytes_deep_view(lines@[0]);
        assert(lines.deep_view()[0] == lines@[0].deep_view());
    }
    if !bytes_eq(lines[0].as_slice(), hdr.as_slice()) {
        return Err(EnvelopeError::InvalidHeader);
    }
    proof {
        lemma_bytes_deep_view(lines@[2]);
        assert(lines.deep_view()[2] == lines@[2].deep_view());
    }
    let compressed = match b64_decode_bytes(&lines[2]) {
        Ok(c) => c,
        Err(_) => {
            return Err(EnvelopeError::InvalidPayload);
        },
    };
    match gunzip_to_string(&compressed) {
        Ok(t) => Ok(t),
        Err(_) => Err(EnvelopeError::InvalidStream),
    }
}

/// Text whose first line is not exactly the version header never decodes,
/// whatever its remaining content.
pub proof fn lemma_header_rejected(s: Seq<u8>)
    requires
        envelope_lines(s)[0] != header_line(),
    ensures
        decode_result(s) is Err,
{
}

/// Text with fewer than three lines after normalization is rejected with the
/// line-count error.
pub proof fn lemma_too_few_lines_rejected(s: Seq<u8>)
    requires
        envelope_lines(s).len() < 3,
    ensures
        decode_result(s) == Err::<Seq<char>, EnvelopeError>(EnvelopeError::TooFewLines),
{
}

/// A three-line text with the right header whose third line is not valid
/// encoded data is rejected with the payload error.
pub proof fn lemma_bad_payload_rejected(s: Seq<u8>)
    requires
        envelope_lines(s).len() >= 3,
        envelope_lines(s)[0] == header_line(),
        b64_decoded(envelope_lines(s)[2]) is None,
    ensures
        decode_result(s) == Err::<Seq<char>, EnvelopeError>(EnvelopeError::InvalidPayload),
{
}

/// A three-line text with the right header whose decoded payload is not a
/// valid compressed text stream is rejected with the stream error.
pub proof fn lemma_bad_stream_rejected(s: Seq<u8>, compressed: Seq<u8>)
    requires
        envelope_lines(s).len() >= 3,
        envelope_lines(s)[0] == header_line(),
        b64_decoded(envelope_lines(s)[2]) == Some(compressed),
        gunzip_text_of(compressed) is None,
    ensures
        decode_result(s) == Err::<Seq<char>, EnvelopeError>(EnvelopeError::InvalidStream),
{
}

} // verus!

