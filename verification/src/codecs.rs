use vstd::prelude::*;

verus! {

/// The standard, padded base64 encoding of `b`, as the bytes of the encoded
/// text.
pub uninterp spec fn b64_of(b: Seq<u8>) -> Seq<u8>;

/// What standard, padded base64 decoding makes of `s`: the decoded bytes, or
/// `None` where `s` is not valid encoded data.
pub uninterp spec fn b64_decoded(s: Seq<u8>) -> Option<Seq<u8>>;

/// What gzip decompression followed by UTF-8 text reading makes of `b`: the
/// recovered text, or `None` where `b` is not a valid compressed text stream.
pub uninterp spec fn gunzip_text_of(b: Seq<u8>) -> Option<Seq<char>>;

#[verifier::external_type_specification]
#[verifier::external_body]
pub struct ExDecodeError(base64::DecodeError);

#[verifier::external_type_specification]
#[verifier::external_body]
pub struct ExIoError(std::io::Error);

/// Relies on base64's `STANDARD` engine: `encode` yields standard padded
/// base64, whose alphabet holds no newline or carriage-return characters,
/// and `decode` recovers the encoded bytes from it. The length bound keeps
/// the engine's output-size calculation from overflowing.
#[verifier::external_body]
pub(crate) fn b64_encode_bytes(data: &Vec<u8>) -> (r: Vec<u8>)
    requires
        data@.len() <= usize::MAX / 2,
    ensures
        r@ == b64_of(data@),
        b64_decoded(r@) == Some(data@),
        forall|i: int| 0 <= i < r@.len() ==> r@[i] != 10u8 && r@[i] != 13u8,
{
    base64::Engine::encode(&base64::engine::general_purpose::STANDARD, data).into_bytes()
}

/// Relies on base64's `STANDARD` engine: `decode` returns the decoded bytes
/// exactly when its input is valid standard padded base64, and an error
/// otherwise.
#[verifier::external_body]
pub(crate) fn b64_decode_bytes(data: &Vec<u8>) -> (r: Result<Vec<u8>, base64::DecodeError>)
    ensures
        r matches Ok(v) ==> b64_decoded(data@) == Some(v@),
        r is Err ==> b64_decoded(data@) is None,
{
    base64::Engine::decode(&base64::engine::general_purpose::STANDARD, data)
}

/// Relies on flate2's `GzEncoder` at the default compression level: a stream
/// it produces decompresses back to exactly the bytes written into it, here
/// the UTF-8 encoding of `data`.
#[verifier::external_body]
pub(crate) fn gzip_compress(data: &str) -> (r: Result<Vec<u8>, std::io::Error>)
    ensures
        r matches Ok(v) ==> gunzip_text_of(v@) == Some(data@),
{
    let mut encoder = flate2::write::GzEncoder::new(Vec::new(), flate2::Compression::default());
    std::io::Write::write_all(&mut encoder, data.as_bytes())?;
    encoder.finish()
}

/// Relies on flate2's `GzDecoder` and `Read::read_to_string`: together they
/// recover the compressed text exactly when the bytes are a valid gzip
/// stream of UTF-8 text, and fail otherwise.
#[verifier::external_body]
pub(crate) fn gunzip_to_string(data: &Vec<u8>) -> (r: Result<String, std::io::Error>)
    ensures
        r matches Ok(t) ==> gunzip_text_of(data@) == Some(t@),
        r is Err ==> gunzip_text_of(data@) is None,
{
    let mut decoder = flate2::read::GzDecoder::new(&data[..]);
    let mut out = String::new();
    std::io::Read::read_to_string(&mut decoder, &mut out)?;
    Ok(out)
}

} // verus!
