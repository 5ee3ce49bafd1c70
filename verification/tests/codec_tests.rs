use envelope_codec::{decode, encode, with_trailing_newline, EnvelopeError};

fn envelope_text(input: &str) -> String {
    let env = encode(input).unwrap();
    String::from_utf8(env).unwrap()
}

#[test]
fn round_trip_hello() {
    let env = encode("hello\n").unwrap();
    let back = decode(&env).unwrap();
    assert_eq!(back, "hello\n");
}

#[test]
fn round_trip_empty() {
    let env = encode("").unwrap();
    let back = decode(&env).unwrap();
    assert_eq!(back, "");
}

#[test]
fn round_trip_multiline() {
    let text = "first line\nsecond line\n\nfourth line";
    let env = encode(text).unwrap();
    let back = decode(&env).unwrap();
    assert_eq!(back, text);
}

#[test]
fn envelope_has_exact_header_lines() {
    let text = envelope_text("hello\n");
    let lines: Vec<&str> = text.split('\n').collect();
    assert_eq!(lines.len(), 3);
    assert_eq!(lines[0], "EC v1");
    assert_eq!(lines[1], "t=gz>b64;ct=json");
}

#[test]
fn payload_is_base64_of_gzip_stream() {
    let text = envelope_text("hello\n");
    let lines: Vec<&str> = text.split('\n').collect();
    let payload = base64::Engine::decode(
        &base64::engine::general_purpose::STANDARD,
        lines[2],
    )
    .unwrap();
    assert_eq!(&payload[..2], &[0x1f, 0x8b]);
}

#[test]
fn header_rejection() {
    let r = decode(b"EC v2\nt=gz>b64;ct=json\nAAAA");
    assert_eq!(r, Err(EnvelopeError::InvalidHeader));
}

#[test]
fn header_rejection_case_sensitive() {
    let r = decode(b"ec v1\nt=gz>b64;ct=json\nAAAA");
    assert_eq!(r, Err(EnvelopeError::InvalidHeader));
}

#[test]
fn too_few_lines_rejection() {
    assert_eq!(decode(b""), Err(EnvelopeError::TooFewLines));
    assert_eq!(decode(b"EC v1"), Err(EnvelopeError::TooFewLines));
    assert_eq!(
        decode(b"EC v1\nt=gz>b64;ct=json"),
        Err(EnvelopeError::TooFewLines)
    );
}

#[test]
fn line_count_is_after_normalization() {
    assert_eq!(
        decode(b"EC v1\r\nt=gz>b64;ct=json"),
        Err(EnvelopeError::TooFewLines)
    );
}

#[test]
fn bad_payload_rejection() {
    let r = decode(b"EC v1\nt=gz>b64;ct=json\n!!!not base64!!!");
    assert_eq!(r, Err(EnvelopeError::InvalidPayload));
}

#[test]
fn bad_stream_rejection() {
    // "aGVsbG8=" is valid base64 for "hello", which is not a gzip stream.
    let r = decode(b"EC v1\nt=gz>b64;ct=json\naGVsbG8=");
    assert_eq!(r, Err(EnvelopeError::InvalidStream));
}

#[test]
fn transform_line_is_not_validated() {
    let text = envelope_text("hello\n");
    let lines: Vec<&str> = text.split('\n').collect();
    let loose = format!("{}\nanything goes here\n{}", lines[0], lines[2]);
    let back = decode(loose.as_bytes()).unwrap();
    assert_eq!(back, "hello\n");
}

#[test]
fn crlf_envelope_decodes_like_lf_envelope() {
    let text = envelope_text("hello\n");
    let crlf = text.replace('\n', "\r\n");
    let from_lf = decode(text.as_bytes()).unwrap();
    let from_crlf = decode(crlf.as_bytes()).unwrap();
    assert_eq!(from_lf, from_crlf);
    assert_eq!(from_lf, "hello\n");
}

#[test]
fn crlf_terminated_envelope_decodes() {
    let text = envelope_text("hello\n");
    let terminated = format!("{}\r\n", text);
    let back = decode(terminated.as_bytes()).unwrap();
    assert_eq!(back, "hello\n");
}

#[test]
fn stream_output_appends_missing_newline() {
    assert_eq!(with_trailing_newline(b"abc"), b"abc\n");
}

#[test]
fn stream_output_keeps_existing_newline() {
    assert_eq!(with_trailing_newline(b"abc\n"), b"abc\n");
}

#[test]
fn stream_output_of_empty_is_one_newline() {
    assert_eq!(with_trailing_newline(b""), b"\n");
}

#[test]
fn stream_output_after_carriage_return() {
    assert_eq!(with_trailing_newline(b"abc\r"), b"abc\r\n");
}

#[test]
fn error_messages_name_the_failed_check() {
    assert_eq!(EnvelopeError::TooFewLines.message(), "expected 3 lines");
    assert_eq!(EnvelopeError::InvalidHeader.message(), "invalid EC v1 header");
    assert_eq!(
        EnvelopeError::InvalidPayload.message(),
        "invalid base64 payload"
    );
    assert_eq!(
        EnvelopeError::InvalidStream.message(),
        "invalid compressed stream"
    );
    assert_eq!(
        EnvelopeError::CompressionFailed.message(),
        "compression failed"
    );
    assert_eq!(EnvelopeError::PayloadTooLarge.message(), "payload too large");
}

#[test]
fn lines_beyond_the_third_are_ignored() {
    let text = envelope_text("hello\n");
    let with_extra = format!("{}\ntrailing junk", text);
    let back = decode(with_extra.as_bytes()).unwrap();
    assert_eq!(back, "hello\n");
}
