use document_commands::files::{write_file_bytes, WriteJob};
use document_commands::raw_write::{
    destination_path, legacy_payload, path_from_header, payload_bytes, write_file_bytes_raw,
    Payload, WriteError, WriteRequest, PATH_HEADER,
};
use http::{HeaderMap, HeaderName, HeaderValue};
use serde_json::Value;

fn headers_with_path(path: &'static str) -> HeaderMap {
    let mut headers = HeaderMap::new();
    headers.insert(HeaderName::from_static("x-file-path"), HeaderValue::from_static(path));
    headers
}

fn byte_array(values: &[u64]) -> Value {
    Value::Array(values.iter().map(|v| Value::from(*v)).collect())
}

fn resolve(headers: HeaderMap, body: Payload) -> Result<WriteJob, WriteError> {
    write_file_bytes_raw(WriteRequest { headers, body })
}

#[test]
fn raw_body_is_written_as_sent() {
    let job = resolve(headers_with_path("/tmp/out.pdf"), Payload::RawBytes(vec![0, 1, 2, 253, 254, 255])).unwrap();
    assert_eq!(job.path, "/tmp/out.pdf");
    assert_eq!(job.data, vec![0, 1, 2, 253, 254, 255]);
}

#[test]
fn ten_megabyte_raw_body_arrives_whole() {
    let size = 10 * 1024 * 1024;
    let body: Vec<u8> = (0..size).map(|i| (i % 251) as u8).collect();
    let job = resolve(headers_with_path("/tmp/out.pdf"), Payload::RawBytes(body.clone())).unwrap();
    assert_eq!(job.path, "/tmp/out.pdf");
    assert_eq!(job.data.len(), size);
    assert!(job.data == body);
}

#[test]
fn empty_raw_body_is_an_empty_write() {
    let job = resolve(headers_with_path("/tmp/empty"), Payload::RawBytes(Vec::new())).unwrap();
    assert_eq!(job.path, "/tmp/empty");
    assert!(job.data.is_empty());
}

#[test]
fn legacy_body_is_decoded_to_bytes() {
    let job = resolve(headers_with_path("/tmp/out.pdf"), Payload::LegacyEncoded(byte_array(&[37, 80, 68, 70, 0, 255]))).unwrap();
    assert_eq!(job.path, "/tmp/out.pdf");
    assert_eq!(job.data, vec![37, 80, 68, 70, 0, 255]);
}

#[test]
fn both_encodings_and_the_structured_command_agree() {
    let bytes: Vec<u8> = vec![9, 8, 7, 200];
    let raw = resolve(headers_with_path("/tmp/a.pdf"), Payload::RawBytes(bytes.clone())).unwrap();
    let legacy = resolve(headers_with_path("/tmp/a.pdf"), Payload::LegacyEncoded(byte_array(&[9, 8, 7, 200]))).unwrap();
    let structured = write_file_bytes("/tmp/a.pdf".to_string(), bytes.clone());
    assert_eq!(raw.path, structured.path);
    assert_eq!(raw.data, structured.data);
    assert_eq!(legacy.path, structured.path);
    assert_eq!(legacy.data, structured.data);
    assert_eq!(structured.data, bytes);
}

#[test]
fn missing_header_is_a_missing_path() {
    let error = resolve(HeaderMap::new(), Payload::RawBytes(vec![1, 2, 3])).unwrap_err();
    assert!(matches!(error, WriteError::MissingPath));
    assert_eq!(error.message(), "Missing X-File-Path header");
}

#[test]
fn other_headers_do_not_name_a_path() {
    let mut headers = HeaderMap::new();
    headers.insert(HeaderName::from_static("x-file-name"), HeaderValue::from_static("/tmp/out.pdf"));
    let error = resolve(headers, Payload::RawBytes(vec![1])).unwrap_err();
    assert!(matches!(error, WriteError::MissingPath));
}

#[test]
fn header_that_is_not_text_is_a_missing_path() {
    let mut headers = HeaderMap::new();
    headers.insert(
        HeaderName::from_static("x-file-path"),
        HeaderValue::from_bytes(&[47, 116, 109, 112, 47, 0xe9]).unwrap(),
    );
    let error = resolve(headers, Payload::RawBytes(vec![1])).unwrap_err();
    assert!(matches!(error, WriteError::MissingPath));
    assert_eq!(error.message(), "Missing X-File-Path header");
}

#[test]
fn missing_header_is_reported_before_a_bad_body() {
    let error = resolve(HeaderMap::new(), Payload::LegacyEncoded(Value::Null)).unwrap_err();
    assert!(matches!(error, WriteError::MissingPath));
}

#[test]
fn first_of_several_path_headers_is_used() {
    let mut headers = headers_with_path("/tmp/first");
    headers.append(HeaderName::from_static("x-file-path"), HeaderValue::from_static("/tmp/second"));
    assert_eq!(destination_path(&headers).unwrap(), "/tmp/first");
}

#[test]
fn header_name_is_found_whatever_its_case() {
    assert_eq!(PATH_HEADER, "X-File-Path");
    let headers = headers_with_path("/home/user/My Documents/report.pdf");
    assert_eq!(destination_path(&headers).unwrap(), "/home/user/My Documents/report.pdf");
}

#[test]
fn legacy_body_that_is_no_array_is_a_decode_error() {
    for body in [
        Value::Null,
        Value::Bool(true),
        Value::from("AQID"),
        Value::from(7u64),
        Value::Object(serde_json::Map::new()),
    ] {
        let expected = format!(
            "Failed to deserialize data: {}",
            serde_json::from_value::<Vec<u8>>(body.clone()).unwrap_err()
        );
        let error = resolve(headers_with_path("/tmp/out.pdf"), Payload::LegacyEncoded(body)).unwrap_err();
        assert!(matches!(error, WriteError::Decode { .. }));
        assert_eq!(error.message(), expected);
    }
}

#[test]
fn legacy_number_outside_a_byte_is_a_decode_error() {
    let error = resolve(headers_with_path("/tmp/out.pdf"), Payload::LegacyEncoded(byte_array(&[1, 256]))).unwrap_err();
    assert!(matches!(error, WriteError::Decode { .. }));
    assert_eq!(
        error.message(),
        "Failed to deserialize data: invalid value: integer `256`, expected u8"
    );

    let negative = Value::Array(vec![Value::from(-1i64)]);
    let error = resolve(headers_with_path("/tmp/out.pdf"), Payload::LegacyEncoded(negative)).unwrap_err();
    assert!(matches!(error, WriteError::Decode { .. }));

    let fraction = Value::Array(vec![Value::from(1.5f64)]);
    let error = resolve(headers_with_path("/tmp/out.pdf"), Payload::LegacyEncoded(fraction)).unwrap_err();
    assert!(matches!(error, WriteError::Decode { .. }));

    let text = Value::Array(vec![Value::from("1")]);
    let error = resolve(headers_with_path("/tmp/out.pdf"), Payload::LegacyEncoded(text)).unwrap_err();
    assert!(matches!(error, WriteError::Decode { .. }));
}

#[test]
fn empty_legacy_array_is_an_empty_payload() {
    assert_eq!(payload_bytes(Payload::LegacyEncoded(byte_array(&[]))).unwrap(), Vec::<u8>::new());
}

#[test]
fn payload_bytes_reads_each_kind_of_body() {
    assert_eq!(payload_bytes(Payload::RawBytes(vec![5, 6])).unwrap(), vec![5, 6]);
    assert_eq!(payload_bytes(Payload::LegacyEncoded(byte_array(&[5, 6]))).unwrap(), vec![5, 6]);
    assert!(matches!(
        payload_bytes(Payload::LegacyEncoded(Value::Null)),
        Err(WriteError::Decode { .. })
    ));
}

#[test]
fn legacy_payload_keeps_bytes_and_wraps_the_detail() {
    assert_eq!(legacy_payload(Ok(vec![1, 2, 3])).unwrap(), vec![1, 2, 3]);
    let error = legacy_payload(Err("expected u8".to_string())).unwrap_err();
    match &error {
        WriteError::Decode { detail } => assert_eq!(detail, "expected u8"),
        WriteError::MissingPath => panic!("a decoder failure is no missing path"),
    }
    assert_eq!(error.message(), "Failed to deserialize data: expected u8");
}

#[test]
fn path_from_header_reads_text_only() {
    assert_eq!(path_from_header(Some(b"/tmp/out.pdf".to_vec())).unwrap(), "/tmp/out.pdf");
    assert_eq!(path_from_header(Some(Vec::new())).unwrap(), "");
    assert!(matches!(path_from_header(Some(vec![47, 200])), Err(WriteError::MissingPath)));
    assert!(matches!(path_from_header(None), Err(WriteError::MissingPath)));
}
