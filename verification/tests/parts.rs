//! The pieces a fetch is decided by: the media type, the head of a response
//! and the line an error is shown as.

use reqwest::header::{HeaderMap, HeaderName, HeaderValue, CONTENT_LENGTH, CONTENT_TYPE};
use tts_fetch::error::FetchError;
use tts_fetch::media::is_audio_wav;
use tts_fetch::response::ResponseHead;

#[test]
fn audio_wav_is_matched_byte_for_byte() {
    assert!(is_audio_wav(b"audio/wav"));
    assert!(is_audio_wav(&[0x61, 0x75, 0x64, 0x69, 0x6f, 0x2f, 0x77, 0x61, 0x76]));
    assert!(!is_audio_wav(b""));
    assert!(!is_audio_wav(b"audio/wa"));
    assert!(!is_audio_wav(b"audio/wavv"));
    assert!(!is_audio_wav(b"audio/waw"));
    assert!(!is_audio_wav(b"budio/wav"));
    assert!(!is_audio_wav(b"Audio/wav"));
    assert!(!is_audio_wav(b"audio/wav; charset=utf-8"));
    assert!(!is_audio_wav(b"audio/wav;"));
    assert!(!is_audio_wav(b"audio/mpeg"));
    assert!(!is_audio_wav(&[0xff, 0xfe, 0x00, 0x61, 0x75, 0x64, 0x69, 0x6f, 0x2f]));
}

#[test]
fn head_takes_the_content_type_from_the_headers() {
    let mut headers = HeaderMap::new();
    headers.insert(CONTENT_LENGTH, HeaderValue::from_static("44"));
    headers.insert(CONTENT_TYPE, HeaderValue::from_static("audio/wav"));
    let head = ResponseHead::from_parts(200, &headers);
    assert_eq!(head, ResponseHead { status: 200, content_type: Some(b"audio/wav".to_vec()) });
    assert!(head.is_audio());
}

#[test]
fn head_without_content_type_has_none() {
    let mut headers = HeaderMap::new();
    let head = ResponseHead::from_parts(204, &headers);
    assert_eq!(head, ResponseHead { status: 204, content_type: None });
    headers.insert(CONTENT_LENGTH, HeaderValue::from_static("0"));
    headers.insert(HeaderName::from_static("x-content-type"), HeaderValue::from_static("audio/wav"));
    let head = ResponseHead::from_parts(204, &headers);
    assert_eq!(head, ResponseHead { status: 204, content_type: None });
    assert!(head.is_success());
    assert!(!head.has_audio_media_type());
    assert!(!head.is_audio());
}

#[test]
fn head_takes_the_first_of_several_content_types() {
    let mut headers = HeaderMap::new();
    headers.append(CONTENT_TYPE, HeaderValue::from_static("text/plain"));
    headers.append(CONTENT_TYPE, HeaderValue::from_static("audio/wav"));
    let head = ResponseHead::from_parts(200, &headers);
    assert_eq!(head.content_type, Some(b"text/plain".to_vec()));
    assert!(!head.is_audio());

    let mut headers = HeaderMap::new();
    headers.append(CONTENT_TYPE, HeaderValue::from_static("audio/wav"));
    headers.append(CONTENT_TYPE, HeaderValue::from_static("text/plain"));
    let head = ResponseHead::from_parts(200, &headers);
    assert_eq!(head.content_type, Some(b"audio/wav".to_vec()));
    assert!(head.is_audio());
}

#[test]
fn header_name_is_found_in_any_case() {
    let mut headers = HeaderMap::new();
    let name: HeaderName = "Content-Type".parse().unwrap();
    headers.insert(name, HeaderValue::from_static("audio/wav"));
    let head = ResponseHead::from_parts(200, &headers);
    assert_eq!(head.content_type, Some(b"audio/wav".to_vec()));
}

#[test]
fn header_value_bytes_are_kept_as_they_are() {
    let raw = [0x61, 0xff, 0x80, 0x2f, 0xe9];
    let mut headers = HeaderMap::new();
    headers.insert(CONTENT_TYPE, HeaderValue::from_bytes(&raw).unwrap());
    let head = ResponseHead::from_parts(200, &headers);
    assert_eq!(head.content_type, Some(raw.to_vec()));
    assert!(!head.is_audio());
}

#[test]
fn success_is_two_hundred_to_two_hundred_ninety_nine() {
    let at = |status: u16| ResponseHead { status, content_type: None }.is_success();
    assert!(!at(0));
    assert!(!at(199));
    assert!(at(200));
    assert!(at(201));
    assert!(at(299));
    assert!(!at(300));
    assert!(!at(404));
    assert!(!at(500));
    assert!(!at(u16::MAX));
}

#[test]
fn audio_needs_both_success_and_media_type() {
    let head = |status: u16, value: Option<&[u8]>| ResponseHead {
        status,
        content_type: value.map(|bytes| bytes.to_vec()),
    };
    assert!(head(200, Some(b"audio/wav")).is_audio());
    assert!(head(299, Some(b"audio/wav")).is_audio());
    assert!(!head(199, Some(b"audio/wav")).is_audio());
    assert!(!head(300, Some(b"audio/wav")).is_audio());
    assert!(!head(200, Some(b"text/plain")).is_audio());
    assert!(!head(200, None).is_audio());
    assert!(!head(500, None).is_audio());
    assert!(head(500, Some(b"audio/wav")).has_audio_media_type());
}

#[test]
fn transport_failure_is_shown_with_its_kind() {
    let error = FetchError::TransportFailure("error sending request: connection refused".to_string());
    assert_eq!(error.message(), "Reqwest error: error sending request: connection refused");
    assert_eq!(FetchError::TransportFailure(String::new()).message(), "Reqwest error: ");
}

#[test]
fn server_failure_is_shown_with_its_kind() {
    let error = FetchError::ServerFailure("model warming up".to_string());
    assert_eq!(error.message(), "Server error: model warming up");
    assert_eq!(FetchError::ServerFailure(String::new()).message(), "Server error: ");
    assert_eq!(
        FetchError::ServerFailure("Reqwest error: x".to_string()).message(),
        "Server error: Reqwest error: x"
    );
}
