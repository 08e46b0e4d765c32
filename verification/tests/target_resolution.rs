use ffplayout_api::decimal::decimal_string;
use ffplayout_api::livestream::ffmpeg_sink_url;
use ffplayout_api::target::rtmp_detail_string;
use ffplayout_api::{extract_rtmp_stream_details, OrchestratorError, RtmpTarget};

#[test]
fn test_target_from_ingest_param() {
    let t = extract_rtmp_stream_details(":1935/live/stream?key=abc").unwrap();
    assert_eq!(t.port, 1935);
    assert_eq!(t.stream_key, "/live/stream?key=abc");
}

#[test]
fn test_target_without_colon_digit_pattern() {
    assert_eq!(
        extract_rtmp_stream_details("no target here"),
        Err(OrchestratorError::NoValidTarget)
    );
    assert_eq!(
        extract_rtmp_stream_details("ends with colon:"),
        Err(OrchestratorError::NoValidTarget)
    );
    assert_eq!(
        extract_rtmp_stream_details(""),
        Err(OrchestratorError::NoValidTarget)
    );
}

#[test]
fn test_target_embedded_in_longer_text() {
    let t = extract_rtmp_stream_details("-f live -listen rtmp://0.0.0.0:1935/live key").unwrap();
    assert_eq!(t.port, 1935);
    assert_eq!(t.stream_key, "/live");
}

#[test]
fn test_target_skips_colon_without_digit() {
    let t = extract_rtmp_stream_details("a:b:1935/x").unwrap();
    assert_eq!(t.port, 1935);
    assert_eq!(t.stream_key, "/x");
}

#[test]
fn test_target_five_digit_cap() {
    let t = extract_rtmp_stream_details(":123456").unwrap();
    assert_eq!(t.port, 12345);
    assert_eq!(t.stream_key, "6");
}

#[test]
fn test_target_port_beyond_sixteen_bits() {
    assert_eq!(
        extract_rtmp_stream_details(":99999/live"),
        Err(OrchestratorError::NoValidTarget)
    );
}

#[test]
fn test_target_whitespace_ends_stream_key() {
    let t = extract_rtmp_stream_details(":8080/key more").unwrap();
    assert_eq!(t.port, 8080);
    assert_eq!(t.stream_key, "/key");
}

#[test]
fn test_target_unicode_whitespace_ends_stream_key() {
    let t = extract_rtmp_stream_details(":8080/key\u{00A0}tail").unwrap();
    assert_eq!(t.port, 8080);
    assert_eq!(t.stream_key, "/key");

    let t = extract_rtmp_stream_details(":8080/key\u{2003}tail").unwrap();
    assert_eq!(t.stream_key, "/key");
}

#[test]
fn test_target_empty_stream_key() {
    let t = extract_rtmp_stream_details(":80").unwrap();
    assert_eq!(t.port, 80);
    assert_eq!(t.stream_key, "");
}

#[test]
fn test_target_leading_zeros() {
    let t = extract_rtmp_stream_details(":00080abc").unwrap();
    assert_eq!(t.port, 80);
    assert_eq!(t.stream_key, "abc");
}

#[test]
fn test_target_determinism() {
    let a = extract_rtmp_stream_details(":1935/live/stream?key=abc");
    let b = extract_rtmp_stream_details(":1935/live/stream?key=abc");
    assert_eq!(a, b);
}

#[test]
fn test_rtmp_detail_rendering() {
    let t = RtmpTarget { port: 1935, stream_key: String::from("/live/stream?key=abc") };
    assert_eq!(rtmp_detail_string(&t), ":1935/live/stream?key=abc");
    assert_eq!(ffmpeg_sink_url(&t), "rtmp://127.0.0.1:1935/live/stream?key=abc");
}

#[test]
fn test_detail_round_trip() {
    let t = extract_rtmp_stream_details(":1935/live/stream?key=abc").unwrap();
    assert_eq!(rtmp_detail_string(&t), ":1935/live/stream?key=abc");
}

#[test]
fn test_decimal_rendering() {
    assert_eq!(decimal_string(0), "0");
    assert_eq!(decimal_string(7), "7");
    assert_eq!(decimal_string(80), "80");
    assert_eq!(decimal_string(65535), "65535");
}
