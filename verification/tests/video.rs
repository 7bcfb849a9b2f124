//! Video frames.
use yard::video::{DecodedFrame, DecoderError, VideoCodec, VideoDecoder};

#[test]
fn test_video_codec_display_h264() {
    assert_eq!(VideoCodec::H264.label(), "H.264/AVC");
}

#[test]
fn test_video_codec_display_h265() {
    assert_eq!(VideoCodec::H265.label(), "H.265/HEVC");
}

#[test]
fn test_decoded_frame_new() {
    let data = vec![0u8; 1920 * 1080 * 4];
    let frame = DecodedFrame::new(data.clone(), 1920, 1080);
    assert_eq!(frame.width, 1920);
    assert_eq!(frame.height, 1080);
    assert_eq!(frame.x, 0);
    assert_eq!(frame.y, 0);
    assert_eq!(frame.stride, 1920 * 4);
    assert_eq!(frame.data.len(), 1920 * 1080 * 4);
    assert!(frame.timestamp.is_none());
}

#[test]
fn test_decoded_frame_with_position() {
    let data = vec![0u8; 100 * 100 * 4];
    let frame = DecodedFrame::with_position(data, 100, 100, 50, 75);
    assert_eq!(frame.width, 100);
    assert_eq!(frame.height, 100);
    assert_eq!(frame.x, 50);
    assert_eq!(frame.y, 75);
}

#[test]
fn test_decoded_frame_with_timestamp() {
    let data = vec![0u8; 100 * 100 * 4];
    let frame = DecodedFrame::new(data, 100, 100).with_timestamp(12345);
    assert_eq!(frame.timestamp, Some(12345));
}

#[test]
fn test_decoded_frame_expected_len() {
    let frame = DecodedFrame::new(vec![], 1920, 1080);
    assert_eq!(frame.expected_len(), 1920 * 1080 * 4);
}

#[test]
fn test_decoded_frame_is_valid() {
    let valid_data = vec![0u8; 100 * 100 * 4];
    let valid_frame = DecodedFrame::new(valid_data, 100, 100);
    assert!(valid_frame.is_valid());

    let invalid_frame = DecodedFrame::new(vec![0u8; 100], 100, 100);
    assert!(!invalid_frame.is_valid());
}

#[test]
fn test_decoder_error_display() {
    let err = DecoderError::UnsupportedCodec("VP9".to_string());
    assert!(err.message().contains("VP9"));
}

#[test]
fn test_decoder_error_variants() {
    let init_err = DecoderError::InitFailed("test".to_string());
    assert!(init_err.message().contains("initialize"));

    let decode_err = DecoderError::DecodeFailed("test".to_string());
    assert!(decode_err.message().contains("Decode"));

    let invalid_err = DecoderError::InvalidData("test".to_string());
    assert!(invalid_err.message().contains("Invalid"));
}

#[test]
fn test_decoder_stub_h264_returns_error() {
    let result = VideoDecoder::new(VideoCodec::H264, Err("no library".to_string()), false, Ok(()));
    assert!(result.is_err());
}

#[test]
fn test_decoder_stub_h265_returns_error() {
    let result = VideoDecoder::new(VideoCodec::H265, Err("no library".to_string()), false, Ok(()));
    assert!(result.is_err());
}
