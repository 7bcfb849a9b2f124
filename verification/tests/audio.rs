//! Audio formats, commands and buffers.
use yard::audio::messages::{AudioFormat, FromAudio, ToAudio, FULL_VOLUME};
use yard::audio::ring_buffer::{AudioRingBuffer, RingBufferStats, DEFAULT_BUFFER_CAPACITY};

#[test]
fn test_audio_format_new() {
    let format = AudioFormat::new(48000, 2, 16);
    assert_eq!(format.sample_rate, 48000);
    assert_eq!(format.channels, 2);
    assert_eq!(format.bits_per_sample, 16);
}

#[test]
fn test_audio_format_cd_quality() {
    let format = AudioFormat::cd_quality();
    assert_eq!(format.sample_rate, 44100);
    assert_eq!(format.channels, 2);
    assert_eq!(format.bits_per_sample, 16);
}

#[test]
fn test_audio_format_dvd_quality() {
    let format = AudioFormat::dvd_quality();
    assert_eq!(format.sample_rate, 48000);
    assert_eq!(format.channels, 2);
    assert_eq!(format.bits_per_sample, 16);
}

#[test]
fn test_audio_format_default() {
    let format = AudioFormat::default();
    assert_eq!(format, AudioFormat::dvd_quality());
}

#[test]
fn test_to_audio_shutdown() {
    let msg = ToAudio::Shutdown;
    assert!(matches!(msg, ToAudio::Shutdown));
}

#[test]
fn test_to_audio_play_audio() {
    let msg = ToAudio::PlayAudio {
        data: vec![0u8; 1024],
        format: AudioFormat::default(),
    };
    if let ToAudio::PlayAudio { data, format } = msg {
        assert_eq!(data.len(), 1024);
        assert_eq!(format.sample_rate, 48000);
    } else {
        panic!("Expected PlayAudio variant");
    }
}

#[test]
fn test_to_audio_set_volume() {
    let msg = ToAudio::SetVolume(FULL_VOLUME / 2);
    if let ToAudio::SetVolume(vol) = msg {
        assert!((vol as f32 / FULL_VOLUME as f32 - 0.5).abs() < f32::EPSILON);
    } else {
        panic!("Expected SetVolume variant");
    }
}

#[test]
fn messages_test_to_audio_start_capture() {
    let msg = ToAudio::StartCapture {
        format: AudioFormat::new(48000, 1, 16),
        frames_per_packet: 480,
    };
    if let ToAudio::StartCapture {
        format,
        frames_per_packet,
    } = msg
    {
        assert_eq!(format.sample_rate, 48000);
        assert_eq!(format.channels, 1);
        assert_eq!(frames_per_packet, 480);
    } else {
        panic!("Expected StartCapture variant");
    }
}

#[test]
fn messages_test_to_audio_stop_capture() {
    let msg = ToAudio::StopCapture;
    assert!(matches!(msg, ToAudio::StopCapture));
}

#[test]
fn messages_test_from_audio_captured_data() {
    let msg = FromAudio::CapturedData {
        data: vec![0u8; 1024],
        format: AudioFormat::new(48000, 1, 16),
    };
    if let FromAudio::CapturedData { data, format } = msg {
        assert_eq!(data.len(), 1024);
        assert_eq!(format.sample_rate, 48000);
        assert_eq!(format.channels, 1);
    } else {
        panic!("Expected CapturedData variant");
    }
}

#[test]
fn messages_test_from_audio_capture_error() {
    let msg = FromAudio::CaptureError("Permission denied".to_string());
    if let FromAudio::CaptureError(err) = msg {
        assert_eq!(err, "Permission denied");
    } else {
        panic!("Expected CaptureError variant");
    }
}

#[test]
fn messages_test_from_audio_capture_stopped() {
    let msg = FromAudio::CaptureStopped;
    assert!(matches!(msg, FromAudio::CaptureStopped));
}

#[test]
fn test_to_audio_get_buffer_stats() {
    let msg = ToAudio::GetBufferStats;
    assert!(matches!(msg, ToAudio::GetBufferStats));
}

#[test]
fn test_to_audio_clear_buffer() {
    let msg = ToAudio::ClearBuffer;
    assert!(matches!(msg, ToAudio::ClearBuffer));
}

#[test]
fn test_from_audio_buffer_stats() {
    let stats = RingBufferStats::default();
    let msg = FromAudio::BufferStats(stats);
    assert!(matches!(msg, FromAudio::BufferStats(_)));
}

#[test]
fn test_new_rounds_to_power_of_two() {
    let mut buf = AudioRingBuffer::new(50000);
    assert_eq!(buf.capacity(), 65536); // 2^16

    let mut buf = AudioRingBuffer::new(1000);
    assert_eq!(buf.capacity(), 1024); // 2^10 (minimum)

    let mut buf = AudioRingBuffer::new(65536);
    assert_eq!(buf.capacity(), 65536); // Already power of 2
}

#[test]
fn test_default_capacity() {
    let buf = AudioRingBuffer::with_default_capacity();
    assert_eq!(buf.capacity(), DEFAULT_BUFFER_CAPACITY);
}

#[test]
fn test_empty_buffer() {
    let mut buf = AudioRingBuffer::new(1024);
    assert!(buf.is_empty());
    assert!(!buf.is_full());
    assert_eq!(buf.available_read(), 0);
    assert_eq!(buf.available_write(), 1024);
}

#[test]
fn test_basic_push_pop() {
    let mut buf = AudioRingBuffer::new(1024);

    // Push some data
    let data = [1u8, 2, 3, 4, 5];
    let written = buf.push(&data);
    assert_eq!(written, 5);
    assert_eq!(buf.available_read(), 5);

    // Pop data
    let mut output = [0u8; 5];
    let read = buf.pop(&mut output);
    assert_eq!(read, 5);
    assert_eq!(output, [1, 2, 3, 4, 5]);
    assert!(buf.is_empty());
}

#[test]
fn test_wraparound() {
    let mut buf = AudioRingBuffer::new(1024);

    // Fill most of the buffer
    let data = vec![0xAA; 900];
    buf.push(&data);

    // Pop most of it
    let mut output = [0u8; 800];
    buf.pop(&mut output);

    // Now push data that wraps around
    let wrap_data = vec![0xBB; 500];
    let written = buf.push(&wrap_data);
    assert_eq!(written, 500);

    // Verify we can read it back correctly
    let mut result = [0u8; 600];
    let read = buf.pop(&mut result);
    assert_eq!(read, 600); // 100 remaining + 500 new

    // First 100 bytes should be 0xAA (leftover)
    assert!(result[..100].iter().all(|&b| b == 0xAA));
    // Next 500 bytes should be 0xBB (new data)
    assert!(result[100..600].iter().all(|&b| b == 0xBB));
}

#[test]
fn test_overflow_drops_oldest() {
    let mut buf = AudioRingBuffer::new(1024);

    // Fill the buffer completely
    let data = vec![0xAA; 1024];
    buf.push(&data);
    assert!(buf.is_full());

    // Push more data - should overflow
    let new_data = vec![0xBB; 100];
    buf.push(&new_data);

    // Check overflow was recorded
    let stats = buf.stats();
    assert_eq!(stats.overflows, 1);

    // Buffer should still be full with newest data
    assert!(buf.is_full());

    // Read all data - oldest should have been dropped
    let mut output = vec![0u8; 1024];
    buf.pop(&mut output);

    // Last 100 bytes should be 0xBB (new data)
    assert!(output[924..].iter().all(|&b| b == 0xBB));
}

#[test]
fn test_underrun_fills_silence() {
    let mut buf = AudioRingBuffer::new(1024);

    // Push only 50 bytes
    let data = vec![0xFF; 50];
    buf.push(&data);

    // Try to read 100 bytes
    let mut output = vec![0xAA; 100]; // Pre-fill with non-zero
    let read = buf.pop(&mut output);

    assert_eq!(read, 50); // Only 50 bytes actually read
    assert!(output[..50].iter().all(|&b| b == 0xFF)); // Data
    assert!(output[50..].iter().all(|&b| b == 0)); // Silence

    // Check underrun was recorded
    let stats = buf.stats();
    assert_eq!(stats.underruns, 1);
}

#[test]
fn ring_buffer_test_clear() {
    let mut buf = AudioRingBuffer::new(1024);

    // Add some data
    let data = vec![1u8; 500];
    buf.push(&data);
    assert!(!buf.is_empty());

    // Clear
    buf.clear();
    assert!(buf.is_empty());
    assert_eq!(buf.available_read(), 0);
}

#[test]
fn test_stats() {
    let mut buf = AudioRingBuffer::new(1024);

    let data = vec![1u8; 100];
    buf.push(&data);

    let mut output = [0u8; 50];
    buf.pop(&mut output);

    let stats = buf.stats();
    assert_eq!(stats.bytes_written, 100);
    assert_eq!(stats.bytes_read, 50);
    assert_eq!(stats.current_fill, 50);
    assert_eq!(stats.capacity, 1024);
}

#[test]
fn test_reset_stats() {
    let mut buf = AudioRingBuffer::new(1024);

    // Generate some stats
    let data = vec![1u8; 100];
    buf.push(&data);
    let mut output = [0u8; 200]; // Will cause underrun
    buf.pop(&mut output);

    let stats = buf.stats();
    assert!(stats.bytes_written > 0);
    assert!(stats.underruns > 0);

    // Reset
    buf.reset_stats();
    let stats = buf.stats();
    assert_eq!(stats.bytes_written, 0);
    assert_eq!(stats.bytes_read, 0);
    assert_eq!(stats.overflows, 0);
    assert_eq!(stats.underruns, 0);
}

#[test]
fn test_empty_push_pop() {
    let mut buf = AudioRingBuffer::new(1024);

    // Empty push should return 0
    assert_eq!(buf.push(&[]), 0);

    // Empty pop should return 0
    let mut empty: [u8; 0] = [];
    assert_eq!(buf.pop(&mut empty), 0);
}

#[test]
fn test_data_larger_than_capacity() {
    let mut buf = AudioRingBuffer::new(1024);

    // Try to push data larger than buffer capacity
    let large_data = vec![0xCC; 2000];
    let written = buf.push(&large_data);

    // Should only write up to capacity
    assert_eq!(written, 1024);

    // Buffer should be full
    assert!(buf.is_full());

    // Verify we can read the data (last 1024 bytes of input)
    let mut output = vec![0u8; 1024];
    let read = buf.pop(&mut output);
    assert_eq!(read, 1024);
    assert!(output.iter().all(|&b| b == 0xCC));
}

#[test]
fn test_audio_format_creation() {
    let format = AudioFormat::new(48000, 2, 16);
    assert_eq!(format.sample_rate, 48000);
}

#[test]
fn test_to_audio_message_variants() {
    let shutdown = ToAudio::Shutdown;
    assert!(matches!(shutdown, ToAudio::Shutdown));

    let play = ToAudio::PlayAudio {
        data: vec![0; 100],
        format: AudioFormat::default(),
    };
    assert!(matches!(play, ToAudio::PlayAudio { .. }));

    let volume = ToAudio::SetVolume(FULL_VOLUME / 2);
    assert!(matches!(volume, ToAudio::SetVolume(_)));

    let start_capture = ToAudio::StartCapture {
        format: AudioFormat::new(48000, 1, 16),
        frames_per_packet: 480,
    };
    assert!(matches!(start_capture, ToAudio::StartCapture { .. }));

    let stop_capture = ToAudio::StopCapture;
    assert!(matches!(stop_capture, ToAudio::StopCapture));
}
