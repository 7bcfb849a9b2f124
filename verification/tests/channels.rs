//! The audio thread and the virtual channels beyond single messages.
use yard::audin::pdu::AudinError;
use yard::audin::{AudinState, YardAudinHandler};
use yard::audio::error::AudioError;
use yard::audio::messages::{AudioFormat, FromAudio, ToAudio};
use yard::audio::ring_buffer::AudioRingBuffer;
use yard::audio::thread::{
    sample_format, shutdown_step, stub_handle, AudioAction, AudioEngine, SampleFormat,
    ShutdownStep, StubAction,
};
use yard::cliprdr::pdu::{
    unix_to_filetime, CliprdrError, CliprdrPdu, FormatDataResponsePdu,
};
use yard::cliprdr::{
    answer_file_read, ClipboardEvent, LocalFileInfo, YardCliprdrHandler,
};
use yard::rdpsnd::YardRdpsndHandler;
use yard::video::{DecodedFrame, DecoderError, FrameStep, Received, VideoCodec, VideoDecoder};

fn mono() -> AudioFormat {
    AudioFormat::new(48000, 1, 16)
}

#[test]
fn playback_starts_with_the_first_samples() {
    let mut engine = AudioEngine::new();
    let actions = engine.handle(ToAudio::PlayAudio { data: vec![1, 2, 3, 4], format: mono() });
    assert_eq!(actions.len(), 1);
    assert!(matches!(&actions[0], AudioAction::CreatePlayback(f) if *f == mono()));
    let actions = engine.handle(ToAudio::PlayAudio { data: vec![5, 6], format: mono() });
    assert!(actions.is_empty());
    let mut buf = [9u8; 8];
    let chunk = engine.fill_playback(&mut buf);
    assert_eq!(buf, [1, 2, 3, 4, 5, 6, 0, 0]);
    assert_eq!((chunk.size, chunk.stride), (6, 2));
}

#[test]
fn other_format_drops_what_was_to_be_played() {
    let mut engine = AudioEngine::new();
    engine.handle(ToAudio::PlayAudio { data: vec![1, 2, 3, 4], format: mono() });
    let stereo = AudioFormat::new(44100, 2, 16);
    engine.handle(ToAudio::PlayAudio { data: vec![7, 8], format: stereo });
    let mut buf = [9u8; 3];
    assert_eq!(engine.fill_playback(&mut buf).size, 2);
    assert_eq!(buf, [7, 8, 0]);
    match engine.handle(ToAudio::GetBufferStats).remove(0) {
        AudioAction::Send(FromAudio::BufferStats(stats)) => {
            assert_eq!(stats.bytes_written, 6);
            assert_eq!(stats.underruns, 1);
        }
        _ => panic!("Expected the statistics"),
    }
    assert!(engine.handle(ToAudio::ClearBuffer).is_empty());
    match engine.handle(ToAudio::GetBufferStats).remove(0) {
        AudioAction::Send(FromAudio::BufferStats(stats)) => assert_eq!(stats.bytes_written, 0),
        _ => panic!("Expected the statistics"),
    }
}

#[test]
fn captured_samples_are_cut_into_packets() {
    let mut engine = AudioEngine::new();
    let start = ToAudio::StartCapture { format: mono(), frames_per_packet: 2 };
    assert!(matches!(
        engine.handle(start)[0],
        AudioAction::CreateCapture { frames_per_packet: 2, .. }
    ));
    assert_eq!(engine.packet_size(), 4);
    assert!(engine.capture_samples(&[1, 2, 3], 3).is_empty());
    let out = engine.capture_samples(&[4, 5, 6, 7, 8, 9, 10], 6);
    let packets: Vec<&[u8]> = out
        .iter()
        .map(|r| match r {
            FromAudio::CapturedData { data, .. } => data.as_slice(),
            _ => panic!("Expected samples"),
        })
        .collect();
    assert_eq!(packets, vec![&[1u8, 2, 3, 4][..], &[5, 6, 7, 8][..]]);
    assert_eq!(engine.capture.frame_accumulator, vec![9]);
    let actions = engine.handle(ToAudio::StopCapture);
    assert!(matches!(actions[0], AudioAction::DisconnectCapture));
    assert!(matches!(actions[1], AudioAction::Send(FromAudio::CaptureStopped)));
    assert!(engine.handle(ToAudio::StopCapture).is_empty());
    assert!(engine.capture_samples(&[1, 2, 3, 4], 4).is_empty());
}

#[test]
fn end_of_the_audio_thread() {
    let mut engine = AudioEngine::new();
    engine.handle(ToAudio::StartCapture { format: mono(), frames_per_packet: 2 });
    let actions = engine.handle(ToAudio::Shutdown);
    assert_eq!(actions.len(), 4);
    assert!(matches!(actions[0], AudioAction::Send(FromAudio::CaptureStopped)));
    assert!(matches!(actions[3], AudioAction::Quit));
    assert!(!engine.running);
    let mut engine = AudioEngine::new();
    let actions = engine.handle_disconnected();
    assert_eq!(actions.len(), 1);
    assert!(matches!(actions[0], AudioAction::Quit));
}

#[test]
fn thread_without_an_audio_server() {
    assert!(matches!(stub_handle(&ToAudio::Shutdown), StubAction::Quit));
    let start = ToAudio::StartCapture { format: mono(), frames_per_packet: 2 };
    assert!(matches!(stub_handle(&start), StubAction::Send(FromAudio::CaptureError(s))
        if s == "PipeWire not available on this platform"));
    assert!(matches!(stub_handle(&ToAudio::ClearBuffer), StubAction::Ignore));
}

#[test]
fn waiting_for_the_audio_thread() {
    assert_eq!(shutdown_step(true, 5_000_000_000), ShutdownStep::Join);
    assert_eq!(shutdown_step(false, 2_000_000_000), ShutdownStep::Wait);
    assert_eq!(shutdown_step(false, 2_000_000_001), ShutdownStep::TimedOut);
    assert!(AudioError::ShutdownTimeout(2).message().contains('2'));
}

#[test]
fn sample_formats() {
    assert_eq!(sample_format(16), SampleFormat::S16LE);
    assert_eq!(sample_format(24), SampleFormat::S24LE);
    assert_eq!(sample_format(32), SampleFormat::S32LE);
    assert_eq!(sample_format(8), SampleFormat::S16LE);
}

#[test]
fn full_ring_keeps_the_newest_bytes() {
    let mut ring = AudioRingBuffer::new(8);
    assert_eq!(ring.capacity(), 1024);
    let data: Vec<u8> = (0..2000u32).map(|i| (i % 251) as u8).collect();
    assert_eq!(ring.push(&data), 1024);
    assert_eq!(ring.push(&[1, 2, 3]), 3);
    assert_eq!(ring.stats().overflows, 1);
    let mut out = vec![0u8; 1024];
    assert_eq!(ring.pop(&mut out), 1024);
    assert_eq!(out[..1021], data[979..]);
    assert_eq!(out[1021..], [1, 2, 3]);
    let mut out = vec![9u8; 2];
    assert_eq!(ring.pop(&mut out), 0);
    assert_eq!(out, vec![0, 0]);
}

fn format_bytes(channels: u16, rate: u32, bits: u16) -> Vec<u8> {
    let align = channels * bits / 8;
    let mut v = Vec::new();
    v.extend_from_slice(&1u16.to_le_bytes());
    v.extend_from_slice(&channels.to_le_bytes());
    v.extend_from_slice(&rate.to_le_bytes());
    v.extend_from_slice(&(rate * u32::from(align)).to_le_bytes());
    v.extend_from_slice(&align.to_le_bytes());
    v.extend_from_slice(&bits.to_le_bytes());
    v.extend_from_slice(&0u16.to_le_bytes());
    v
}

#[test]
fn microphone_channel_is_set_up() {
    let mut handler = YardAudinHandler::new(true, true);
    handler.start(7).unwrap();
    let out = handler.process(7, &[1, 1, 0, 0, 0]).unwrap();
    assert_eq!(out.len(), 1);
    assert_eq!(handler.state, AudinState::VersionExchanged);

    let formats = format_bytes(1, 44100, 16);
    let mut message = vec![2];
    message.extend_from_slice(&1u32.to_le_bytes());
    message.extend_from_slice(&((9 + formats.len()) as u32).to_le_bytes());
    message.extend_from_slice(&formats);
    handler.process(7, &message).unwrap();
    assert_eq!(handler.state, AudinState::FormatsNegotiated);

    let mut message = vec![3];
    message.extend_from_slice(&480u32.to_le_bytes());
    message.extend_from_slice(&0u32.to_le_bytes());
    message.extend_from_slice(&formats);
    handler.process(7, &message).unwrap();
    assert!(handler.is_listening());
    let commands = handler.take_commands();
    assert!(matches!(&commands[0], ToAudio::StartCapture { format, frames_per_packet: 480 }
        if *format == AudioFormat::new(44100, 1, 16)));

    let reports = vec![
        FromAudio::CapturedData { data: vec![1, 2], format: mono() },
        FromAudio::CaptureStopped,
    ];
    let out = handler.poll(reports, false);
    assert_eq!(out.len(), 2);
    assert_eq!(handler.state, AudinState::FormatsNegotiated);
    assert!(handler.poll(vec![FromAudio::CaptureStopped], true).is_empty());
    handler.close(7);
    assert_eq!(handler.state, AudinState::Closed);
}

#[test]
fn microphone_channel_refuses_what_it_cannot_read() {
    let mut handler = YardAudinHandler::new(true, true);
    assert!(handler.process(7, &[]).unwrap().is_empty());
    assert!(handler.process(7, &[0x7F]).is_err());
    let short: Result<_, AudinError> = handler.process(7, &[1, 0]);
    assert!(!short.unwrap_err().message().is_empty());
    assert_eq!(handler.state, AudinState::Initial);
}

#[test]
fn sound_of_the_server_is_played() {
    let mut handler = YardRdpsndHandler::new();
    handler.wave(0, 0, vec![1, 2, 3]);
    handler.set_volume(0xFFFF, 0xFFFF);
    let commands = handler.take_commands();
    assert!(matches!(&commands[0], ToAudio::PlayAudio { data, .. } if *data == vec![1, 2, 3]));
    assert!(matches!(commands[1], ToAudio::SetVolume(131070)));
    assert!(handler.take_commands().is_empty());
}

fn message(kind: u16, flags: u16, payload: &[u8]) -> Vec<u8> {
    let mut v = Vec::new();
    v.extend_from_slice(&kind.to_le_bytes());
    v.extend_from_slice(&flags.to_le_bytes());
    v.extend_from_slice(&(payload.len() as u32).to_le_bytes());
    v.extend_from_slice(payload);
    v
}

#[test]
fn text_crosses_the_clipboard() {
    let mut remote = YardCliprdrHandler::with_event_channel();
    remote.start();
    // The server is ready.
    let out = remote.process(&message(1, 0, &[])).unwrap();
    assert!(!out.is_empty());
    // It offers text in UTF-16.
    let mut offer = 13u32.to_le_bytes().to_vec();
    offer.extend_from_slice(&[0, 0]);
    remote.process(&message(2, 0, &offer)).unwrap();
    assert!(matches!(&remote.take_events()[0],
        ClipboardEvent::FormatsAvailable { has_text: true, .. }));
    assert!(remote.request_text_data().is_some());
    assert!(remote.has_pending_request());
    // It sends the text.
    let data = YardCliprdrHandler::utf8_to_utf16le_with_null("grüße\r\n");
    remote.process(&message(5, 1, &data)).unwrap();
    assert!(matches!(&remote.take_events()[0],
        ClipboardEvent::TextReceived { text } if text.starts_with("grüße")));
    assert!(!remote.has_pending_request());
}

#[test]
fn ansi_text_has_to_be_utf8() {
    let response = FormatDataResponsePdu::ok(vec![b'a', 0xFF, b'b', 0]);
    assert_eq!(response.as_utf8_from_ansi(), None);
    let response = FormatDataResponsePdu::ok(b"ab\0c".to_vec());
    assert_eq!(response.as_utf8_from_ansi(), Some("ab".to_string()));
}

#[test]
fn clipboard_messages_that_cannot_be_read() {
    assert!(matches!(CliprdrPdu::decode(&[1, 2, 3], true), Err(CliprdrError::PayloadTooShort { .. })));
    assert!(CliprdrPdu::decode(&message(0x77, 0, &[]), true).is_err());
    let mut handler = YardCliprdrHandler::new();
    assert!(handler.process(&message(0x77, 0, &[])).is_err());
}

#[test]
fn filetimes_count_from_1601() {
    assert_eq!(unix_to_filetime(0), 116_444_736_000_000_000);
    assert_eq!(unix_to_filetime(1), 116_444_736_010_000_000);
}

fn local_file(size: u64) -> LocalFileInfo {
    LocalFileInfo::from_metadata("/tmp/a".to_string().into(), Some("a".to_string()), size, Some(0), false)
        .unwrap()
}

#[test]
fn local_files_are_served() {
    let mut handler = YardCliprdrHandler::new();
    handler.start();
    handler.process(&message(1, 0, &[])).unwrap();
    handler.set_local_clipboard_files(vec![Some(local_file(10)), None]);
    assert_eq!(handler.local_clipboard_files().unwrap().len(), 1);
    // The size of the first file.
    let mut request = Vec::new();
    for n in [3u32, 0, 1, 0, 0, 8] {
        request.extend_from_slice(&n.to_le_bytes());
    }
    let out = handler.process(&message(8, 0, &request)).unwrap();
    assert_eq!(out.len(), 1);
    assert!(handler.take_file_reads().is_empty());
    // Four of its bytes.
    let mut request = Vec::new();
    for n in [4u32, 0, 2, 2, 0, 4] {
        request.extend_from_slice(&n.to_le_bytes());
    }
    assert!(handler.process(&message(8, 0, &request)).unwrap().is_empty());
    let reads = handler.take_file_reads();
    assert_eq!(reads.len(), 1);
    let answer = answer_file_read(&reads[0], Some(vec![1, 2, 3, 4]));
    assert_eq!(answer.size(), 8 + 4 + 4);
    let answer = answer_file_read(&reads[0], None);
    assert_eq!(answer.size(), 8 + 4);
}

#[test]
fn video_frames_are_converted() {
    let mut decoder = VideoDecoder::new(VideoCodec::H264, Ok(()), true, Ok(())).unwrap();
    assert_eq!(decoder.codec(), VideoCodec::H264);
    assert!(VideoDecoder::new(VideoCodec::H265, Err("no".to_string()), true, Ok(())).is_err());
    assert!(matches!(
        VideoDecoder::unavailable(),
        DecoderError::InitFailed(s) if s == "Video decoding requires Linux with FFmpeg"
    ));
    let frame = DecodedFrame::new(vec![0; 16], 2, 2).with_timestamp(5);
    assert!(frame.is_valid());
    assert_eq!(frame.expected_len(), 16);
    assert!(matches!(decoder.receive(Received::Again), Ok(FrameStep::Wait)));
    let arrived = || Received::Frame { width: 2, height: 2 };
    assert!(matches!(decoder.receive(arrived()), Ok(FrameStep::MakeScaler)));
    assert!(decoder.scaler_made(Ok(())).is_ok());
    assert_eq!(decoder.frame_width(), 2);
    assert!(matches!(decoder.receive(arrived()), Ok(FrameStep::Convert)));
    let frame = decoder.converted(Ok(vec![0; 16])).unwrap();
    assert_eq!((frame.width, frame.height), (2, 2));
    assert!(decoder.converted(Err("x".to_string())).is_err());
    assert!(decoder.receive(Received::Failed("x".to_string())).is_err());
}
