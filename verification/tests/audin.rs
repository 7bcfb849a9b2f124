//! The audio input channel.
use yard::audin::pdu::{
    AudinPdu, ClientSoundFormats, DataIncoming, DataPdu, FormatChange, MessageType, OpenReply,
    VersionPdu,
};
use yard::audin::{
    create_audin_client, supported_formats, AudinState, YardAudinHandler, AUDIN_CHANNEL_NAME,
};
use yard::audio::messages::{AudioFormat, FromAudio, ToAudio};

#[test]
fn mod_test_supported_formats_valid() {
    for format in supported_formats() {
        assert!(format.sample_rate > 0);
        assert!(format.channels > 0);
        assert!(format.bits_per_sample > 0);
    }
}

#[test]
fn test_handler_creation() {
    let handler = YardAudinHandler::new(false, false);
    assert_eq!(handler.state, AudinState::Initial);
    assert!(handler.channel_id.is_none());
}

#[test]
fn test_handler_channel_name() {
    let handler = YardAudinHandler::new(false, false);
    assert_eq!(handler.channel_name(), AUDIN_CHANNEL_NAME);
}

#[test]
fn test_handler_start() {
    let mut handler = YardAudinHandler::new(false, false);
    let result = handler.start(42);
    assert!(result.is_ok());
    assert_eq!(handler.channel_id, Some(42));
}

#[test]
fn mod_test_from_audio_captured_data() {
    let msg = FromAudio::CapturedData {
        data: vec![0u8; 1024],
        format: AudioFormat::default(),
    };
    if let FromAudio::CapturedData { data, format } = msg {
        assert_eq!(data.len(), 1024);
        assert_eq!(format.sample_rate, 48000);
    } else {
        panic!("Expected CapturedData variant");
    }
}

#[test]
fn mod_test_to_audio_start_capture() {
    let msg = ToAudio::StartCapture {
        format: AudioFormat::new(48000, 1, 16),
        frames_per_packet: 480,
    };
    if let ToAudio::StartCapture {
        format,
        frames_per_packet,
    } = msg
    {
        assert_eq!(format.sample_rate, 48000);
        assert_eq!(format.channels, 1);
        assert_eq!(frames_per_packet, 480);
    } else {
        panic!("Expected StartCapture variant");
    }
}

#[test]
fn test_poll_empty_when_not_capturing() {
    let mut handler = YardAudinHandler::new(false, false);
    let messages = handler.poll(Vec::new(), false);
    assert!(messages.is_empty());
}

#[test]
fn test_handler_process_version_pdu() {
    let mut handler = YardAudinHandler::new(false, false);
    handler.start(1).unwrap();

    // Simulate receiving Version PDU from server
    let version_data = vec![0x01, 0x01, 0x00, 0x00, 0x00]; // MessageType::Version, version=1
    let result = handler.process(1, &version_data);
    assert!(result.is_ok());

    // Handler should respond with version PDU
    let messages = result.unwrap();
    assert_eq!(messages.len(), 1);

    // State should advance to VersionExchanged
    assert_eq!(handler.state, AudinState::VersionExchanged);
}

#[test]
fn test_handler_close() {
    let mut handler = YardAudinHandler::new(false, false);
    handler.start(1).unwrap();

    handler.close(1);
    assert_eq!(handler.state, AudinState::Closed);
    assert!(handler.channel_id.is_none());
}

#[test]
fn test_create_audin_client() {
    let handler = create_audin_client(false, false);
    assert_eq!(handler.channel_name(), AUDIN_CHANNEL_NAME);
}

#[test]
fn mod_test_to_audio_stop_capture() {
    let msg = ToAudio::StopCapture;
    assert!(matches!(msg, ToAudio::StopCapture));
}

#[test]
fn mod_test_from_audio_capture_error() {
    let msg = FromAudio::CaptureError("Permission denied".to_string());
    if let FromAudio::CaptureError(err) = msg {
        assert_eq!(err, "Permission denied");
    } else {
        panic!("Expected CaptureError variant");
    }
}

#[test]
fn mod_test_from_audio_capture_stopped() {
    let msg = FromAudio::CaptureStopped;
    assert!(matches!(msg, FromAudio::CaptureStopped));
}

#[test]
fn test_handler_poll_not_capturing_with_channel() {
    let mut handler = YardAudinHandler::new(false, false);
    handler.start(1).unwrap();

    // State is Initial, not Capturing, so poll should return empty
    let messages = handler.poll(Vec::new(), false);
    assert!(messages.is_empty());
}

#[test]
fn test_message_type_conversion() {
    assert_eq!(MessageType::try_from(0x01).unwrap(), MessageType::Version);
    assert_eq!(
        MessageType::try_from(0x02).unwrap(),
        MessageType::SoundFormats
    );
    assert_eq!(MessageType::try_from(0x03).unwrap(), MessageType::Open);
    assert_eq!(MessageType::try_from(0x04).unwrap(), MessageType::OpenReply);
    assert_eq!(
        MessageType::try_from(0x05).unwrap(),
        MessageType::DataIncoming
    );
    assert_eq!(MessageType::try_from(0x06).unwrap(), MessageType::Data);
    assert_eq!(
        MessageType::try_from(0x07).unwrap(),
        MessageType::FormatChange
    );
    assert!(MessageType::try_from(0xFF).is_err());
}

#[test]
fn test_version_pdu_encode_decode() {
    let pdu = VersionPdu::new(1);
    let encoded = pdu.encode().unwrap();
    assert_eq!(encoded[0], MessageType::Version.as_u8());
    assert_eq!(encoded.len(), 5);

    let decoded = VersionPdu::decode(&encoded[1..]).unwrap();
    assert_eq!(decoded.version, 1);
}

#[test]
fn test_open_reply_encode() {
    let reply = OpenReply::success();
    let encoded = reply.encode().unwrap();
    assert_eq!(encoded[0], MessageType::OpenReply.as_u8());
    assert_eq!(encoded.len(), 5);
    assert_eq!(
        u32::from_le_bytes([encoded[1], encoded[2], encoded[3], encoded[4]]),
        0
    );
}

#[test]
fn test_data_incoming_encode() {
    let pdu = DataIncoming;
    let encoded = pdu.encode().unwrap();
    assert_eq!(encoded.len(), 1);
    assert_eq!(encoded[0], MessageType::DataIncoming.as_u8());
}

#[test]
fn test_data_pdu_encode() {
    let data = vec![0x01, 0x02, 0x03, 0x04];
    let pdu = DataPdu::new(data.clone());
    let encoded = pdu.encode().unwrap();
    assert_eq!(encoded[0], MessageType::Data.as_u8());
    assert_eq!(&encoded[1..], &data);
}

#[test]
fn test_format_change_encode_decode() {
    let pdu = FormatChange::new(42);
    let encoded = pdu.encode().unwrap();
    assert_eq!(encoded[0], MessageType::FormatChange.as_u8());
    assert_eq!(encoded.len(), 5);

    let decoded = FormatChange::decode(&encoded[1..]).unwrap();
    assert_eq!(decoded.new_format, 42);
}

#[test]
fn test_client_sound_formats_encode() {
    let formats = vec![
        AudioFormat::new(48000, 1, 16),
        AudioFormat::new(44100, 2, 16),
    ];
    let pdu = ClientSoundFormats::new(&formats);
    let encoded = pdu.encode().unwrap();

    assert_eq!(encoded[0], MessageType::SoundFormats.as_u8());
    // NumFormats should be 2
    let num_formats = u32::from_le_bytes([encoded[1], encoded[2], encoded[3], encoded[4]]);
    assert_eq!(num_formats, 2);
}

#[test]
fn test_audin_pdu_decode_version() {
    let data = vec![0x01, 0x01, 0x00, 0x00, 0x00]; // Version PDU, version=1
    let pdu = AudinPdu::decode(&data).unwrap();
    if let AudinPdu::Version(v) = pdu {
        assert_eq!(v.version, 1);
    } else {
        panic!("Expected Version PDU");
    }
}

#[test]
fn test_audin_pdu_decode_format_change() {
    let data = vec![0x07, 0x05, 0x00, 0x00, 0x00]; // FormatChange PDU, new_format=5
    let pdu = AudinPdu::decode(&data).unwrap();
    if let AudinPdu::FormatChange { new_format } = pdu {
        assert_eq!(new_format, 5);
    } else {
        panic!("Expected FormatChange PDU");
    }
}
