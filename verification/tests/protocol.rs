use wt_video_server::protocol::{Command, ProtocolError, Reply};
use wt_video_server::text::{bytes_equal, decode, str_equal, utf8_bytes, white_space};

#[test]
fn white_space_is_what_std_calls_whitespace() {
    let mut code: u32 = 0;
    while code <= 0x10FFFF {
        if let Some(c) = char::from_u32(code) {
            assert_eq!(white_space(c), c.is_whitespace(), "U+{:04X}", code);
        }
        code += 1;
    }
}

#[test]
fn white_space_samples() {
    for c in ['\t', '\n', '\u{0B}', '\u{0C}', '\r', ' ', '\u{85}', '\u{A0}', '\u{1680}', '\u{2000}',
        '\u{200A}', '\u{2028}', '\u{2029}', '\u{202F}', '\u{205F}', '\u{3000}']
    {
        assert!(white_space(c));
    }
    for c in ['a', 'S', '_', '0', '\u{08}', '\u{0E}', '\u{1F}', '\u{180E}', '\u{200B}', '\u{FEFF}'] {
        assert!(!white_space(c));
    }
}

#[test]
fn start_video_is_recognised() {
    assert_eq!(Command::parse(b"START_VIDEO"), Ok(Command::StartVideo));
    assert_eq!(Command::StartVideo.reply(), Reply::StartingVideo);
    assert_eq!(Reply::StartingVideo.payload(), b"STARTING_VIDEO".to_vec());
}

#[test]
fn get_metadata_is_recognised() {
    assert_eq!(Command::parse(b"GET_METADATA"), Ok(Command::GetMetadata));
    assert_eq!(Command::GetMetadata.reply(), Reply::Metadata);
}

#[test]
fn metadata_reply_is_a_json_object_with_file_and_size() {
    let payload = Reply::Metadata.payload();
    assert_eq!(payload, b"{\"file\":\"test_video.mp4\",\"size\":1048576}".to_vec());
    let value: serde_json::Value = serde_json::from_slice(&payload).unwrap();
    let object = value.as_object().unwrap();
    assert_eq!(object.len(), 2);
    assert_eq!(object.get("file").unwrap().as_str(), Some("test_video.mp4"));
    assert_eq!(object.get("size").unwrap().as_u64(), Some(1048576));
}

#[test]
fn other_tokens_are_unknown() {
    for text in ["HELLO", "start_video", "START_VIDEO!", "START VIDEO", "GET_METADATA2", "ACK", "x"] {
        assert_eq!(Command::parse(text.as_bytes()), Ok(Command::Unknown), "{}", text);
    }
    assert_eq!(Command::Unknown.reply(), Reply::Ack);
    assert_eq!(Reply::Ack.payload(), b"ACK".to_vec());
}

#[test]
fn empty_and_blank_tokens_are_unknown() {
    assert_eq!(Command::parse(b""), Ok(Command::Unknown));
    assert_eq!(Command::parse(b"   \r\n\t"), Ok(Command::Unknown));
}

#[test]
fn surrounding_white_space_is_trimmed() {
    assert_eq!(Command::parse(b"  START_VIDEO\r\n"), Ok(Command::StartVideo));
    assert_eq!(Command::parse(b"\tGET_METADATA "), Ok(Command::GetMetadata));
    assert_eq!(Command::parse("\u{A0}GET_METADATA\u{3000}".as_bytes()), Ok(Command::GetMetadata));
    assert_eq!(Command::parse("\u{2003}START_VIDEO\u{85}".as_bytes()), Ok(Command::StartVideo));
}

#[test]
fn inner_white_space_and_look_alikes_are_kept() {
    assert_eq!(Command::parse(b"START_ VIDEO"), Ok(Command::Unknown));
    assert_eq!(Command::parse("\u{200B}START_VIDEO".as_bytes()), Ok(Command::Unknown));
    assert_eq!(Command::parse("START_VIDEO\u{FEFF}".as_bytes()), Ok(Command::Unknown));
    assert_eq!(Command::parse(b"START_VIDEO\0"), Ok(Command::Unknown));
}

#[test]
fn malformed_utf8_is_an_error() {
    assert_eq!(Command::parse(&[0xff]), Err(ProtocolError::MalformedUtf8));
    assert_eq!(Command::parse(&[0xc0, 0x80]), Err(ProtocolError::MalformedUtf8));
    assert_eq!(Command::parse(&[0xed, 0xa0, 0x80]), Err(ProtocolError::MalformedUtf8));
    assert_eq!(Command::parse(b"START_VIDEO\xe2\x82"), Err(ProtocolError::MalformedUtf8));
    assert_eq!(Command::parse(&[0xf4, 0x90, 0x80, 0x80]), Err(ProtocolError::MalformedUtf8));
}

#[test]
fn from_token_matches_exactly() {
    assert_eq!(Command::from_token("START_VIDEO"), Command::StartVideo);
    assert_eq!(Command::from_token("GET_METADATA"), Command::GetMetadata);
    assert_eq!(Command::from_token(" START_VIDEO"), Command::Unknown);
    assert_eq!(Command::from_token("START_VIDE"), Command::Unknown);
    assert_eq!(Command::from_token(""), Command::Unknown);
}

#[test]
fn replies_on_the_wire() {
    assert_eq!(Reply::StartingVideo.as_str(), "STARTING_VIDEO");
    assert_eq!(Reply::Ack.as_str(), "ACK");
    assert_eq!(Reply::AckUni.as_str(), "ACK_UNI");
    assert_eq!(Reply::AckDatagram.as_str(), "ACK_DGRAM");
    assert_eq!(Reply::Metadata.as_str(), "{\"file\":\"test_video.mp4\",\"size\":1048576}");
    assert_eq!(Reply::AckUni.payload(), vec![0x41, 0x43, 0x4b, 0x5f, 0x55, 0x4e, 0x49]);
    assert_eq!(Reply::AckDatagram.payload(), b"ACK_DGRAM".to_vec());
    assert_eq!(Reply::Ack.payload(), vec![0x41, 0x43, 0x4b]);
}

#[test]
fn decode_tells_utf8_apart() {
    assert_eq!(decode(b"plain"), Some("plain"));
    assert_eq!(decode("h\u{e9}llo \u{1F600}".as_bytes()), Some("h\u{e9}llo \u{1F600}"));
    assert_eq!(decode(b""), Some(""));
    assert_eq!(decode(&[0x80]), None);
    assert_eq!(decode(&[0x61, 0xe2, 0x28, 0xa1]), None);
}

#[test]
fn equality_of_bytes_and_strings() {
    assert!(bytes_equal(b"", b""));
    assert!(bytes_equal(b"abc", b"abc"));
    assert!(!bytes_equal(b"abc", b"abd"));
    assert!(!bytes_equal(b"abc", b"ab"));
    assert!(!bytes_equal(b"", b"a"));
    assert!(str_equal("true", "true"));
    assert!(!str_equal("true", "True"));
    assert!(!str_equal("true", "true "));
    assert!(str_equal("\u{e9}", "\u{e9}"));
    assert!(!str_equal("\u{e9}", "e\u{301}"));
}

#[test]
fn utf8_bytes_of_text() {
    assert_eq!(utf8_bytes(""), Vec::<u8>::new());
    assert_eq!(utf8_bytes("A\u{e9}\u{20AC}\u{1F600}"), vec![
        0x41, 0xc3, 0xa9, 0xe2, 0x82, 0xac, 0xf0, 0x9f, 0x98, 0x80,
    ]);
}
