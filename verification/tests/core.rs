use speer::{
    c_string, copy_key, count_from_code, cstr_from_public_key_bytes, event_data_len,
    optional_cstring, public_key_to_hex, result_from_code, Config, ConfigStrings,
    DisconnectReason, Error, EventType, PublicKey, MAX_PEERS, MAX_STREAMS, PUBLIC_KEY_SIZE,
};

#[test]
fn error_codes_map_to_variants() {
    assert_eq!(Error::from_code(-1), Error::InvalidParam);
    assert_eq!(Error::from_code(-2), Error::NoMemory);
    assert_eq!(Error::from_code(-3), Error::Network);
    assert_eq!(Error::from_code(-4), Error::Crypto);
    assert_eq!(Error::from_code(-5), Error::Handshake);
    assert_eq!(Error::from_code(-6), Error::Timeout);
    assert_eq!(Error::from_code(-7), Error::PeerNotFound);
    assert_eq!(Error::from_code(-8), Error::StreamClosed);
    assert_eq!(Error::from_code(-9), Error::BufferTooSmall);
}

#[test]
fn unknown_error_codes_are_kept() {
    assert_eq!(Error::from_code(-10), Error::Unknown(-10));
    assert_eq!(Error::from_code(0), Error::Unknown(0));
    assert_eq!(Error::from_code(7), Error::Unknown(7));
    assert_eq!(Error::from_code(i32::MIN), Error::Unknown(i32::MIN));
}

#[test]
fn result_from_code_splits_on_sign() {
    assert_eq!(result_from_code(0), Ok(()));
    assert_eq!(result_from_code(5), Ok(()));
    assert_eq!(result_from_code(-1), Err(Error::InvalidParam));
    assert_eq!(result_from_code(-9), Err(Error::BufferTooSmall));
    assert_eq!(result_from_code(-100), Err(Error::Unknown(-100)));
}

#[test]
fn count_from_code_gives_counts_or_errors() {
    assert_eq!(count_from_code(0), Ok(0));
    assert_eq!(count_from_code(1350), Ok(1350));
    assert_eq!(count_from_code(i32::MAX), Ok(i32::MAX as usize));
    assert_eq!(count_from_code(-8), Err(Error::StreamClosed));
    assert_eq!(count_from_code(-42), Err(Error::Unknown(-42)));
}

#[test]
fn error_messages() {
    assert_eq!(Error::InvalidParam.to_string(), "invalid parameter");
    assert_eq!(Error::NoMemory.to_string(), "out of memory");
    assert_eq!(Error::Network.to_string(), "network error");
    assert_eq!(Error::Crypto.to_string(), "crypto error");
    assert_eq!(Error::Handshake.to_string(), "handshake error");
    assert_eq!(Error::Timeout.to_string(), "timeout");
    assert_eq!(Error::PeerNotFound.to_string(), "peer not found");
    assert_eq!(Error::StreamClosed.to_string(), "stream closed");
    assert_eq!(Error::BufferTooSmall.to_string(), "buffer too small");
    assert_eq!(Error::Null.to_string(), "speer returned a null pointer");
    assert_eq!(Error::InteriorNul.to_string(), "string contains an interior NUL byte");
}

#[test]
fn unknown_error_message_holds_the_code() {
    assert_eq!(Error::Unknown(0).to_string(), "unknown speer error code 0");
    assert_eq!(Error::Unknown(7).to_string(), "unknown speer error code 7");
    assert_eq!(Error::Unknown(-42).to_string(), "unknown speer error code -42");
    assert_eq!(Error::Unknown(1234567).to_string(), "unknown speer error code 1234567");
    assert_eq!(
        Error::Unknown(i32::MIN).to_string(),
        format!("unknown speer error code {}", i32::MIN)
    );
    assert_eq!(
        Error::Unknown(i32::MAX).to_string(),
        format!("unknown speer error code {}", i32::MAX)
    );
}

#[test]
fn event_types_from_codes() {
    assert_eq!(EventType::from(0), EventType::NoEvent);
    assert_eq!(EventType::from(1), EventType::PeerConnected);
    assert_eq!(EventType::from(2), EventType::PeerDisconnected);
    assert_eq!(EventType::from(3), EventType::StreamOpened);
    assert_eq!(EventType::from(4), EventType::StreamData);
    assert_eq!(EventType::from(5), EventType::StreamClosed);
    assert_eq!(EventType::from(6), EventType::Error);
    assert_eq!(EventType::from(7), EventType::Unknown(7));
    assert_eq!(EventType::from(-1), EventType::Unknown(-1));
}

#[test]
fn disconnect_reasons_from_codes() {
    assert_eq!(DisconnectReason::from(0), DisconnectReason::Normal);
    assert_eq!(DisconnectReason::from(1), DisconnectReason::Timeout);
    assert_eq!(DisconnectReason::from(2), DisconnectReason::HandshakeFailed);
    assert_eq!(DisconnectReason::from(3), DisconnectReason::ProtocolError);
    assert_eq!(DisconnectReason::from(4), DisconnectReason::Application);
    assert_eq!(DisconnectReason::from(5), DisconnectReason::Unknown(5));
    assert_eq!(DisconnectReason::from(-3), DisconnectReason::Unknown(-3));
}

#[test]
fn event_payload_length() {
    assert_eq!(event_data_len(true, 10), 0);
    assert_eq!(event_data_len(false, 0), 0);
    assert_eq!(event_data_len(true, 0), 0);
    assert_eq!(event_data_len(false, 10), 10);
}

#[test]
fn default_config_matches_libspeer() {
    let config = Config::default();
    assert_eq!(config.bind_port, 0);
    assert_eq!(config.bind_address, None);
    assert_eq!(config.stun_server, None);
    assert_eq!(config.relay_server, None);
    assert_eq!(config.max_peers, 256);
    assert_eq!(config.max_streams, 1024);
    assert_eq!(config.max_peers as usize, MAX_PEERS);
    assert_eq!(config.max_streams as usize, MAX_STREAMS);
    assert_eq!(config.handshake_timeout_ms, 10_000);
    assert_eq!(config.keepalive_interval_ms, 5_000);
}

#[test]
fn c_string_appends_nul() {
    assert_eq!(c_string("abc"), Ok(b"abc\0".to_vec()));
    assert_eq!(c_string(""), Ok(vec![0u8]));
    assert_eq!(c_string("h\u{e9}"), Ok(vec![b'h', 0xc3, 0xa9, 0]));
}

#[test]
fn c_string_rejects_interior_nul() {
    assert_eq!(c_string("a\0b"), Err(Error::InteriorNul));
    assert_eq!(c_string("\0"), Err(Error::InteriorNul));
    assert_eq!(c_string("abc\0"), Err(Error::InteriorNul));
}

#[test]
fn optional_cstring_cases() {
    assert_eq!(optional_cstring(None), Ok(None));
    assert_eq!(optional_cstring(Some("1.2.3.4")), Ok(Some(b"1.2.3.4\0".to_vec())));
    assert_eq!(optional_cstring(Some("x\0")), Err(Error::InteriorNul));
}

#[test]
fn config_strings_copy_every_text() {
    let mut config = Config::default();
    config.bind_address = Some("0.0.0.0".to_string());
    config.relay_server = Some("relay.example:9000".to_string());
    let strings = ConfigStrings::new(&config).unwrap();
    assert_eq!(strings.bind_address, Some(b"0.0.0.0\0".to_vec()));
    assert_eq!(strings.stun_server, None);
    assert_eq!(strings.relay_server, Some(b"relay.example:9000\0".to_vec()));

    let none = ConfigStrings::new(&Config::default()).unwrap();
    assert_eq!(none.bind_address, None);
    assert_eq!(none.stun_server, None);
    assert_eq!(none.relay_server, None);
}

#[test]
fn config_strings_reject_nul_in_any_text() {
    let mut config = Config::default();
    config.stun_server = Some("stun\0server".to_string());
    assert!(matches!(ConfigStrings::new(&config), Err(Error::InteriorNul)));

    let mut config = Config::default();
    config.bind_address = Some("ok".to_string());
    config.relay_server = Some("\0".to_string());
    assert!(matches!(ConfigStrings::new(&config), Err(Error::InteriorNul)));
}

#[test]
fn default_config_strings_are_empty() {
    let strings = ConfigStrings::default();
    assert_eq!(strings.bind_address, None);
    assert_eq!(strings.stun_server, None);
    assert_eq!(strings.relay_server, None);
}

#[test]
fn public_key_hex_is_lowercase_two_digits_a_byte() {
    let mut key: PublicKey = [0u8; PUBLIC_KEY_SIZE];
    for (i, byte) in key.iter_mut().enumerate() {
        *byte = (i * 8) as u8;
    }
    key[31] = 0xff;
    let hex = public_key_to_hex(&key);
    let expected: String = key.iter().map(|b| format!("{b:02x}")).collect();
    assert_eq!(hex, expected);
    assert_eq!(hex.len(), 64);
    assert!(hex.starts_with("0008101820"));
    assert!(hex.ends_with("ff"));
}

#[test]
fn public_key_hex_of_constant_keys() {
    assert_eq!(public_key_to_hex(&[0u8; 32]), "0".repeat(64));
    assert_eq!(public_key_to_hex(&[0xabu8; 32]), "ab".repeat(32));
    assert_eq!(public_key_to_hex(&[0x0fu8; 32]), "0f".repeat(32));
}

#[test]
fn distinct_keys_give_distinct_hex() {
    let a = [1u8; 32];
    let mut b = [1u8; 32];
    b[17] = 0x10;
    assert_ne!(public_key_to_hex(&a), public_key_to_hex(&b));
}

#[test]
fn copy_key_copies_or_passes_none() {
    assert_eq!(copy_key(None), None);
    let bytes: Vec<u8> = (0..32u8).collect();
    let key = copy_key(Some(&bytes)).unwrap();
    assert_eq!(&key[..], &bytes[..]);
}

#[test]
fn cstr_stops_at_first_nul() {
    assert_eq!(cstr_from_public_key_bytes(b"abc\0def\0"), Some(&b"abc\0"[..]));
    assert_eq!(cstr_from_public_key_bytes(b"\0abc"), Some(&b"\0"[..]));
    assert_eq!(cstr_from_public_key_bytes(b"abc\0"), Some(&b"abc\0"[..]));
}

#[test]
fn cstr_needs_a_nul() {
    assert_eq!(cstr_from_public_key_bytes(b"abc"), None);
    assert_eq!(cstr_from_public_key_bytes(b""), None);
    assert_eq!(cstr_from_public_key_bytes(&[7u8; 32]), None);
}

#[test]
fn c_string_reads_back_whole() {
    let bytes = c_string("peer.example").unwrap();
    assert_eq!(cstr_from_public_key_bytes(&bytes), Some(&bytes[..]));
}

#[test]
fn distinct_errors_give_distinct_messages() {
    let errors = [
        Error::InvalidParam,
        Error::NoMemory,
        Error::Network,
        Error::Crypto,
        Error::Handshake,
        Error::Timeout,
        Error::PeerNotFound,
        Error::StreamClosed,
        Error::BufferTooSmall,
        Error::Null,
        Error::InteriorNul,
        Error::Unknown(0),
        Error::Unknown(-1),
        Error::Unknown(1),
        Error::Unknown(10),
        Error::Unknown(-10),
        Error::Unknown(i32::MIN),
        Error::Unknown(i32::MAX),
    ];
    for (i, a) in errors.iter().enumerate() {
        for (j, b) in errors.iter().enumerate() {
            assert_eq!(i == j, a.to_string() == b.to_string());
        }
    }
}
