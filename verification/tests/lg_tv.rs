use lgtv_ip_control::constants::errors::{IntErrorKind, LgTvError};
use lgtv_ip_control::constants::types::{
    Apps, ConnectionType, EnergySavingLevels, Inputs, Keys, PictureModes, PowerStates,
    ScreenMuteModes, VolumeLevel,
};
use lgtv_ip_control::lg_tv::{
    decrypt_reply, encrypt_command, encryption_for_key, energy_saving_command, input_command,
    key_command, launch_app_command, mac_address_command, parse_current_app, parse_current_volume,
    parse_ip_control_state, parse_mute_state, picture_mode_command, screen_mute_command,
    volume_command, volume_mute_command,
};

/// Sends `command` through the encryption as the library and a TV would:
/// the TV reads the command, and answers with `response`.
fn round_trip(key: &str, command: &str, response: &str) -> String {
    let encryption = encryption_for_key(Some(key)).unwrap();
    let encrypted = encrypt_command(&encryption, command).unwrap();
    let received = decrypt_reply(&encryption, &encrypted).unwrap();
    assert_eq!(received, command);
    let answer = encrypt_command(&encryption, response).unwrap();
    decrypt_reply(&encryption, &answer).unwrap()
}

#[test]
fn test_get_current_volume_success() {
    let key = "TESTKEY123";
    let reply = round_trip(key, "CURRENT_VOL", "VOL:25");
    let vol = parse_current_volume(&reply).unwrap();
    assert_eq!(vol, 25);
}

#[test]
fn test_get_current_app_success() {
    let key = "TESTKEY123";
    let mock_response =
        "APP:netflix\nHot plug:yes\nSignal:true\nHDCP:2.2\nHDCP Status:authenticated";
    let reply = round_trip(key, "CURRENT_APP", mock_response);
    let app_details = parse_current_app(&reply).unwrap();
    assert_eq!(app_details.app, "netflix");
    assert_eq!(app_details.hdcp_version, "2.2");
}

#[test]
fn current_app_reads_every_field() {
    let details = parse_current_app(
        "APP:netflix\nHot plug:yes\nSignal:true\nHDCP:2.2\nHDCP Status:authenticated",
    )
    .unwrap();
    assert_eq!(details.app, "netflix");
    assert_eq!(details.hot_plug, "yes");
    assert_eq!(details.signal, "true");
    assert_eq!(details.hdcp_version, "2.2");
    assert_eq!(details.hdcp_status, "authenticated");
}

#[test]
fn current_app_empty_reply_means_power_off() {
    assert!(matches!(parse_current_app(""), Err(LgTvError::PowerOff)));
}

#[test]
fn current_app_last_pair_wins_and_missing_fields_are_empty() {
    let details = parse_current_app("APP:one APP:two").unwrap();
    assert_eq!(details.app, "two");
    assert_eq!(details.signal, "");
    let details = parse_current_app("  APP :a:b").unwrap();
    assert_eq!(details.app, "a:b");
    let details = parse_current_app("no pairs here").unwrap();
    assert_eq!(details.app, "");
}

#[test]
fn volume_reply_errors() {
    assert!(matches!(parse_current_volume("VOL:"), Err(LgTvError::ParseVolumeError)));
    assert!(matches!(parse_current_volume("VOL:2a"), Err(LgTvError::ParseVolumeError)));
    assert!(matches!(parse_current_volume("vol:25"), Err(LgTvError::ParseVolumeError)));
    assert!(matches!(
        parse_current_volume("VOL:300"),
        Err(LgTvError::ParseInt(IntErrorKind::PosOverflow))
    ));
    assert!(matches!(
        parse_current_volume("VOL:\u{0663}"),
        Err(LgTvError::ParseInt(IntErrorKind::InvalidDigit))
    ));
    assert_eq!(parse_current_volume("VOL:0255").unwrap(), 255);
    assert_eq!(parse_current_volume("VOL:0").unwrap(), 0);
}

#[test]
fn mute_and_ip_control_replies() {
    assert!(parse_mute_state("MUTE:on").unwrap());
    assert!(!parse_mute_state("MUTE:off").unwrap());
    assert!(matches!(parse_mute_state("MUTE:unknown"), Err(LgTvError::UnknownMuteState)));
    assert!(matches!(parse_mute_state("MUTE:ON"), Err(LgTvError::UnknownMuteState)));
    assert!(matches!(parse_mute_state("MUTE:"), Err(LgTvError::UnableToParseMuteState)));
    assert!(matches!(parse_mute_state("VOL:on"), Err(LgTvError::UnableToParseMuteState)));
    assert!(matches!(parse_mute_state(""), Err(LgTvError::UnableToParseMuteState)));
    assert!(parse_ip_control_state("ON"));
    assert!(!parse_ip_control_state("OFF"));
    assert!(!parse_ip_control_state("on"));
}

#[test]
fn commands_are_spelled_as_the_tv_expects() {
    assert_eq!(launch_app_command(Apps::Youtube), "APP_LAUNCH youtube.leanback.v4");
    assert_eq!(picture_mode_command(PictureModes::FilmMaker), "PICTURE_MODE filmMaker");
    assert_eq!(key_command(Keys::Back), "KEY_ACTION returnback");
    assert_eq!(key_command(Keys::OkButton), "KEY_ACTION ok");
    assert_eq!(screen_mute_command(ScreenMuteModes::AllMuteOff), "SCREEN_MUTE allmuteoff");
    assert_eq!(energy_saving_command(EnergySavingLevels::ScreenOff), "ENERGY_SAVING screenoff");
    assert_eq!(input_command(Inputs::Av), "INPUT_SELECT avav1");
    assert_eq!(volume_command(VolumeLevel::new(42).unwrap()), "VOLUME_CONTROL 42");
    assert_eq!(volume_command(VolumeLevel::new(100).unwrap()), "VOLUME_CONTROL 100");
    assert_eq!(volume_command(VolumeLevel::new(0).unwrap()), "VOLUME_CONTROL 0");
    assert_eq!(volume_mute_command(true), "VOLUME_MUTE on");
    assert_eq!(volume_mute_command(false), "VOLUME_MUTE off");
    assert_eq!(mac_address_command(ConnectionType::Wired), "GET_MACADDRESS Wired");
    assert_eq!(mac_address_command(ConnectionType::Wifi), "GET_MACADDRESS Wifi");
    assert_eq!(PowerStates::Unknown.as_str(), "unknown");
}

#[test]
fn missing_key_code_is_refused() {
    assert!(matches!(encryption_for_key(None), Err(LgTvError::MissingKeyCode)));
}

#[test]
fn terminator_in_command_is_refused() {
    let encryption = encryption_for_key(Some("TESTKEY123")).unwrap();
    match encrypt_command(&encryption, "POWER\roff") {
        Err(LgTvError::EncryptionError(msg)) => {
            assert_eq!(msg, "message must not include the message terminator character")
        }
        _ => panic!("the terminator was accepted"),
    }
}

#[test]
fn short_or_garbled_replies_give_decryption_errors() {
    let encryption = encryption_for_key(Some("TESTKEY123")).unwrap();
    match decrypt_reply(&encryption, &[1, 2, 3]) {
        Err(LgTvError::DecryptionError(msg)) => {
            assert_eq!(msg, "reply is shorter than the encrypted IV")
        }
        other => panic!("unexpected {:?}", other),
    }
    // Not a whole number of blocks after the IV: OpenSSL refuses it.
    assert!(matches!(decrypt_reply(&encryption, &[0u8; 20]), Err(LgTvError::DecryptionError(_))));
}

#[test]
fn keys_are_trimmed_of_unicode_whitespace() {
    let details = parse_current_app("\u{3000}APP\u{85}:tv HDCP\u{2028}:1.4").unwrap();
    assert_eq!(details.app, "tv");
    assert_eq!(details.hdcp_version, "1.4");
}

#[test]
fn error_messages() {
    assert_eq!(LgTvError::MissingKeyCode.message(), "key code is required");
    assert_eq!(
        LgTvError::TcpConnectionError("refused".to_string()).message(),
        "tcp connection error: refused"
    );
    assert_eq!(
        LgTvError::ParseInt(IntErrorKind::PosOverflow).message(),
        "could not parse integer: number too large to fit in target type"
    );
    assert_eq!(LgTvError::UnknownMuteState.message(), "No matches found for mute state");
}
