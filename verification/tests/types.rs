use lgtv_ip_control::constants::types::{Apps, EnergySavingLevels, Inputs, Keys, PictureModes, PowerStates, ScreenMuteModes, VolumeLevel};
use lgtv_ip_control::tcp_connection::{
    create_magic_packet, tcp_address, wake_on_lan_bind_address, wake_on_lan_target,
};

#[test]
fn volume_level_accepts_zero_to_one_hundred() {
    assert_eq!(VolumeLevel::new(0).unwrap().value(), VolumeLevel::MIN);
    assert_eq!(VolumeLevel::new(100).unwrap().value(), VolumeLevel::MAX);
    assert_eq!(VolumeLevel::new(37).unwrap().value(), 37);
    assert_eq!(VolumeLevel::new(101).unwrap_err(), "volume level must be between 0 and 100");
    assert_eq!(VolumeLevel::try_from(255u8).unwrap_err(), "volume level must be between 0 and 100");
    assert_eq!(VolumeLevel::try_from(55u8).unwrap(), VolumeLevel::new(55).unwrap());
    assert_eq!(u8::from(VolumeLevel::new(64).unwrap()), 64);
    assert!(VolumeLevel::new(3).unwrap() < VolumeLevel::new(4).unwrap());
}

#[test]
fn names_of_the_vocabulary() {
    assert_eq!(Apps::SlingTV.as_str(), "com.movenetworks.app.sling-tv-sling-production");
    assert_eq!(Apps::Plex.as_str(), "cdp-30");
    assert_eq!(EnergySavingLevels::Auto.as_str(), "auto");
    assert_eq!(Inputs::Component.as_str(), "component1");
    assert_eq!(Keys::EnergySaving.as_str(), "screenbright");
    assert_eq!(Keys::Home.as_str(), "myapp");
    assert_eq!(PictureModes::Vivid.as_str(), "vivid");
    assert_eq!(PowerStates::On.as_str(), "on");
    assert_eq!(ScreenMuteModes::VideoMuteOn.as_str(), "videomuteon");
}

#[test]
fn magic_packet_repeats_the_mac_sixteen_times() {
    let packet = create_magic_packet("3F:F6:83:8c:1C:E8").unwrap();
    assert_eq!(packet.len(), 102);
    assert_eq!(&packet[..6], &[0xff; 6]);
    for i in 0..16 {
        assert_eq!(&packet[6 + 6 * i..12 + 6 * i], &[0x3f, 0xf6, 0x83, 0x8c, 0x1c, 0xe8]);
    }
}

#[test]
fn malformed_mac_addresses_are_refused() {
    for mac in ["", "3F:F6:83:8C:1C", "3F:F6:83:8C:1C:E8:", "3F-F6-83-8C-1C-E8", "3G:F6:83:8C:1C:E8"] {
        assert_eq!(create_magic_packet(mac).unwrap_err(), "Invalid MAC address");
    }
}

#[test]
fn addresses_of_the_transport() {
    assert_eq!(tcp_address("192.168.1.0", 9761), "192.168.1.0:9761");
    assert_eq!(wake_on_lan_target("255.255.255.255", 9, false), "255.255.255.255:9");
    assert_eq!(wake_on_lan_target("ff02::1", 9, true), "[ff02::1]:9");
    assert_eq!(wake_on_lan_bind_address(false), "0.0.0.0:0");
    assert_eq!(wake_on_lan_bind_address(true), "[::]:0");
    assert_eq!(tcp_address("h", 0), "h:0");
    assert_eq!(tcp_address("h", 65535), "h:65535");
}
