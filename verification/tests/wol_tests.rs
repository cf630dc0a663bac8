use lgtvctl::wol::{format_mac, magic_packet, parse_mac, prepare_wake, wol_target};
use lgtvctl::{Config, LgtvctlError};

const MAC: [u8; 6] = [0xAA, 0xBB, 0xCC, 0xDD, 0xEE, 0xFF];

#[test]
fn parse_mac_accepts_common_notations() {
    assert_eq!(parse_mac("AA:BB:CC:DD:EE:FF"), Ok(MAC));
    assert_eq!(parse_mac("aa-bb-cc-dd-ee-ff"), Ok(MAC));
    assert_eq!(parse_mac("aabb.ccdd.eeff"), Ok(MAC));
    assert_eq!(parse_mac("AaBbCcDdEeFf"), Ok(MAC));
    assert_eq!(parse_mac("01:23:45:67:89:0a"), Ok([0x01, 0x23, 0x45, 0x67, 0x89, 0x0A]));
}

#[test]
fn parse_mac_rejects_other_text() {
    for bad in ["", "AA:BB:CC:DD:EE", "AA:BB:CC:DD:EE:FF:00", "GG:BB:CC:DD:EE:FF", "AA BB CC DD EE FF", "ÄA:BB:CC:DD:EE:F", " AA:BB:CC:DD:EE:FF"] {
        assert_eq!(parse_mac(bad), Err(LgtvctlError::InvalidMac(bad.to_string())), "{bad}");
    }
}

#[test]
fn format_mac_writes_upper_case_pairs() {
    assert_eq!(format_mac(MAC), "AA:BB:CC:DD:EE:FF");
    assert_eq!(format_mac([0, 1, 2, 0x0a, 0xf0, 0x99]), "00:01:02:0A:F0:99");
}

#[test]
fn mac_round_trip() {
    for mac in [MAC, [0; 6], [1, 2, 3, 4, 5, 6], [0xff; 6]] {
        assert_eq!(parse_mac(&format_mac(mac)), Ok(mac));
    }
    assert_eq!(format_mac(parse_mac("aabb.ccdd.eeff").unwrap()), "AA:BB:CC:DD:EE:FF");
}

#[test]
fn magic_packet_is_sync_then_sixteen_copies() {
    let p = magic_packet(MAC);
    assert_eq!(p.len(), 102);
    assert_eq!(&p[..6], &[0xFF; 6]);
    for i in 0..16 {
        assert_eq!(&p[6 + 6 * i..12 + 6 * i], &MAC);
    }
}

#[test]
fn wol_target_adds_port_nine() {
    assert_eq!(wol_target(None), "255.255.255.255:9");
    assert_eq!(wol_target(Some("192.168.0.255")), "192.168.0.255:9");
    assert_eq!(wol_target(Some("  192.168.0.255\n")), "192.168.0.255:9");
    assert_eq!(wol_target(Some("192.168.0.255:7")), "192.168.0.255:7");
}

#[test]
fn prepare_wake_checks_the_mac() {
    let mut c = Config::default();
    assert_eq!(prepare_wake(&c).err(), Some(LgtvctlError::MissingMac));
    c.mac = Some("   ".to_string());
    assert_eq!(prepare_wake(&c).err(), Some(LgtvctlError::MissingMac));
    c.mac = Some("zz".to_string());
    assert_eq!(prepare_wake(&c).err(), Some(LgtvctlError::InvalidMac("zz".to_string())));
    c.mac = Some("aa-bb-cc-dd-ee-ff".to_string());
    c.wol_broadcast = Some("192.168.0.255".to_string());
    let plan = prepare_wake(&c).unwrap();
    assert_eq!(plan.mac, "AA:BB:CC:DD:EE:FF");
    assert_eq!(plan.target, "192.168.0.255:9");
    assert_eq!(plan.packet, magic_packet(MAC));
}
