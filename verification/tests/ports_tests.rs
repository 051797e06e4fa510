use serial_bridge::args::Args;
use serial_bridge::ports::{find_in_ports, hex4, parse_hex4, port_matches, PortClass, PortInfo};

fn args_with(product_id: Option<&str>, vendor_id: Option<&str>) -> Args {
    Args {
        port: None,
        product_id: product_id.map(String::from),
        vendor_id: vendor_id.map(String::from),
        baud_rate: Some(115200),
        reconnect: None,
        list: false,
        buf_size: None,
        flush: false,
    }
}

fn usb_port(name: &str, vid: u16, pid: u16) -> PortInfo {
    PortInfo {
        port_name: String::from(name),
        port_type: PortClass::Usb { vid, pid, serial_number: None, manufacturer: None },
    }
}

fn unknown_port(name: &str) -> PortInfo {
    PortInfo { port_name: String::from(name), port_type: PortClass::Unknown }
}

#[test]
fn hex4_pads_to_four_lowercase_digits() {
    assert_eq!(hex4(0x2341), "2341");
    assert_eq!(hex4(0x0043), "0043");
    assert_eq!(hex4(0xabcd), "abcd");
    assert_eq!(hex4(0x0000), "0000");
    assert_eq!(hex4(0xffff), "ffff");
}

#[test]
fn exact_usb_pair_is_found() {
    let ports = vec![
        unknown_port("/dev/ttyS0"),
        usb_port("/dev/ttyACM0", 0x2341, 0x0043),
    ];
    let args = args_with(Some("0043"), Some("2341"));
    let found = find_in_ports(&args, &ports);
    assert_eq!(found, Some(1));
    assert_eq!(ports[1].port_name, "/dev/ttyACM0");
}

#[test]
fn absent_pair_is_not_found() {
    let ports = vec![usb_port("/dev/ttyACM0", 0x2341, 0x0043)];
    let args = args_with(Some("beef"), Some("dead"));
    assert_eq!(find_in_ports(&args, &ports), None);
}

#[test]
fn first_match_in_enumeration_order_wins() {
    let ports = vec![
        usb_port("/dev/ttyACM0", 0x2341, 0x0043),
        usb_port("/dev/ttyACM1", 0x2341, 0x0043),
    ];
    let args = args_with(None, Some("2341"));
    assert_eq!(find_in_ports(&args, &ports), Some(0));
}

#[test]
fn product_id_alone_matches() {
    let p = usb_port("/dev/ttyACM0", 0x2341, 0x0043);
    let args = args_with(Some("0043"), None);
    assert!(port_matches(&args, &p));
}

#[test]
fn vendor_id_alone_matches() {
    let p = usb_port("/dev/ttyACM0", 0x2341, 0x0043);
    let args = args_with(None, Some("2341"));
    assert!(port_matches(&args, &p));
}

#[test]
fn unclassified_port_never_matches() {
    let p = unknown_port("/dev/ttyS0");
    let args = args_with(Some("0043"), Some("2341"));
    assert!(!port_matches(&args, &p));
}

#[test]
fn parse_hex4_reads_ids_as_sixteen_bit_values() {
    assert_eq!(parse_hex4("0043"), Some(0x0043));
    assert_eq!(parse_hex4("43"), Some(0x0043));
    assert_eq!(parse_hex4("ABCD"), Some(0xabcd));
    assert_eq!(parse_hex4("abcd"), Some(0xabcd));
    assert_eq!(parse_hex4("0"), Some(0));
    assert_eq!(parse_hex4("ffff"), Some(0xffff));
    assert_eq!(parse_hex4(""), None);
    assert_eq!(parse_hex4("12345"), None);
    assert_eq!(parse_hex4("xyz"), None);
    assert_eq!(parse_hex4("0x43"), None);
}

#[test]
fn unpadded_hex_matches() {
    let p = usb_port("/dev/ttyACM0", 0x2341, 0x0043);
    let args = args_with(Some("43"), None);
    assert!(port_matches(&args, &p));
}

#[test]
fn uppercase_hex_matches() {
    let p = usb_port("/dev/ttyACM0", 0xabcd, 0x0043);
    let args = args_with(None, Some("ABCD"));
    assert!(port_matches(&args, &p));
}

#[test]
fn unparsable_id_never_matches() {
    let p = usb_port("/dev/ttyACM0", 0x2341, 0x0043);
    let args = args_with(Some("zz"), None);
    assert!(!port_matches(&args, &p));
}

#[test]
fn pair_must_agree_on_both_ids() {
    let p = usb_port("/dev/ttyACM0", 0x2341, 0x0043);
    let args = args_with(Some("beef"), Some("2341"));
    assert!(!port_matches(&args, &p));
    let args = args_with(Some("0043"), Some("dead"));
    assert!(!port_matches(&args, &p));
    let ports = vec![p];
    let args = args_with(Some("beef"), Some("2341"));
    assert_eq!(find_in_ports(&args, &ports), None);
}

#[test]
fn no_ids_matches_nothing() {
    let ports = vec![usb_port("/dev/ttyACM0", 0x2341, 0x0043)];
    let args = args_with(None, None);
    assert_eq!(find_in_ports(&args, &ports), None);
}
