use serial_bridge::args::{Args, UsageError};

fn base_args() -> Args {
    Args {
        port: None,
        product_id: None,
        vendor_id: None,
        baud_rate: Some(115200),
        reconnect: None,
        list: false,
        buf_size: None,
        flush: false,
    }
}

#[test]
fn list_mode_needs_nothing_else() {
    let mut a = base_args();
    a.list = true;
    assert!(a.validate().is_ok());
}

#[test]
fn no_selector_is_a_usage_error() {
    let a = base_args();
    assert_eq!(a.validate(), Err(UsageError::NoSelector));
}

#[test]
fn explicit_port_is_enough() {
    let mut a = base_args();
    a.port = Some(String::from("/dev/ttyUSB0"));
    assert!(a.validate().is_ok());
}

#[test]
fn vendor_id_alone_is_enough() {
    let mut a = base_args();
    a.vendor_id = Some(String::from("2341"));
    assert!(a.validate().is_ok());
}

#[test]
fn product_id_alone_is_enough() {
    let mut a = base_args();
    a.product_id = Some(String::from("0043"));
    assert!(a.validate().is_ok());
}
