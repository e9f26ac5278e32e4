use ccs811::SlaveAddr;

#[test]
fn can_get_default_address() {
    let addr = SlaveAddr::default();
    assert_eq!(0x5A, addr.addr());
}

#[test]
fn can_generate_alternative_addresses() {
    assert_eq!(0x5A, SlaveAddr::Alternative(false).addr());
    assert_eq!(0x5B, SlaveAddr::Alternative(true).addr());
}
