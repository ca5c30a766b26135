use trcc::config::Device;
use trcc::error::Error;
use trcc::usb::{
    check_bulk_write, check_open, find_bulk_endpoints, find_device, scan_setting, AltSetting, BulkEndpoints,
    Configuration, Direction, Endpoint, EndpointDescriptor, Interface, TransferKind,
    BULK_READ_TIMEOUT_MS, BULK_WRITE_TIMEOUT_MS,
};

fn ep(address: u8, transfer: TransferKind, direction: Direction) -> EndpointDescriptor {
    EndpointDescriptor { address, transfer, direction }
}

fn bulk_in(address: u8) -> EndpointDescriptor {
    ep(address, TransferKind::Bulk, Direction::In)
}

fn bulk_out(address: u8) -> EndpointDescriptor {
    ep(address, TransferKind::Bulk, Direction::Out)
}

fn setting(iface: u8, alt: u8, endpoints: Vec<EndpointDescriptor>) -> AltSetting {
    AltSetting { interface_number: iface, setting_number: alt, endpoints }
}

fn config(number: u8, interfaces: Vec<Vec<AltSetting>>) -> Option<Configuration> {
    Some(Configuration {
        number,
        interfaces: interfaces.into_iter().map(|settings| Interface { settings }).collect(),
    })
}

fn pair(config: u8, iface: u8, alt: u8, a_in: u8, a_out: u8) -> BulkEndpoints {
    BulkEndpoints {
        in_ep: Endpoint { address: a_in, config, iface, setting: alt },
        out_ep: Endpoint { address: a_out, config, iface, setting: alt },
    }
}

#[test]
fn endpoint_gives_its_address() {
    let e = Endpoint { address: 0x81, config: 1, iface: 0, setting: 0 };
    assert_eq!(e.get_address(), 0x81);
}

#[test]
fn single_setting_with_both_directions() {
    let tree = vec![config(1, vec![vec![setting(0, 0, vec![bulk_in(0x81), bulk_out(0x01)])]])];
    assert_eq!(find_bulk_endpoints(&tree), Ok(pair(1, 0, 0, 0x81, 0x01)));
}

#[test]
fn first_complete_setting_in_scan_order_wins() {
    let tree = vec![
        config(
            1,
            vec![
                vec![setting(0, 0, vec![bulk_in(0x81)]), setting(0, 1, vec![bulk_out(0x02)])],
                vec![
                    setting(1, 0, vec![ep(0x83, TransferKind::Interrupt, Direction::In), bulk_out(0x03)]),
                    setting(1, 1, vec![bulk_out(0x04), bulk_in(0x84)]),
                    setting(1, 2, vec![bulk_out(0x05), bulk_in(0x85)]),
                ],
            ],
        ),
        config(2, vec![vec![setting(0, 0, vec![bulk_in(0x86), bulk_out(0x06)])]]),
    ];
    assert_eq!(find_bulk_endpoints(&tree), Ok(pair(1, 1, 1, 0x84, 0x04)));
}

#[test]
fn earlier_configuration_beats_later_interface() {
    let tree = vec![
        config(1, vec![vec![], vec![setting(1, 0, vec![bulk_in(0x82), bulk_out(0x02)])]]),
        config(2, vec![vec![setting(0, 0, vec![bulk_in(0x81), bulk_out(0x01)])]]),
    ];
    assert_eq!(find_bulk_endpoints(&tree), Ok(pair(1, 1, 0, 0x82, 0x02)));
}

#[test]
fn unreadable_configuration_is_passed_over() {
    let tree = vec![
        None,
        config(2, vec![vec![setting(0, 0, vec![bulk_out(0x01), bulk_in(0x81)])]]),
    ];
    assert_eq!(find_bulk_endpoints(&tree), Ok(pair(2, 0, 0, 0x81, 0x01)));
}

#[test]
fn later_endpoint_of_a_direction_replaces_the_earlier() {
    let s = setting(3, 7, vec![bulk_in(0x81), bulk_out(0x01), bulk_in(0x82), bulk_out(0x02), bulk_in(0x83)]);
    assert_eq!(scan_setting(9, &s), Some(pair(9, 3, 7, 0x83, 0x02)));
}

#[test]
fn endpoints_of_other_transfer_types_do_not_count() {
    let s = setting(
        0,
        0,
        vec![
            ep(0x81, TransferKind::Interrupt, Direction::In),
            ep(0x01, TransferKind::Isochronous, Direction::Out),
            ep(0x02, TransferKind::Control, Direction::Out),
            bulk_out(0x03),
        ],
    );
    assert_eq!(scan_setting(1, &s), None);
    let tree = vec![Some(Configuration { number: 1, interfaces: vec![Interface { settings: vec![s] }] })];
    assert_eq!(find_bulk_endpoints(&tree), Err(Error::NoBulkEndpoints));
}

#[test]
fn directions_split_over_two_settings_are_no_pair() {
    let tree = vec![config(
        1,
        vec![vec![setting(0, 0, vec![bulk_in(0x81)]), setting(0, 1, vec![bulk_out(0x01)])]],
    )];
    assert_eq!(find_bulk_endpoints(&tree), Err(Error::NoBulkEndpoints));
}

#[test]
fn device_without_configurations_has_no_pair() {
    assert_eq!(find_bulk_endpoints(&Vec::new()), Err(Error::NoBulkEndpoints));
    assert_eq!(find_bulk_endpoints(&vec![None, None]), Err(Error::NoBulkEndpoints));
}

#[test]
fn first_matching_device_is_chosen() {
    let devices = vec![
        Some(Device { vid: 0x1234, pid: 0x0001 }),
        None,
        Some(Device { vid: 0x0416, pid: 0x5302 }),
        Some(Device { vid: 0x0416, pid: 0x5302 }),
    ];
    assert_eq!(find_device(&devices, 0x0416, 0x5302), Ok(2));
    assert_eq!(find_device(&devices, 0x1234, 0x0001), Ok(0));
}

#[test]
fn device_must_match_both_identifiers() {
    let devices = vec![
        Some(Device { vid: 0x0416, pid: 0x0001 }),
        Some(Device { vid: 0x0001, pid: 0x5302 }),
        None,
    ];
    assert_eq!(
        find_device(&devices, 0x0416, 0x5302),
        Err(Error::DeviceNotFound { vid: 0x0416, pid: 0x5302 })
    );
    assert_eq!(find_device(&Vec::new(), 1, 2), Err(Error::DeviceNotFound { vid: 1, pid: 2 }));
}

#[test]
fn short_write_is_an_error() {
    assert_eq!(check_bulk_write(204864, 204864), Ok(()));
    assert_eq!(check_bulk_write(0, 0), Ok(()));
    assert_eq!(
        check_bulk_write(512, 204864),
        Err(Error::ShortWrite { written: 512, expected: 204864 })
    );
}

#[test]
fn transfer_timeouts() {
    assert_eq!(BULK_WRITE_TIMEOUT_MS, 500);
    assert_eq!(BULK_READ_TIMEOUT_MS, 1000);
}

#[test]
fn refused_open_names_the_device() {
    assert_eq!(check_open(0x0416, 0x5302, true), Ok(()));
    assert_eq!(
        check_open(0x0416, 0x5302, false),
        Err(Error::OpenFailed { vid: 0x0416, pid: 0x5302 })
    );
}
