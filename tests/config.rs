use blockchain_rpc_lib::config::{
    default_max_body_size_bytes, default_request_timeout_secs, parse_accounts, parse_ip_networks,
};
use blockchain_rpc_lib::{Error, IpAddress, IpNet};

fn strings(items: &[&str]) -> Vec<String> {
    items.iter().map(|s| s.to_string()).collect()
}

#[test]
fn defaults() {
    assert_eq!(default_max_body_size_bytes(), 10_485_760);
    assert_eq!(default_request_timeout_secs(), 30);
}

#[test]
fn networks_parse_with_and_without_mask() {
    let nets = parse_ip_networks(&strings(&["10.0.0.0/8", "127.0.0.1", "::1", "2001:db8::/32", "10.1.2.3/255.0.0.0"]))
        .unwrap();
    assert_eq!(
        nets,
        vec![
            IpNet { addr: IpAddress::V4(0x0a00_0000), prefix: 8 },
            IpNet { addr: IpAddress::V4(0x7f00_0001), prefix: 32 },
            IpNet { addr: IpAddress::V6(1), prefix: 128 },
            IpNet { addr: IpAddress::V6(0x2001_0db8_0000_0000_0000_0000_0000_0000), prefix: 32 },
            IpNet { addr: IpAddress::V4(0x0a01_0203), prefix: 8 },
        ]
    );
}

#[test]
fn invalid_network_is_a_config_error() {
    assert!(matches!(parse_ip_networks(&strings(&["10.0.0.0/8", "nope"])), Err(Error::ConfigError(_))));
    assert!(matches!(parse_ip_networks(&strings(&["10.0.0.0/33"])), Err(Error::ConfigError(_))));
    assert_eq!(parse_ip_networks(&Vec::new()).unwrap(), vec![]);
}

#[test]
fn accounts_parse_from_ss58_and_hex() {
    let accounts = parse_accounts(&strings(&[
        "5GrwvaEF5zXb26Fz9rcQpDWS57CtERHpNehXCPcNoHGKutQY",
        "0xd43593c715fdd31c61141abd04a99fd6822c8558854ccde39a5684e7a56da27d",
    ]))
    .unwrap();
    let alice: [u8; 32] = [
        0xd4, 0x35, 0x93, 0xc7, 0x15, 0xfd, 0xd3, 0x1c, 0x61, 0x14, 0x1a, 0xbd, 0x04, 0xa9, 0x9f, 0xd6,
        0x82, 0x2c, 0x85, 0x58, 0x85, 0x4c, 0xcd, 0xe3, 0x9a, 0x56, 0x84, 0xe7, 0xa5, 0x6d, 0xa2, 0x7d,
    ];
    assert_eq!(accounts.len(), 2);
    assert_eq!(accounts[0].bytes, alice);
    assert_eq!(accounts[1].bytes, alice);
}

#[test]
fn invalid_account_is_a_config_error() {
    assert!(matches!(parse_accounts(&strings(&["5Gr"])), Err(Error::ConfigError(_))));
}

#[test]
fn config_errors_name_the_first_bad_text() {
    assert_eq!(
        parse_ip_networks(&strings(&["10.0.0.0/8", "nope", "also bad"])),
        Err(Error::ConfigError("Invalid IP/CIDR 'nope'".to_string()))
    );
    assert_eq!(
        parse_accounts(&strings(&["0x0101010101010101010101010101010101010101010101010101010101010101", "5Gr", "x"])),
        Err(Error::ConfigError("Invalid AccountId32: 5Gr".to_string()))
    );
}
