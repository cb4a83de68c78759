use blockchain_rpc_lib::account::AccountId;
use blockchain_rpc_lib::config::{parse_accounts, parse_ip_networks, FirewallConfig};
use blockchain_rpc_lib::firewall::{AccessRule, AccessSource, AccessType, Firewall, WebhookEvent};
use blockchain_rpc_lib::urls::ParsedUrl;
use blockchain_rpc_lib::{Error, IpAddress, IpNet, TemporaryAccessRecord};

fn strings(items: &[&str]) -> Vec<String> {
    items.iter().map(|s| s.to_string()).collect()
}

fn firewall_with(ips: &[&str], accounts: &[&str], unrestricted: bool) -> Firewall {
    let config = FirewallConfig {
        allow_ips: parse_ip_networks(&strings(ips)).unwrap(),
        allow_accounts: parse_accounts(&strings(accounts)).unwrap(),
        allow_unrestricted_access: unrestricted,
    };
    Firewall::new(&config, &Vec::new())
}

fn v4(a: u8, b: u8, c: u8, d: u8) -> IpAddress {
    IpAddress::V4(u32::from_be_bytes([a, b, c, d]))
}

fn account(byte: u8) -> AccountId {
    AccountId { bytes: [byte; 32] }
}

#[test]
fn static_prefix_admits_contained_address() {
    let mut fw = firewall_with(&["10.0.0.0/8"], &[], false);
    assert!(fw.is_allowed(&v4(10, 1, 2, 3)));
    assert_eq!(
        fw.take_events(),
        vec![WebhookEvent::AccessGranted {
            source: AccessSource::Ip(v4(10, 1, 2, 3)),
            access_type: AccessType::PermanentConfig,
        }]
    );
}

#[test]
fn static_prefix_admits_after_other_operations() {
    let mut fw = firewall_with(&["10.0.0.0/8", "192.168.1.7"], &[], false);
    fw.add_ip_rule(IpNet { addr: v4(172, 16, 0, 0), prefix: 12 }).unwrap();
    fw.grant_temporary_access(account(3), TemporaryAccessRecord { granted_at: 0, expires_at: 10 })
        .unwrap();
    fw.sweep_expired(100);
    assert!(fw.is_allowed(&v4(10, 255, 255, 255)));
    assert!(fw.is_allowed(&v4(192, 168, 1, 7)));
    assert!(!fw.is_allowed(&v4(192, 168, 1, 8)));
    assert!(!fw.is_allowed(&v4(11, 0, 0, 1)));
}

#[test]
fn address_outside_every_prefix_is_denied() {
    let mut fw = firewall_with(&["10.0.0.0/8"], &[], false);
    assert!(!fw.is_allowed(&v4(203, 0, 113, 5)));
    assert_eq!(
        fw.take_events(),
        vec![WebhookEvent::AccessDenied { source: AccessSource::Ip(v4(203, 0, 113, 5)) }]
    );
    assert!(fw.take_events().is_empty());
}

#[test]
fn ipv6_prefix_matches_only_ipv6() {
    let mut fw = firewall_with(&["2001:db8::/32"], &[], false);
    assert!(fw.is_allowed(&IpAddress::V6(0x2001_0db8_0000_0000_0000_0000_0000_0001)));
    assert!(!fw.is_allowed(&IpAddress::V6(0x2001_0db9_0000_0000_0000_0000_0000_0001)));
    assert!(!fw.is_allowed(&v4(32, 1, 13, 184)));
}

#[test]
fn unrestricted_admits_everything() {
    let mut fw = firewall_with(&[], &[], true);
    assert!(fw.is_allowed(&v4(1, 2, 3, 4)));
    assert!(fw.is_account_allowed_at(&account(9), 0));
    assert!(fw.is_account_allowed(&account(8)));
    let events = fw.take_events();
    assert_eq!(events.len(), 3);
    assert_eq!(
        events[1],
        WebhookEvent::AccessGranted {
            source: AccessSource::Account(account(9)),
            access_type: AccessType::Unrestricted,
        }
    );
}

#[test]
fn access_type_labels() {
    assert_eq!(AccessType::Unrestricted.as_str(), "Unrestricted");
    assert_eq!(AccessType::PermanentConfig.as_str(), "Permanent (Config)");
    assert_eq!(AccessType::PermanentDynamic.as_str(), "Permanent (Dynamic)");
    assert_eq!(AccessType::Temporary.as_str(), "Temporary");
    assert_eq!(AccessRule::Ip(IpNet { addr: v4(1, 1, 1, 1), prefix: 32 }).rule_type(), "IP");
    assert_eq!(AccessRule::Account(account(1)).rule_type(), "Account");
}

#[test]
fn static_and_dynamic_accounts() {
    let hex = "0x0101010101010101010101010101010101010101010101010101010101010101";
    let mut fw = firewall_with(&[], &[hex], false);
    assert!(fw.is_account_allowed_at(&account(1), 0));
    assert!(!fw.is_account_allowed_at(&account(2), 0));
    fw.add_account_rule(account(2)).unwrap();
    assert!(fw.is_account_allowed_at(&account(2), 0));
    let events = fw.take_events();
    assert_eq!(
        events,
        vec![
            WebhookEvent::AccessGranted {
                source: AccessSource::Account(account(1)),
                access_type: AccessType::PermanentConfig,
            },
            WebhookEvent::RuleAdded { rule: AccessRule::Account(account(2)) },
            WebhookEvent::AccessGranted {
                source: AccessSource::Account(account(2)),
                access_type: AccessType::PermanentDynamic,
            },
        ]
    );
}

#[test]
fn temporary_grant_expires() {
    let mut fw = firewall_with(&[], &[], false);
    let a = account(7);
    fw.grant_temporary_access(a, TemporaryAccessRecord { granted_at: 1_000, expires_at: 5_000 })
        .unwrap();
    assert!(fw.is_account_allowed_at(&a, 1_000));
    assert!(fw.is_account_allowed_at(&a, 4_999));
    assert_eq!(fw.take_events().len(), 2);
    assert!(!fw.is_account_allowed_at(&a, 5_000));
    assert_eq!(fw.take_events(), vec![WebhookEvent::TemporaryAccessExpired { account: a }]);
    assert!(!fw.is_account_allowed_at(&a, 5_001));
    assert!(!fw.is_account_allowed_at(&a, 1_000));
    assert!(fw.take_events().is_empty());
}

#[test]
fn adding_ip_rule_twice_emits_one_event() {
    let mut fw = firewall_with(&[], &[], false);
    let p = IpNet { addr: v4(203, 0, 113, 0), prefix: 24 };
    fw.add_ip_rule(p).unwrap();
    fw.add_ip_rule(p).unwrap();
    assert_eq!(fw.take_events(), vec![WebhookEvent::RuleAdded { rule: AccessRule::Ip(p) }]);
    assert!(fw.is_allowed(&v4(203, 0, 113, 77)));
    assert_eq!(
        fw.take_events(),
        vec![WebhookEvent::AccessGranted {
            source: AccessSource::Ip(v4(203, 0, 113, 77)),
            access_type: AccessType::PermanentDynamic,
        }]
    );
}

#[test]
fn second_grant_replaces_first() {
    let mut fw = firewall_with(&[], &[], false);
    let a = account(4);
    fw.grant_temporary_access(a, TemporaryAccessRecord { granted_at: 0, expires_at: 100 }).unwrap();
    fw.grant_temporary_access(a, TemporaryAccessRecord { granted_at: 0, expires_at: 50 }).unwrap();
    assert!(fw.is_account_allowed_at(&a, 49));
    assert!(!fw.is_account_allowed_at(&a, 60));
    fw.grant_temporary_access(a, TemporaryAccessRecord { granted_at: 60, expires_at: 200 }).unwrap();
    assert!(fw.is_account_allowed_at(&a, 150));
}

#[test]
fn grant_that_ends_before_it_starts_is_refused() {
    let mut fw = firewall_with(&[], &[], false);
    let r = fw.grant_temporary_access(account(1), TemporaryAccessRecord { granted_at: 10, expires_at: 10 });
    assert!(matches!(r, Err(Error::InvalidInput(_))));
    assert!(!fw.is_account_allowed_at(&account(1), 0));
}

#[test]
fn sweep_removes_lapsed_grants_silently() {
    let mut fw = firewall_with(&[], &[], false);
    fw.grant_temporary_access(account(1), TemporaryAccessRecord { granted_at: 0, expires_at: 10 }).unwrap();
    fw.grant_temporary_access(account(2), TemporaryAccessRecord { granted_at: 0, expires_at: 20 }).unwrap();
    fw.grant_temporary_access(account(3), TemporaryAccessRecord { granted_at: 0, expires_at: 30 }).unwrap();
    fw.sweep_expired(20);
    assert!(fw.take_events().is_empty());
    assert!(!fw.is_account_allowed_at(&account(1), 0));
    assert!(!fw.is_account_allowed_at(&account(2), 0));
    assert!(fw.is_account_allowed_at(&account(3), 0));
    // Swept grants give no expiry event when checked later.
    assert_eq!(fw.take_events().len(), 1);
}

#[test]
fn cleanup_uses_the_clock() {
    let mut fw = firewall_with(&[], &[], false);
    fw.grant_temporary_access(account(1), TemporaryAccessRecord { granted_at: 0, expires_at: 1 }).unwrap();
    fw.grant_temporary_access(account(2), TemporaryAccessRecord { granted_at: 0, expires_at: i64::MAX })
        .unwrap();
    fw.cleanup_expired_access();
    assert!(!fw.is_account_allowed_at(&account(1), 0));
    assert!(fw.is_account_allowed(&account(2)));
}

#[test]
fn webhook_registration() {
    let mut fw = firewall_with(&[], &[], false);
    fw.add_webhook("https://x.test/h").unwrap();
    fw.add_webhook("HTTP://Audit.Example").unwrap();
    assert_eq!(fw.webhooks(), &vec!["https://x.test/h".to_string(), "http://audit.example/".to_string()]);
    assert_eq!(
        fw.take_events(),
        vec![
            WebhookEvent::WebhookRegistered { url: "https://x.test/h".to_string() },
            WebhookEvent::WebhookRegistered { url: "http://audit.example/".to_string() },
        ]
    );
    assert!(matches!(fw.add_webhook("ftp://x.test/h"), Err(Error::InvalidInput(_))));
    assert!(matches!(fw.add_webhook("not a url"), Err(Error::InvalidInput(_))));
    assert_eq!(fw.webhooks().len(), 2);
    assert!(fw.take_events().is_empty());
}

#[test]
fn initial_webhooks_are_kept() {
    let config = FirewallConfig { allow_ips: vec![], allow_accounts: vec![], allow_unrestricted_access: false };
    let fw = Firewall::new(&config, &strings(&["https://audit.example/hook"]));
    assert_eq!(fw.webhooks(), &strings(&["https://audit.example/hook"]));
    assert!(!fw.is_unrestricted());
}

#[test]
fn parsed_webhook_scheme_is_checked() {
    let mut fw = firewall_with(&[], &[], false);
    let ftp = ParsedUrl { href: "ftp://x.test/h".to_string(), scheme: "ftp".to_string() };
    assert!(matches!(fw.register_parsed_webhook(ftp), Err(Error::InvalidInput(_))));
    let https = ParsedUrl { href: "https://x.test/h".to_string(), scheme: "https".to_string() };
    fw.register_parsed_webhook(https).unwrap();
    let http = ParsedUrl { href: "http://y.test/".to_string(), scheme: "http".to_string() };
    fw.register_parsed_webhook(http).unwrap();
    assert_eq!(fw.webhooks(), &vec!["https://x.test/h".to_string(), "http://y.test/".to_string()]);
    assert_eq!(fw.take_events().len(), 2);
}
