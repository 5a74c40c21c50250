use qbittorrent_probe::{
    env_or_default, fallback_notices, parse_u16, resolve_address, resolve_port, AddressSetting,
    Config, ConfigError, Environment, IpAddress, Notice, DEFAULT_PORT,
};

fn env(
    host: Option<&str>,
    username: Option<&str>,
    password: Option<&str>,
    port: Option<&str>,
    address: AddressSetting,
) -> Environment {
    Environment {
        host: host.map(|s| s.to_string()),
        username: username.map(|s| s.to_string()),
        password: password.map(|s| s.to_string()),
        port: port.map(|s| s.to_string()),
        address,
    }
}

#[test]
fn missing_password_fails() {
    let e = env(
        Some("http://qbit:8080"),
        Some("user"),
        None,
        Some("8000"),
        AddressSetting::Parsed(IpAddress::V4(127, 0, 0, 1)),
    );
    assert_eq!(Config::from_env(e).unwrap_err(), ConfigError::MissingCredential);
}

#[test]
fn missing_password_fails_with_nothing_set() {
    let e = env(None, None, None, None, AddressSetting::Unset);
    assert_eq!(Config::from_env(e).unwrap_err(), ConfigError::MissingCredential);
}

#[test]
fn empty_password_fails() {
    let e = env(None, None, Some(""), None, AddressSetting::Unset);
    assert_eq!(Config::from_env(e).unwrap_err(), ConfigError::MissingCredential);
}

#[test]
fn password_alone_gives_all_defaults() {
    let c = Config::from_env(env(None, None, Some("secret"), None, AddressSetting::Unset)).unwrap();
    assert_eq!(c.host, "http://localhost:8080");
    assert_eq!(c.username, "admin");
    assert_eq!(c.password, "secret");
    assert_eq!(c.port, 9000);
    assert_eq!(c.address, IpAddress::V4(0, 0, 0, 0));
}

#[test]
fn set_values_are_kept() {
    let ip = IpAddress::V6(0, 0, 0, 0, 0, 0, 0, 1);
    let c = Config::from_env(env(
        Some("http://qbit:8080"),
        Some("user"),
        Some("pw"),
        Some("8000"),
        AddressSetting::Parsed(ip),
    ))
    .unwrap();
    assert_eq!(c.host, "http://qbit:8080");
    assert_eq!(c.username, "user");
    assert_eq!(c.password, "pw");
    assert_eq!(c.port, 8000);
    assert_eq!(c.address, ip);
}

#[test]
fn invalid_optional_values_fall_back() {
    let c = Config::from_env(env(
        None,
        None,
        Some("pw"),
        Some("not-a-port"),
        AddressSetting::Unparsable,
    ))
    .unwrap();
    assert_eq!(c.port, DEFAULT_PORT);
    assert_eq!(c.address, IpAddress::V4(0, 0, 0, 0));
}

#[test]
fn port_zero_defaults() {
    assert_eq!(resolve_port(&Some("0".to_string())), 9000);
}

#[test]
fn port_non_numeric_defaults() {
    assert_eq!(resolve_port(&Some("abc".to_string())), 9000);
    assert_eq!(resolve_port(&Some("".to_string())), 9000);
    assert_eq!(resolve_port(&Some("80a".to_string())), 9000);
}

#[test]
fn port_out_of_range_defaults() {
    assert_eq!(resolve_port(&Some("65536".to_string())), 9000);
    assert_eq!(resolve_port(&Some("-1".to_string())), 9000);
    assert_eq!(resolve_port(&Some(" 80".to_string())), 9000);
}

#[test]
fn port_unset_defaults() {
    assert_eq!(resolve_port(&None), 9000);
}

#[test]
fn port_valid_values() {
    assert_eq!(resolve_port(&Some("1".to_string())), 1);
    assert_eq!(resolve_port(&Some("65535".to_string())), 65535);
    assert_eq!(resolve_port(&Some("+8080".to_string())), 8080);
    assert_eq!(resolve_port(&Some("08080".to_string())), 8080);
}

#[test]
fn parse_u16_edges() {
    assert_eq!(parse_u16(""), None);
    assert_eq!(parse_u16("+"), None);
    assert_eq!(parse_u16("0"), Some(0));
    assert_eq!(parse_u16("65535"), Some(65535));
    assert_eq!(parse_u16("65536"), None);
    assert_eq!(parse_u16("99999999999999999999"), None);
    assert_eq!(parse_u16("++1"), None);
    assert_eq!(parse_u16("12 "), None);
    assert_eq!(parse_u16("\u{665}"), None);
}

#[test]
fn env_or_default_picks_value_or_default() {
    assert_eq!(env_or_default(Some("x".to_string()), "d"), "x");
    assert_eq!(env_or_default(Some("".to_string()), "d"), "");
    assert_eq!(env_or_default(None, "d"), "d");
}

#[test]
fn address_resolution() {
    let ip = IpAddress::V4(10, 1, 2, 3);
    assert_eq!(resolve_address(AddressSetting::Parsed(ip)), ip);
    assert_eq!(resolve_address(AddressSetting::Unset), IpAddress::V4(0, 0, 0, 0));
    assert_eq!(resolve_address(AddressSetting::Unparsable), IpAddress::V4(0, 0, 0, 0));
    assert_eq!(IpAddress::all_interfaces(), IpAddress::V4(0, 0, 0, 0));
}

#[test]
fn notices_for_empty_environment() {
    let e = env(None, None, None, None, AddressSetting::Unset);
    assert_eq!(
        fallback_notices(&e),
        vec![
            Notice::HostUnset,
            Notice::UsernameUnset,
            Notice::PasswordUnset,
            Notice::PortUnset,
            Notice::AddressUnset
        ]
    );
}

#[test]
fn notices_for_invalid_values() {
    let e = env(Some("h"), Some("u"), Some("p"), Some("0"), AddressSetting::Unparsable);
    assert_eq!(fallback_notices(&e), vec![Notice::PortZero, Notice::AddressUnparsable]);
    let e = env(Some("h"), Some("u"), Some("p"), Some("x"), AddressSetting::Unset);
    assert_eq!(fallback_notices(&e), vec![Notice::PortUnparsable, Notice::AddressUnset]);
}

#[test]
fn no_notices_for_complete_environment() {
    let e = env(
        Some("h"),
        Some("u"),
        Some("p"),
        Some("9001"),
        AddressSetting::Parsed(IpAddress::V4(127, 0, 0, 1)),
    );
    assert_eq!(fallback_notices(&e), vec![]);
}
