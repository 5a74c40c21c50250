use vstd::prelude::*;
use crate::port::{all_digits, decimal_value, parse_u16, parse_u16_spec, unsigned_digits};

verus! {

/// Daemon URL used when none is given.
pub const DEFAULT_HOST: &'static str = "http://localhost:8080";

/// Daemon user name used when none is given.
pub const DEFAULT_USERNAME: &'static str = "admin";

/// Listening port used when none, or no usable one, is given.
pub const DEFAULT_PORT: u16 = 9000;

/// An IP address, as the numbers that make it up.
#[derive(Clone, Copy, Debug, PartialEq, Eq, Structural)]
pub enum IpAddress {
    V4(u8, u8, u8, u8),
    V6(u16, u16, u16, u16, u16, u16, u16, u16),
}

/// The address that binds every interface: `0.0.0.0`.
pub open spec fn default_address() -> IpAddress {
    IpAddress::V4(0, 0, 0, 0)
}

impl IpAddress {
    /// The address that binds every interface: `0.0.0.0`.
    pub fn all_interfaces() -> (r: IpAddress)
        ensures
            r == default_address(),
    {
        IpAddress::V4(0, 0, 0, 0)
    }
}

/// What the environment said of the listening address, once read as an IP
/// literal.
#[derive(Clone, Copy, Debug, PartialEq, Eq, Structural)]
pub enum AddressSetting {
    /// The variable is not set.
    Unset,
    /// The variable is set but is no IP literal.
    Unparsable,
    /// The variable holds this address.
    Parsed(IpAddress),
}

/// The raw values that the configuration is resolved from; `None` where a
/// variable is not set.
pub struct Environment {
    pub host: Option<String>,
    pub username: Option<String>,
    pub password: Option<String>,
    pub port: Option<String>,
    pub address: AddressSetting,
}

/// The text of an optional string.
pub open spec fn opt_view(o: Option<String>) -> Option<Seq<char>> {
    match o {
        Some(s) => Some(s@),
        None => None,
    }
}

pub struct EnvironmentView {
    pub host: Option<Seq<char>>,
    pub username: Option<Seq<char>>,
    pub password: Option<Seq<char>>,
    pub port: Option<Seq<char>>,
    pub address: AddressSetting,
}

impl View for Environment {
    type V = EnvironmentView;

    open spec fn view(&self) -> EnvironmentView {
        EnvironmentView {
            host: opt_view(self.host),
            username: opt_view(self.username),
            password: opt_view(self.password),
            port: opt_view(self.port),
            address: self.address,
        }
    }
}

/// The resolved service configuration.
#[derive(Clone, Debug)]
pub struct Config {
    pub host: String,
    pub username: String,
    pub password: String,
    pub port: u16,
    pub address: IpAddress,
}

pub struct ConfigView {
    pub host: Seq<char>,
    pub username: Seq<char>,
    pub password: Seq<char>,
    pub port: u16,
    pub address: IpAddress,
}

impl View for Config {
    type V = ConfigView;

    open spec fn view(&self) -> ConfigView {
        ConfigView {
            host: self.host@,
            username: self.username@,
            password: self.password@,
            port: self.port,
            address: self.address,
        }
    }
}

impl ConfigView {
    /// A usable configuration has a password and a listening port.
    pub open spec fn wf(self) -> bool {
        self.password.len() > 0 && self.port > 0
    }
}

/// Why no configuration could be resolved.
#[derive(Clone, Copy, Debug, PartialEq, Eq, Structural)]
pub enum ConfigError {
    /// The daemon password is not set, or is empty.
    MissingCredential,
}

/// A value of the environment that was replaced by its default.
#[derive(Clone, Copy, Debug, PartialEq, Eq, Structural)]
pub enum Notice {
    HostUnset,
    UsernameUnset,
    PasswordUnset,
    PortUnset,
    PortZero,
    PortUnparsable,
    AddressUnset,
    AddressUnparsable,
}

/// A text setting: its value where set, else the default.
pub open spec fn resolved_text(v: Option<Seq<char>>, default: Seq<char>) -> Seq<char> {
    match v {
        Some(s) => s,
        None => default,
    }
}

/// The listening port: the value where it reads as a non-zero 16-bit
/// number, else the default.
pub open spec fn resolved_port(v: Option<Seq<char>>) -> u16 {
    match v {
        Some(s) => match parse_u16_spec(s) {
            Some(p) => if p > 0 {
                p
            } else {
                DEFAULT_PORT
            },
            None => DEFAULT_PORT,
        },
        None => DEFAULT_PORT,
    }
}

/// The listening address: the parsed one where there is one, else the
/// default.
pub open spec fn resolved_address(a: AddressSetting) -> IpAddress {
    match a {
        AddressSetting::Parsed(ip) => ip,
        _ => default_address(),
    }
}

/// Whether the environment holds a usable daemon password.
pub open spec fn has_credential(e: EnvironmentView) -> bool {
    e.password matches Some(p) && p.len() > 0
}

/// The configuration that `e` resolves to, or why it resolves to none.
pub open spec fn resolve_spec(e: EnvironmentView) -> Result<ConfigView, ConfigError> {
    if has_credential(e) {
        Ok(
            ConfigView {
                host: resolved_text(e.host, DEFAULT_HOST@),
                username: resolved_text(e.username, DEFAULT_USERNAME@),
                password: e.password.unwrap(),
                port: resolved_port(e.port),
                address: resolved_address(e.address),
            },
        )
    } else {
        Err(ConfigError::MissingCredential)
    }
}

/// The notice for a port setting, if it falls back to the default.
pub open spec fn port_notices(v: Option<Seq<char>>) -> Seq<Notice> {
    match v {
        None => seq![Notice::PortUnset],
        Some(s) => match parse_u16_spec(s) {
            None => seq![Notice::PortUnparsable],
            Some(p) => if p == 0 {
                seq![Notice::PortZero]
            } else {
                seq![]
            },
        },
    }
}

/// The notices for `e`, in the order host, user name, password, port,
/// address.
pub open spec fn notices_spec(e: EnvironmentView) -> Seq<Notice> {
    (if e.host is None { seq![Notice::HostUnset] } else { seq![] })
        + (if e.username is None { seq![Notice::UsernameUnset] } else { seq![] })
        + (if has_credential(e) { seq![] } else { seq![Notice::PasswordUnset] })
        + port_notices(e.port)
        + (match e.address {
        AddressSetting::Unset => seq![Notice::AddressUnset],
        AddressSetting::Unparsable => seq![Notice::AddressUnparsable],
        AddressSetting::Parsed(_) => seq![],
    })
}

/// Without a password no configuration is produced: resolution fails with
/// `MissingCredential` whatever the other settings hold.
pub proof fn lemma_missing_password_fails(e: EnvironmentView)
    requires
        e.password is None,
    ensures
        resolve_spec(e) == Err::<ConfigView, ConfigError>(ConfigError::MissingCredential),
{
}

/// With a password, resolution always succeeds, and every other setting
/// that is absent or unusable takes its default.
pub proof fn lemma_optional_settings_never_fail(e: EnvironmentView)
    requires
        has_credential(e),
    ensures
        resolve_spec(e) is Ok,
        resolve_spec(e).unwrap().wf(),
        e.host is None ==> resolve_spec(e).unwrap().host == DEFAULT_HOST@,
        e.username is None ==> resolve_spec(e).unwrap().username == DEFAULT_USERNAME@,
        (e.port matches Some(s) ==> (parse_u16_spec(s) is None || parse_u16_spec(s) == Some(
            0u16,
        )))
            ==> resolve_spec(e).unwrap().port == DEFAULT_PORT,
        !(e.address is Parsed) ==> resolve_spec(e).unwrap().address == default_address(),
{
}

/// The port `0`, and a port string that spells no number, both give the
/// default port.
pub proof fn lemma_zero_or_non_numeric_port_defaults(s: Seq<char>)
    requires
        s == "0"@ || unsigned_digits(s).len() == 0 || !all_digits(unsigned_digits(s)),
    ensures
        resolved_port(Some(s)) == DEFAULT_PORT,
{
    if s == "0"@ {
        reveal_strlit("0");
        assert(unsigned_digits(s) == s);
        assert(s.len() == 1 && s[0] == '0');
        assert(decimal_value(s.drop_last()) == 0);
        assert(decimal_value(s) == 0);
    }
}

/// The value of a text setting, or `default` where it is not set.
pub fn env_or_default(value: Option<String>, default: &str) -> (r: String)
    ensures
        r@ == resolved_text(opt_view(value), default@),
{
    match value {
        Some(s) => s,
        None => default.to_owned(),
    }
}

/// The listening port for a port setting.
pub fn resolve_port(value: &Option<String>) -> (r: u16)
    ensures
        r == resolved_port(opt_view(*value)),
        r > 0,
{
    match value {
        Some(s) => match parse_u16(s.as_str()) {
            Some(p) => if p > 0 {
                p
            } else {
                DEFAULT_PORT
            },
            None => DEFAULT_PORT,
        },
        None => DEFAULT_PORT,
    }
}

/// The listening address for an address setting.
pub fn resolve_address(setting: AddressSetting) -> (r: IpAddress)
    ensures
        r == resolved_address(setting),
{
    match setting {
        AddressSetting::Parsed(ip) => ip,
        _ => IpAddress::all_interfaces(),
    }
}

impl Config {
    /// Resolves the configuration from environment values. Only a missing or
    /// empty password fails; every other setting falls back to its default.
    pub fn from_env(env: Environment) -> (r: Result<Config, ConfigError>)
        ensures
            match r {
                Ok(c) => resolve_spec(env@) == Ok::<ConfigView, ConfigError>(c@) && c@.wf(),
                Err(e) => resolve_spec(env@) == Err::<ConfigView, ConfigError>(e),
            },
    {
        let ghost e = env@;
        let password = match env.password {
            Some(p) => if p.as_str().is_empty() {
                return Err(ConfigError::MissingCredential);
            } else {
                p
            },
            None => {
                return Err(ConfigError::MissingCredential);
            },
        };
        let port = resolve_port(&env.port);
        let host = env_or_default(env.host, DEFAULT_HOST);
        let username = env_or_default(env.username, DEFAULT_USERNAME);
        let address = resolve_address(env.address);
        let c = Config { host, username, password, port, address };
        proof {
            assert(resolve_spec(e) == Ok::<ConfigView, ConfigError>(c@));
        }
        Ok(c)
    }
}

/// The defaults that resolving `env` falls back on, each as a notice, in
/// the order host, user name, password, port, address.
pub fn fallback_notices(env: &Environment) -> (r: Vec<Notice>)
    ensures
        r@ == notices_spec(env@),
{
    let mut r: Vec<Notice> = Vec::new();
    if env.host.is_none() {
        r.push(Notice::HostUnset);
    }
    if env.username.is_none() {
        r.push(Notice::UsernameUnset);
    }
    let has_password = match &env.password {
        Some(p) => !p.as_str().is_empty(),
        None => false,
    };
    if !has_password {
        r.push(Notice::PasswordUnset);
    }
    match &env.port {
        None => r.push(Notice::PortUnset),
        Some(s) => match parse_u16(s.as_str()) {
            None => r.push(Notice::PortUnparsable),
            Some(p) => if p == 0 {
                r.push(Notice::PortZero);
            },
        },
    }
    match env.address {
        AddressSetting::Unset => r.push(Notice::AddressUnset),
        AddressSetting::Unparsable => r.push(Notice::AddressUnparsable),
        AddressSetting::Parsed(_) => {},
    }
    proof {
        assert(r@ =~= notices_spec(env@));
    }
    r
}

} // verus!
