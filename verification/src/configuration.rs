//! Configuration types and the decisions made when a server starts.
//!
//! Loading the TOML file, looking up addresses, binding sockets and reading
//! TLS material are outside work; the functions here take those results as
//! plain values and make the validated decisions: which address to use and
//! to advertise, and whether a raw configuration is acceptable.

use crate::text::{dec_digits, u16_to_string};
use vstd::prelude::*;
use vstd::string::StringExecFns;

verus! {

pub const DEFAULT_PORT: u16 = 44080;

/// The validated flat configuration the interpreter consumes: where the
/// store lives, which port to serve on, and which address to advertise.
#[derive(Clone, Debug, Eq, Hash, PartialEq)]
pub struct Configuration {
    pub store_path: String,
    pub port: u16,
    pub show_local_ip: bool,
    pub show_public_ip: bool,
}

/// Mathematical model of a [`Configuration`].
#[verifier::ext_equal]
pub struct ConfigurationV {
    pub store_path: Seq<char>,
    pub port: u16,
    pub show_local_ip: bool,
    pub show_public_ip: bool,
}

impl View for Configuration {
    type V = ConfigurationV;

    open spec fn view(&self) -> ConfigurationV {
        ConfigurationV {
            store_path: self.store_path@,
            port: self.port,
            show_local_ip: self.show_local_ip,
            show_public_ip: self.show_public_ip,
        }
    }
}

impl Default for Configuration {
    /// The configuration used when no file is given: a `./dbstore` store on
    /// port 8080, advertising neither address.
    fn default() -> (c: Configuration)
        ensures
            c@.store_path == "./dbstore"@,
            c@.port == 8080,
            !c@.show_local_ip,
            !c@.show_public_ip,
    {
        Configuration {
            store_path: String::from_str("./dbstore"),
            port: 8080,
            show_local_ip: false,
            show_public_ip: false,
        }
    }
}

impl Configuration {
    /// Value equality, stated on the model.
    pub fn same_as(&self, o: &Configuration) -> (r: bool)
        ensures
            r == (self@ == o@),
    {
        let r = crate::text::str_eq(self.store_path.as_str(), o.store_path.as_str()) && self.port
            == o.port && self.show_local_ip == o.show_local_ip && self.show_public_ip
            == o.show_public_ip;
        proof {
            if self@.store_path == o@.store_path && self.port == o.port && self.show_local_ip
                == o.show_local_ip && self.show_public_ip == o.show_public_ip {
                assert(self@ =~~= o@);
            }
            if self@ == o@ {
                assert(self@.store_path == o@.store_path);
            }
        }
        r
    }

    /// A copy that Verus knows to be equal to the original.
    pub fn duplicate(&self) -> (c: Configuration)
        ensures
            c@ == self@,
    {
        Configuration {
            store_path: self.store_path.clone(),
            port: self.port,
            show_local_ip: self.show_local_ip,
            show_public_ip: self.show_public_ip,
        }
    }
}

/// The reasons a server refuses to start.
#[derive(Clone, Copy, Debug, PartialEq, Eq, Structural)]
pub enum ConfigError {
    /// Both `show_local_ip` and `show_public_ip` were set.
    BothAddressFlags,
    /// The store directory was missing and could not be created.
    StoreCreateFailed,
    /// Something that is not a directory sits where the store should be.
    StoreNotDir,
    /// The chosen bind address is already taken.
    AddressInUse,
    /// A TLS certificate path was given without a key path.
    TlsKeyPathMissing,
    /// A TLS key path was given without a certificate path.
    TlsCertPathMissing,
}

/// The address pair a server runs with: the one it binds (`use_addr`) and
/// the one it prints for clients (`show_addr`), each as `host:port`.
#[derive(Clone, Debug)]
pub struct Address {
    pub use_addr: String,
    pub show_addr: String,
}

/// Mathematical model of an [`Address`].
#[verifier::ext_equal]
pub struct AddressV {
    pub use_addr: Seq<char>,
    pub show_addr: Seq<char>,
}

impl View for Address {
    type V = AddressV;

    open spec fn view(&self) -> AddressV {
        AddressV { use_addr: self.use_addr@, show_addr: self.show_addr@ }
    }
}

/// A host and a port joined as `host:port`.
pub open spec fn spec_host_port(host: Seq<char>, port: u16) -> Seq<char> {
    host + ":"@ + dec_digits(port as int)
}

/// Which hosts an address resolution settles on, given the two flags and
/// the looked-up local and public addresses: loopback by default, the local
/// address if asked for, binding everywhere while advertising the public
/// address if asked for that.
pub open spec fn spec_address(
    config: ConfigurationV,
    local_ip: Seq<char>,
    public_ip: Seq<char>,
) -> Result<AddressV, ConfigError> {
    if config.show_local_ip && config.show_public_ip {
        Err(ConfigError::BothAddressFlags)
    } else {
        let use_host = if config.show_public_ip {
            "0.0.0.0"@
        } else if config.show_local_ip {
            local_ip
        } else {
            "127.0.0.1"@
        };
        let show_host = if config.show_public_ip {
            public_ip
        } else if config.show_local_ip {
            local_ip
        } else {
            "127.0.0.1"@
        };
        Ok(
            AddressV {
                use_addr: spec_host_port(use_host, config.port),
                show_addr: spec_host_port(show_host, config.port),
            },
        )
    }
}

fn host_port(host: &str, port: u16) -> (r: String)
    ensures
        r@ == spec_host_port(host@, port),
{
    let mut s = String::from_str(host);
    s.append(":");
    let p = u16_to_string(port);
    s.append(p.as_str());
    s
}

impl Address {
    /// Decides the bind and advertised addresses. The looked-up local and
    /// public addresses are handed in by the caller, who alone can perform
    /// those lookups; asking for both at once is refused.
    pub fn new(config: &Configuration, local_ip: &str, public_ip: &str) -> (r: Result<
        Address,
        ConfigError,
    >)
        ensures
            match r {
                Ok(a) => spec_address(config@, local_ip@, public_ip@) == Ok::<
                    AddressV,
                    ConfigError,
                >(a@),
                Err(e) => spec_address(config@, local_ip@, public_ip@) == Err::<
                    AddressV,
                    ConfigError,
                >(e),
            },
    {
        if config.show_local_ip && config.show_public_ip {
            return Err(ConfigError::BothAddressFlags);
        }
        let use_addr = if config.show_public_ip {
            host_port("0.0.0.0", config.port)
        } else if config.show_local_ip {
            host_port(local_ip, config.port)
        } else {
            host_port("127.0.0.1", config.port)
        };
        let show_addr = if config.show_public_ip {
            host_port(public_ip, config.port)
        } else if config.show_local_ip {
            host_port(local_ip, config.port)
        } else {
            host_port("127.0.0.1", config.port)
        };
        let a = Address { use_addr, show_addr };
        proof {
            assert(spec_address(config@, local_ip@, public_ip@) == Ok::<AddressV, ConfigError>(a@));
        }
        Ok(a)
    }

    /// A copy that Verus knows to be equal to the original.
    pub fn duplicate(&self) -> (a: Address)
        ensures
            a@ == self@,
    {
        Address { use_addr: self.use_addr.clone(), show_addr: self.show_addr.clone() }
    }
}

/// TLS identity material already read from disk: certificate and key, both
/// PEM text.
#[derive(Clone, Debug)]
pub struct TlsIdentity {
    pub cert: String,
    pub key: String,
}

/// Mathematical model of a [`TlsIdentity`].
#[verifier::ext_equal]
pub struct TlsIdentityV {
    pub cert: Seq<char>,
    pub key: Seq<char>,
}

impl View for TlsIdentity {
    type V = TlsIdentityV;

    open spec fn view(&self) -> TlsIdentityV {
        TlsIdentityV { cert: self.cert@, key: self.key@ }
    }
}

/// The fully validated startup configuration: store location, addresses,
/// and optional TLS identity.
#[derive(Clone, Debug)]
pub struct Config {
    pub store_path: String,
    pub address: Address,
    pub id: Option<TlsIdentity>,
}

/// Mathematical model of a [`Config`].
#[verifier::ext_equal]
pub struct ConfigV {
    pub store_path: Seq<char>,
    pub address: AddressV,
    pub id: Option<TlsIdentityV>,
}

impl View for Config {
    type V = ConfigV;

    open spec fn view(&self) -> ConfigV {
        ConfigV {
            store_path: self.store_path@,
            address: self.address@,
            id: match &self.id {
                Some(t) => Some(t@),
                None => None,
            },
        }
    }
}

impl Config {
    pub fn new(store_path: String, address: Address, id: Option<TlsIdentity>) -> (c: Config)
        ensures
            c@.store_path == store_path@,
            c@.address == address@,
            c@.id == (match id {
                Some(t) => Some(t@),
                None => None::<TlsIdentityV>,
            }),
    {
        Config { store_path, address, id }
    }
}

/// A configuration as it comes out of the TOML file: everything optional,
/// nothing validated yet.
#[derive(Clone, Debug, Eq, Hash, PartialEq)]
pub struct RawConfig {
    pub store_path: Option<String>,
    pub port: Option<u16>,
    pub show_local_ip: Option<bool>,
    pub show_public_ip: Option<bool>,
    pub tls_cert_path: Option<String>,
    pub tls_key_path: Option<String>,
}

/// Mathematical model of a [`RawConfig`].
#[verifier::ext_equal]
pub struct RawConfigV {
    pub store_path: Option<Seq<char>>,
    pub port: Option<u16>,
    pub show_local_ip: Option<bool>,
    pub show_public_ip: Option<bool>,
    pub tls_cert_path: Option<Seq<char>>,
    pub tls_key_path: Option<Seq<char>>,
}

impl View for RawConfig {
    type V = RawConfigV;

    open spec fn view(&self) -> RawConfigV {
        RawConfigV {
            store_path: match &self.store_path {
                Some(s) => Some(s@),
                None => None,
            },
            port: self.port,
            show_local_ip: self.show_local_ip,
            show_public_ip: self.show_public_ip,
            tls_cert_path: match &self.tls_cert_path {
                Some(s) => Some(s@),
                None => None,
            },
            tls_key_path: match &self.tls_key_path {
                Some(s) => Some(s@),
                None => None,
            },
        }
    }
}

impl Default for RawConfig {
    /// The raw configuration assumed when the file is missing or malformed.
    fn default() -> (c: RawConfig)
        ensures
            c@.store_path == Some("./dbstore"@),
            c@.port == Some(DEFAULT_PORT),
            c@.show_local_ip == Some(false),
            c@.show_public_ip == Some(false),
            c@.tls_cert_path is None,
            c@.tls_key_path is None,
    {
        RawConfig {
            store_path: Some(String::from_str("./dbstore")),
            port: Some(DEFAULT_PORT),
            show_local_ip: Some(false),
            show_public_ip: Some(false),
            tls_cert_path: None,
            tls_key_path: None,
        }
    }
}

/// What `check_config` decides, given the raw configuration and the
/// caller's observations of the world: whether the store directory could be
/// used or made, whether the bind succeeded, and whether the TLS paths come
/// as a proper pair. On success: the validated [`ConfigV`], whose store
/// path is the configured one (or empty where none was configured).
pub open spec fn spec_check_config(
    raw: RawConfigV,
    store_exists: bool,
    store_is_dir: bool,
    store_created: bool,
    bind_ok: bool,
    address: AddressV,
    tls_pem: Option<TlsIdentityV>,
) -> Result<ConfigV, ConfigError> {
    if raw.store_path is Some && !store_exists && !store_created {
        Err(ConfigError::StoreCreateFailed)
    } else if raw.store_path is Some && store_exists && !store_is_dir {
        Err(ConfigError::StoreNotDir)
    } else if !bind_ok {
        Err(ConfigError::AddressInUse)
    } else if raw.tls_cert_path is Some && raw.tls_key_path is None {
        Err(ConfigError::TlsKeyPathMissing)
    } else if raw.tls_cert_path is None && raw.tls_key_path is Some {
        Err(ConfigError::TlsCertPathMissing)
    } else {
        Ok(
            ConfigV {
                store_path: match raw.store_path {
                    Some(p) => p,
                    None => Seq::empty(),
                },
                address,
                id: tls_pem,
            },
        )
    }
}

impl RawConfig {
    /// Validates this raw configuration against the caller's observations.
    /// The caller checks the store path on disk (and tries to create it
    /// when missing), tries the bind, and reads the TLS material where both
    /// paths are given; this function makes every decision about those
    /// results.
    pub fn check_config(
        &self,
        store_exists: bool,
        store_is_dir: bool,
        store_created: bool,
        bind_ok: bool,
        address: Address,
        tls_pem: Option<TlsIdentity>,
    ) -> (r: Result<Config, ConfigError>)
        ensures
            match r {
                Ok(c) => spec_check_config(
                    self@,
                    store_exists,
                    store_is_dir,
                    store_created,
                    bind_ok,
                    address@,
                    match tls_pem {
                        Some(t) => Some(t@),
                        None => None,
                    },
                ) == Ok::<ConfigV, ConfigError>(c@),
                Err(e) => spec_check_config(
                    self@,
                    store_exists,
                    store_is_dir,
                    store_created,
                    bind_ok,
                    address@,
                    match tls_pem {
                        Some(t) => Some(t@),
                        None => None,
                    },
                ) == Err::<ConfigV, ConfigError>(e),
            },
    {
        if self.store_path.is_some() && !store_exists && !store_created {
            return Err(ConfigError::StoreCreateFailed);
        }
        if self.store_path.is_some() && store_exists && !store_is_dir {
            return Err(ConfigError::StoreNotDir);
        }
        if !bind_ok {
            return Err(ConfigError::AddressInUse);
        }
        if self.tls_cert_path.is_some() && self.tls_key_path.is_none() {
            return Err(ConfigError::TlsKeyPathMissing);
        }
        if self.tls_cert_path.is_none() && self.tls_key_path.is_some() {
            return Err(ConfigError::TlsCertPathMissing);
        }
        let store_path = match &self.store_path {
            Some(p) => p.clone(),
            None => String::new(),
        };
        Ok(Config { store_path, address, id: tls_pem })
    }
}

} // verus!
