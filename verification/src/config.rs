//! What the server is configured with, and what is made of it at start-up.

use crate::error::AppError;
use crate::utils::jwt::{ed25519_key_pair, ed25519_public_key, DecodingKey, EncodingKey};
use vstd::prelude::*;

verus! {

/// The configuration file beside the working directory.
pub const LOCAL_CONFIG: &'static str = "../app.yaml";

/// The configuration file of the system.
pub const SYSTEM_CONFIG: &'static str = "/etc/config/app.yaml";

/// The environment variable that may name a configuration file.
pub const CONFIG_PATH_VAR: &'static str = "CONFIG_PATH";

/// The whole configuration.
#[derive(Clone, Debug, PartialEq, Eq)]
pub struct AppConfig {
    pub server: ServerConfig,
    pub auth: AuthConfig,
}

/// Where the server listens and where it finds the user store.
#[derive(Clone, Debug, PartialEq, Eq)]
pub struct ServerConfig {
    pub port: u16,
    pub db_url: String,
}

/// The two keys, each as a PEM text.
#[derive(Clone, Debug, PartialEq, Eq)]
pub struct AuthConfig {
    /// The private key that signs tokens.
    pub sk: String,
    /// The public key that verifies them.
    pub pk: String,
}

/// A place from which the configuration can be read.
#[derive(Clone, Debug, PartialEq, Eq)]
pub enum ConfigSource {
    /// `LOCAL_CONFIG`
    Local,
    /// `SYSTEM_CONFIG`
    System,
    /// The file that `CONFIG_PATH_VAR` names.
    Named(String),
}

/// A `ConfigSource` as a mathematical value.
pub enum ConfigSourceView {
    Local,
    System,
    Named(Seq<char>),
}

impl View for ConfigSource {
    type V = ConfigSourceView;

    open spec fn view(&self) -> ConfigSourceView {
        match self {
            ConfigSource::Local => ConfigSourceView::Local,
            ConfigSource::System => ConfigSourceView::System,
            ConfigSource::Named(path) => ConfigSourceView::Named(path@),
        }
    }
}

/// The place that is read: the first that is there, of the local file, the
/// system file and the file that the environment names.
pub open spec fn first_source(local: bool, system: bool, named: Option<Seq<char>>) -> Option<
    ConfigSourceView,
> {
    if local {
        Some(ConfigSourceView::Local)
    } else if system {
        Some(ConfigSourceView::System)
    } else {
        match named {
            Some(path) => Some(ConfigSourceView::Named(path)),
            None => None,
        }
    }
}

impl ConfigSource {
    /// Picks the place to read the configuration from. `local` and `system`
    /// say whether those files could be opened; `named` is the value of
    /// `CONFIG_PATH_VAR`, if it is set. The first that is there wins;
    /// `None` means that no configuration was found.
    pub fn first(local: bool, system: bool, named: Option<String>) -> (source: Option<
        ConfigSource,
    >)
        ensures
            match source {
                Some(s) => first_source(local, system, crate::utils::claims::text_view(named))
                    == Some(s@),
                None => first_source(local, system, crate::utils::claims::text_view(named))
                    is None,
            },
    {
        if local {
            Some(ConfigSource::Local)
        } else if system {
            Some(ConfigSource::System)
        } else {
            match named {
                Some(path) => Some(ConfigSource::Named(path)),
                None => None,
            }
        }
    }
}

/// The two keys of a running server. They are read once, at start-up, and
/// never change.
pub struct AuthKeys {
    pub ek: EncodingKey,
    pub dk: DecodingKey,
}

impl AuthConfig {
    /// Reads both keys from their PEM texts. Start-up fails with
    /// `KeyLoadError` where either text holds no key.
    pub fn load_keys(&self) -> (r: Result<AuthKeys, AppError>)
        ensures
            match r {
                Ok(keys) => ed25519_public_key(self.pk@) == Some(keys.dk@) && ed25519_key_pair(
                    self.sk@,
                ) == Some(keys.ek@),
                Err(e) => e == AppError::KeyLoadError && (ed25519_public_key(self.pk@) is None
                    || ed25519_key_pair(self.sk@) is None),
            },
    {
        let dk = match DecodingKey::load(self.pk.as_str()) {
            Ok(dk) => dk,
            Err(e) => {
                return Err(e);
            },
        };
        match EncodingKey::load(self.sk.as_str()) {
            Ok(ek) => Ok(AuthKeys { ek, dk }),
            Err(e) => Err(e),
        }
    }
}

} // verus!
