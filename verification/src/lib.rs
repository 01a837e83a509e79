//! Loading and storing configuration documents in several serialization
//! formats behind one interface, and a small vault of named secret blobs.
//!
//! The library holds the decisions: which format applies, how a failure is
//! reported and which details accompany it, and which secret an alias names.
//! Opening files and running a codec is the caller's part; the caller hands
//! the outcome of each such step to the function that judges it.

pub mod context;
pub mod error;
pub mod formats;
pub mod vault;

pub use context::{Context, ContextValue, Scalar};
pub use error::{Error, ErrorKind, ErrorValue};
pub use formats::json::JsonManager;
pub use formats::toml::TomlManager;
pub use formats::xml::XmlManager;
pub use formats::yaml::YamlManager;
pub use formats::{
    read_config, read_str, write_config, ConfigTarget, ContentFormat, Manager, ReadFailure,
};
pub use vault::{SecretPayload, VaultConfig, VaultSecret, VaultSecrets};
