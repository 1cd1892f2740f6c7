//! A WebDAV file server core: configuration, validation, credential gate,
//! prefix routing and the server's start-up decisions.

pub mod addr;
pub mod config;
pub mod error;
pub mod gate;
pub mod route;
pub mod server;
pub mod settings;
pub mod tls;
pub mod utils;

pub use crate::addr::{BindAddr, IpAddress};
pub use crate::config::{DavConfig, RootStatus};
pub use crate::error::{ConfigError, ServerError};
pub use crate::gate::{Account, Gate, GateDecision};
pub use crate::server::{DavServer, Launch, ServerAction, ServerEvent, ServerPhase};
pub use crate::tls::{Certificate, TlsConfig};
