//! Ambient file descriptors that systemd hands to a service, and the
//! messages a service sends back to systemd.
pub mod checked;
pub mod decimal;
pub mod error;
pub mod fd_store;
pub mod names;
pub mod notify;
pub mod raw;

pub use error::{EnvValue, EnvVarError, EnvVarErrorKind, IntErrorKind};
pub use raw::{get_raw_ambient_fds, RawAmbientFd};
pub use checked::{AmbientFd, FdChecks, FdKind, FdName};
pub use notify::SocketAccess;
