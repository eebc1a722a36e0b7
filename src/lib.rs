//! Typed, ownership-checked named pipe endpoints.
//!
//! The library decides everything that does not touch the operating system:
//! which flag words a configuration produces, which paths are acceptable,
//! how large a transfer may be, which role may read or write, and how an
//! endpoint moves from one lifecycle state to the next once the system call
//! that drives it has reported its outcome. The system calls themselves are
//! made by the caller, which hands their outcomes back to the library.
//!
//! Inbound pipes carry data from client to server, outbound pipes from
//! server to client, and duplex pipes both ways.

pub mod flags;
pub mod modes;
pub mod error;
pub mod path;
pub mod handle;
pub mod options;
pub mod roles;
pub mod builder;
pub mod servers;
pub mod clients;

pub use builder::{ClientBuilder, ServerBuilder};
pub use clients::{DuplexClient, InboundClient, OutboundClient, PipeClient, UnsafeClient};
pub use error::{ErrorKind, NamedPipeIoError, NamedPipeWinError, OsError};
pub use flags::{DEFAULT_BUFSIZE, MAX_TRANSACTION};
pub use handle::{OldStdinHandle, OldStdoutHandle, PipeInfo, PipeInfoFlags, UnsafeHandle};
pub use modes::{AccessMode, ClientAccessMode, ImpersonationLevel, ReadMode, TypeMode, WaitMode};
pub use path::{DEFAULT_PREFIX, LOCAL_PREFIX};
pub use roles::{ClientImpl, Duplex, Inbound, Outbound, ServerImpl, UnsafeWrapper};
pub use servers::{
    ConnectedDuplexServer, ConnectedInboundServer, ConnectedOutboundServer, ConnectedServer,
    DuplexServer, InboundServer, OutboundServer, PipeServer, UnsafeConnectedServer, UnsafeServer,
};
