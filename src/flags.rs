//! Flag words of the named pipe system interface, as plain integers.
use vstd::prelude::*;

verus! {

/// Default size, in bytes, of each of a pipe's two buffers.
pub const DEFAULT_BUFSIZE: u32 = 512;

/// Largest number of bytes guaranteed for one transaction (a read and a write in one call).
pub const MAX_TRANSACTION: u32 = 65535;

/// Longest path the system accepts, terminating NUL included.
pub const MAX_PATH: u32 = 260;

/// System error code for a malformed object name.
pub const ERROR_INVALID_NAME: i32 = 123;

/// Error code reported for a buffer too large for one transfer.
pub const ERROR_BUFFER_TOO_LARGE: i32 = -1;

/// Error code of a wait for a client that found the client already
/// attached: the connection is good.
pub const ERROR_PIPE_CONNECTED_HRESULT: i32 = -2147024361;

/// Data flows from client to server.
pub const PIPE_ACCESS_INBOUND: u32 = 0x1;

/// Data flows from server to client.
pub const PIPE_ACCESS_OUTBOUND: u32 = 0x2;

/// Data flows both ways.
pub const PIPE_ACCESS_DUPLEX: u32 = 0x3;

/// Creation fails if an instance of the pipe already exists.
pub const FILE_FLAG_FIRST_PIPE_INSTANCE: u32 = 0x0008_0000;

/// Writes return only once the data has been handed to the other end.
pub const FILE_FLAG_WRITE_THROUGH: u32 = 0x8000_0000;

/// Data is written as a stream of bytes.
pub const PIPE_TYPE_BYTE: u32 = 0x0;

/// Data is written as a stream of messages.
pub const PIPE_TYPE_MESSAGE: u32 = 0x4;

/// Data is read as a stream of bytes.
pub const PIPE_READMODE_BYTE: u32 = 0x0;

/// Data is read as a stream of messages.
pub const PIPE_READMODE_MESSAGE: u32 = 0x2;

/// Calls block until they can complete.
pub const PIPE_WAIT: u32 = 0x0;

/// Calls return at once.
pub const PIPE_NOWAIT: u32 = 0x1;

/// Clients on other machines may connect.
pub const PIPE_ACCEPT_REMOTE_CLIENTS: u32 = 0x0;

/// Clients on other machines are turned away.
pub const PIPE_REJECT_REMOTE_CLIENTS: u32 = 0x8;

/// In a pipe's information word: the handle is the server end.
pub const PIPE_SERVER_END: u32 = 0x1;

/// Wait without a time limit.
pub const NMPWAIT_WAIT_FOREVER: u32 = 0xFFFF_FFFF;

/// Generic read access to a file or pipe.
pub const FILE_GENERIC_READ: u32 = 0x0012_0089;

/// Generic write access to a file or pipe.
pub const FILE_GENERIC_WRITE: u32 = 0x0012_0116;

/// The server may neither identify nor impersonate the client.
pub const SECURITY_ANONYMOUS: u32 = 0x0;

/// The server may identify the client but not impersonate it.
pub const SECURITY_IDENTIFICATION: u32 = 0x0001_0000;

/// The server may impersonate the client on the local system.
pub const SECURITY_IMPERSONATION: u32 = 0x0002_0000;

/// The server may impersonate the client on remote systems.
pub const SECURITY_DELEGATION: u32 = 0x0003_0000;

/// Mask of the impersonation level within a flag word.
pub const SECURITY_LEVEL_MASK: u32 = 0x0003_0000;

/// Only the enabled parts of the client's security context are visible.
pub const SECURITY_EFFECTIVE_ONLY: u32 = 0x0008_0000;

/// The flag word carries security quality-of-service information.
pub const SECURITY_SQOS_PRESENT: u32 = 0x0010_0000;

/// No sharing of the opened handle.
pub const FILE_SHARE_NONE: u32 = 0x0;

/// Open only what already exists.
pub const OPEN_EXISTING: u32 = 3;

} // verus!
