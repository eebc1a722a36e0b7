//! The native handle of a pipe, what the system reports about it, and the
//! limits on a single transfer through it.
use vstd::prelude::*;
use vstd::string::StringExecFns;
use crate::error::{ErrorKind, OsError};
use crate::flags::{ERROR_BUFFER_TOO_LARGE, PIPE_SERVER_END, PIPE_TYPE_MESSAGE};

verus! {

/// Largest number of bytes one read or write call can move.
pub open spec fn max_transfer() -> nat {
    u32::MAX as nat
}

/// How many bytes a read into a buffer of `buf_len` bytes asks for: the
/// whole buffer, up to what one call can move.
pub open spec fn read_len_of(buf_len: nat) -> nat {
    if buf_len <= max_transfer() {
        buf_len
    } else {
        max_transfer()
    }
}

/// Raw handle of a named pipe, as the system hands it out.
#[derive(Debug, Clone, Copy, PartialEq, Eq, Structural)]
pub struct UnsafeHandle(pub isize);

impl UnsafeHandle {
    /// The handle in the form the system calls take.
    pub fn as_win_handle(&self) -> (r: isize)
        ensures
            r == self.0,
    {
        self.0
    }

    pub fn as_inner(&self) -> (r: isize)
        ensures
            r == self.0,
    {
        self.0
    }

    pub fn into_inner(self) -> (r: isize)
        ensures
            r == self.0,
    {
        self.0
    }

    pub fn from_inner(inner: isize) -> (r: UnsafeHandle)
        ensures
            r.0 == inner,
    {
        UnsafeHandle(inner)
    }

    /// Reads are never scattered over several buffers.
    pub fn is_read_vectored(&self) -> (r: bool)
        ensures
            !r,
    {
        false
    }

    /// Writes are never gathered from several buffers.
    pub fn is_write_vectored(&self) -> (r: bool)
        ensures
            !r,
    {
        false
    }

    /// How many bytes to ask for when reading into a buffer of `buf_len` bytes:
    /// the whole buffer, up to what one call can move.
    pub fn read_len(buf_len: usize) -> (r: u32)
        ensures
            r as nat == read_len_of(buf_len as nat),
    {
        if buf_len > u32::MAX as usize {
            u32::MAX
        } else {
            buf_len as u32
        }
    }

    /// How many bytes a write of a buffer of `buf_len` bytes hands to the system.
    /// A buffer that one call cannot carry is refused whole: nothing of it is written.
    pub fn write_len(buf_len: usize) -> (r: Result<u32, OsError>)
        ensures
            r is Ok <==> buf_len as nat <= max_transfer(),
            match r {
                Ok(n) => n as usize == buf_len,
                Err(e) => e.kind == ErrorKind::BufferTooLarge && e.code == ERROR_BUFFER_TOO_LARGE,
            },
    {
        if buf_len > u32::MAX as usize {
            return Err(
                OsError {
                    kind: ErrorKind::BufferTooLarge,
                    code: ERROR_BUFFER_TOO_LARGE,
                    message: String::from_str("write buffer length larger than u32"),
                },
            );
        }
        Ok(buf_len as u32)
    }
}

/// The flag word the system reports for a pipe handle.
#[derive(Debug, Clone, Copy, PartialEq, Eq, Structural, Default)]
pub struct PipeInfoFlags(pub u32);

impl PipeInfoFlags {
    /// The handle is the server end of the pipe.
    pub fn server(&self) -> (r: bool)
        ensures
            r == (self.0 & PIPE_SERVER_END != 0),
    {
        self.0 & PIPE_SERVER_END != 0
    }

    /// The handle is the client end of the pipe.
    pub fn client(&self) -> (r: bool)
        ensures
            r == (self.0 & PIPE_SERVER_END == 0),
    {
        self.0 & PIPE_SERVER_END == 0
    }

    /// The pipe carries a stream of bytes.
    pub fn byte(&self) -> (r: bool)
        ensures
            r == (self.0 & PIPE_TYPE_MESSAGE == 0),
    {
        self.0 & PIPE_TYPE_MESSAGE == 0
    }

    /// The pipe carries a stream of messages.
    pub fn message(&self) -> (r: bool)
        ensures
            r == (self.0 & PIPE_TYPE_MESSAGE != 0),
    {
        self.0 & PIPE_TYPE_MESSAGE != 0
    }
}

/// What the system reports about a pipe: its flags, buffer sizes and instance limit.
#[derive(Debug, Clone, Copy, PartialEq, Eq, Structural, Default)]
pub struct PipeInfo {
    pub flags: PipeInfoFlags,
    pub in_size: u32,
    pub out_size: u32,
    pub max_instances: u32,
}

/// The standard input handle that a redirection displaced. It is the one
/// owner of that handle: putting it back consumes the token.
#[derive(Debug)]
pub struct OldStdinHandle {
    handle: isize,
}

impl OldStdinHandle {
    pub closed spec fn spec_handle(&self) -> isize {
        self.handle
    }

    pub(crate) fn new(handle: isize) -> (r: OldStdinHandle)
        ensures
            r.spec_handle() == handle,
    {
        OldStdinHandle { handle }
    }

    /// Gives up the token and hands out the displaced handle, to be made standard input again.
    pub fn into_handle(self) -> (r: isize)
        ensures
            r == self.spec_handle(),
    {
        self.handle
    }
}

/// The standard output handle that a redirection displaced. It is the one
/// owner of that handle: putting it back consumes the token.
#[derive(Debug)]
pub struct OldStdoutHandle {
    handle: isize,
}

impl OldStdoutHandle {
    pub closed spec fn spec_handle(&self) -> isize {
        self.handle
    }

    pub(crate) fn new(handle: isize) -> (r: OldStdoutHandle)
        ensures
            r.spec_handle() == handle,
    {
        OldStdoutHandle { handle }
    }

    /// Gives up the token and hands out the displaced handle, to be made standard output again.
    pub fn into_handle(self) -> (r: isize)
        ensures
            r == self.spec_handle(),
    {
        self.handle
    }
}

} // verus!
