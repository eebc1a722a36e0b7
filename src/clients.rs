//! Clients: an endpoint that opens a pipe some server created.
use core::marker::PhantomData;
use vstd::prelude::*;
use crate::builder::ClientBuilder;
use crate::error::{context_text, op_error, ErrorKind, NamedPipeWinError, OsError};
use crate::flags::{ERROR_INVALID_NAME, FILE_SHARE_NONE, MAX_PATH, OPEN_EXISTING, PIPE_READMODE_MESSAGE};
use crate::handle::{
    max_transfer, read_len_of, OldStdinHandle, OldStdoutHandle, PipeInfo, UnsafeHandle,
};
use crate::modes::{ClientAccessMode, ImpersonationLevel, ReadMode};
use crate::path::{
    c_path, cvt_path, local_pipe_path, local_pipe_path_of, path_is_valid, pipe_host, pipe_host_of,
    pipe_name, pipe_name_of, pipe_path, pipe_path_of,
};
use crate::roles::{ClientImpl, ClientReads, ClientWrites, Duplex, Inbound, Outbound, UnsafeWrapper};

verus! {

/// The flags-and-attributes word of an open: the impersonation level asked
/// for, or nothing.
pub open spec fn token_flags(token: Option<ImpersonationLevel>) -> u32 {
    match token {
        Some(t) => t.bits(),
        None => 0u32,
    }
}

/// Everything the system needs to open a client end of a pipe, checked.
#[derive(Debug, Clone)]
pub struct ClientRequest {
    path: String,
    c_path: Vec<u8>,
    desired_access: u32,
    share_mode: u32,
    creation_disposition: u32,
    flags_and_attributes: u32,
    /// The read mode the handle is switched to once open.
    read_mode: ReadMode,
}

/// The next system call of an open, as the library decides it.
#[derive(Debug)]
pub enum OpenStep {
    /// Switch the handle to the given read-mode word.
    SetReadMode(UnsafeHandle, u32),
    /// Query the handle's information.
    QueryInfo(UnsafeHandle),
    /// Release the handle: the open failed with the given error.
    Release(UnsafeHandle, OsError),
}

impl ClientRequest {
    pub closed spec fn spec_path(&self) -> Seq<char> {
        self.path@
    }

    pub fn path(&self) -> (r: &str)
        ensures
            r@ == self.spec_path(),
    {
        self.path.as_str()
    }

    pub closed spec fn spec_c_path(&self) -> Seq<u8> {
        self.c_path@
    }

    pub fn c_path(&self) -> (r: &[u8])
        ensures
            r@ == self.spec_c_path(),
    {
        self.c_path.as_slice()
    }

    pub closed spec fn spec_desired_access(&self) -> u32 {
        self.desired_access
    }

    pub fn desired_access(&self) -> (r: u32)
        ensures
            r == self.spec_desired_access(),
    {
        self.desired_access
    }

    pub closed spec fn spec_share_mode(&self) -> u32 {
        self.share_mode
    }

    pub fn share_mode(&self) -> (r: u32)
        ensures
            r == self.spec_share_mode(),
    {
        self.share_mode
    }

    pub closed spec fn spec_creation_disposition(&self) -> u32 {
        self.creation_disposition
    }

    pub fn creation_disposition(&self) -> (r: u32)
        ensures
            r == self.spec_creation_disposition(),
    {
        self.creation_disposition
    }

    pub closed spec fn spec_flags_and_attributes(&self) -> u32 {
        self.flags_and_attributes
    }

    pub fn flags_and_attributes(&self) -> (r: u32)
        ensures
            r == self.spec_flags_and_attributes(),
    {
        self.flags_and_attributes
    }

    pub closed spec fn spec_read_mode(&self) -> ReadMode {
        self.read_mode
    }

    pub fn read_mode(&self) -> (r: ReadMode)
        ensures
            r == self.spec_read_mode(),
    {
        self.read_mode
    }

    /// The request opens `path` for `access`, with the given read mode and impersonation level.
    pub open spec fn spec_asks(
        &self,
        path: Seq<char>,
        access: ClientAccessMode,
        read_mode: ReadMode,
        token: Option<ImpersonationLevel>,
    ) -> bool {
        &&& self.spec_path() == path
        &&& self.spec_c_path() == c_path(path)
        &&& self.spec_desired_access() == access.bits()
        &&& self.spec_share_mode() == FILE_SHARE_NONE
        &&& self.spec_creation_disposition() == OPEN_EXISTING
        &&& self.spec_flags_and_attributes() == token_flags(token)
        &&& self.spec_read_mode() == read_mode
    }

    /// Checks the path and gathers the arguments of an open. Fails, before
    /// any system call, exactly where the path is not valid.
    pub fn new(
        path: &str,
        access: ClientAccessMode,
        read_mode: ReadMode,
        token: Option<ImpersonationLevel>,
    ) -> (r: Result<ClientRequest, OsError>)
        ensures
            r is Ok <==> path_is_valid(path@),
            match r {
                Ok(q) => q.spec_asks(path@, access, read_mode, token),
                Err(e) => e.kind == ErrorKind::InvalidPath && e.code == ERROR_INVALID_NAME,
            },
    {
        let c_path = match cvt_path(path) {
            Ok(c) => c,
            Err(e) => return Err(e),
        };
        let flags = match token {
            Some(t) => t.into(),
            None => 0u32,
        };
        Ok(
            ClientRequest {
                path: path.to_owned(),
                c_path,
                desired_access: access.into(),
                share_mode: FILE_SHARE_NONE,
                creation_disposition: OPEN_EXISTING,
                flags_and_attributes: flags,
                read_mode,
            },
        )
    }

    /// The step after the pipe was opened: switch to message reads where they
    /// were asked for, else query the handle.
    pub fn opened(&self, handle: UnsafeHandle) -> (r: OpenStep)
        ensures
            r == (if self.spec_read_mode() == ReadMode::Message {
                OpenStep::SetReadMode(handle, PIPE_READMODE_MESSAGE)
            } else {
                OpenStep::QueryInfo(handle)
            }),
    {
        match self.read_mode {
            ReadMode::Message => OpenStep::SetReadMode(handle, ReadMode::Message.into()),
            ReadMode::Byte => OpenStep::QueryInfo(handle),
        }
    }

    /// The step after the read mode was switched: query the handle, or, where
    /// the switch failed, release it.
    pub fn read_mode_set(&self, handle: UnsafeHandle, outcome: Result<(), OsError>) -> (r: OpenStep)
        ensures
            match outcome {
                Ok(()) => r == OpenStep::QueryInfo(handle),
                Err(e) => r == OpenStep::Release(handle, e),
            },
    {
        match outcome {
            Ok(()) => OpenStep::QueryInfo(handle),
            Err(e) => OpenStep::Release(handle, e),
        }
    }
}

/// What a single call transaction (connect, write, read, close) hands to the system.
#[derive(Debug, Clone)]
pub struct CallRequest {
    c_path: Vec<u8>,
    write_len: u32,
    read_len: u32,
}

impl CallRequest {
    pub closed spec fn spec_c_path(&self) -> Seq<u8> {
        self.c_path@
    }

    pub fn c_path(&self) -> (r: &[u8])
        ensures
            r@ == self.spec_c_path(),
    {
        self.c_path.as_slice()
    }

    pub closed spec fn spec_write_len(&self) -> u32 {
        self.write_len
    }

    pub fn write_len(&self) -> (r: u32)
        ensures
            r == self.spec_write_len(),
    {
        self.write_len
    }

    pub closed spec fn spec_read_len(&self) -> u32 {
        self.read_len
    }

    pub fn read_len(&self) -> (r: u32)
        ensures
            r == self.spec_read_len(),
    {
        self.read_len
    }
}

/// The open client end of a pipe.
#[derive(Debug)]
pub struct UnsafeClient {
    pub(crate) handle: UnsafeHandle,
    pub(crate) path: String,
    pub(crate) info: PipeInfo,
}

impl UnsafeClient {
    pub closed spec fn spec_handle(&self) -> UnsafeHandle {
        self.handle
    }

    pub closed spec fn spec_path(&self) -> Seq<char> {
        self.path@
    }

    pub closed spec fn spec_info(&self) -> PipeInfo {
        self.info
    }

    /// Takes an opened handle once the query of its information has reported.
    /// Where the query failed, no client exists and the handle comes back with
    /// the error, to be released by the caller.
    pub fn open(request: &ClientRequest, handle: UnsafeHandle, info: Result<PipeInfo, OsError>)
        -> (r: Result<UnsafeClient, (UnsafeHandle, OsError)>)
        ensures
            r is Ok <==> info is Ok,
            match r {
                Ok(c) => c.spec_handle() == handle && c.spec_path() == request.spec_path() && info
                    == Ok::<PipeInfo, OsError>(c.spec_info()),
                Err((h, e)) => h == handle && info == Err::<PipeInfo, OsError>(e),
            },
    {
        match info {
            Ok(info) => Ok(UnsafeClient { handle, path: request.path().to_owned(), info }),
            Err(e) => Err((handle, e)),
        }
    }

    pub fn as_win_handle(&self) -> (r: isize)
        ensures
            r == self.spec_handle().0,
    {
        self.handle.0
    }

    pub fn path(&self) -> (r: &str)
        ensures
            r@ == self.spec_path(),
    {
        self.path.as_str()
    }

    pub fn name(&self) -> (r: &str)
        ensures
            r@ == pipe_name_of(self.spec_path()),
    {
        pipe_name(self.path.as_str())
    }

    pub fn host(&self) -> (r: &str)
        ensures
            r@ == pipe_host_of(self.spec_path()),
    {
        pipe_host(self.path.as_str())
    }

    pub fn info(&self) -> (r: PipeInfo)
        ensures
            r == self.spec_info(),
    {
        self.info
    }

    /// Settles a close of the handle. Where it failed, the client comes back
    /// unchanged with the error, so that the caller may try again.
    pub fn close(self, outcome: Result<(), OsError>) -> (r: Result<(), (UnsafeClient, OsError)>)
        ensures
            r is Ok <==> outcome is Ok,
            r matches Err((c, e)) ==> c == self && outcome == Err::<(), OsError>(e),
    {
        match outcome {
            Ok(()) => Ok(()),
            Err(e) => Err((self, e)),
        }
    }

    /// Checks the arguments of a single call transaction on the pipe at
    /// `path`: the path, then the length of what is written. The read asks for
    /// the whole read buffer, up to what one call can move.
    pub fn call(path: &str, write_buf_len: usize, read_buf_len: usize) -> (r: Result<CallRequest, OsError>)
        ensures
            r is Ok <==> path_is_valid(path@) && write_buf_len as nat <= max_transfer(),
            match r {
                Ok(q) => q.spec_c_path() == c_path(path@) && q.spec_write_len() as usize == write_buf_len
                    && q.spec_read_len() as nat == read_len_of(read_buf_len as nat),
                Err(e) => if path_is_valid(path@) {
                    e.kind == ErrorKind::BufferTooLarge
                } else {
                    e.kind == ErrorKind::InvalidPath && e.code == ERROR_INVALID_NAME
                },
            },
    {
        let c_path = match cvt_path(path) {
            Ok(c) => c,
            Err(e) => return Err(e),
        };
        let write_len = match UnsafeHandle::write_len(write_buf_len) {
            Ok(n) => n,
            Err(e) => return Err(e),
        };
        Ok(CallRequest { c_path, write_len, read_len: UnsafeHandle::read_len(read_buf_len) })
    }
}

/// A client of direction `C`.
#[derive(Debug)]
pub struct PipeClient<C: ClientImpl> {
    inner: UnsafeClient,
    tag: PhantomData<C>,
}

/// Client of a two-way pipe (client to server and back).
pub type DuplexClient = PipeClient<Duplex>;

/// Client of an inbound pipe: it writes (client to server).
pub type InboundClient = PipeClient<Inbound>;

/// Client of an outbound pipe: it reads (server to client).
pub type OutboundClient = PipeClient<Outbound>;

impl<C: ClientImpl> UnsafeWrapper for PipeClient<C> {
    type Inner = UnsafeClient;

    closed spec fn inner_view(&self) -> UnsafeClient {
        self.inner
    }

    fn as_inner(&self) -> (r: &UnsafeClient) {
        &self.inner
    }

    fn into_inner(self) -> (r: UnsafeClient) {
        self.inner
    }
}

impl<C: ClientImpl> PipeClient<C> {
    /// Checks the path and gathers what opening it takes: this direction's
    /// access and read mode, no impersonation restriction. Fails, before any
    /// system call, exactly where the path is not valid.
    pub fn open(path: &str) -> (r: Result<ClientRequest, NamedPipeWinError>)
        ensures
            r is Ok <==> path_is_valid(path@),
            path@.len() >= MAX_PATH ==> (r matches Err(e) && e.spec_inner().kind
                == ErrorKind::InvalidPath && e.spec_inner().code == ERROR_INVALID_NAME),
            match r {
                Ok(q) => q.spec_asks(path@, C::spec_access_mode(), C::spec_read_mode(), None),
                Err(e) => e.spec_inner().kind == ErrorKind::InvalidPath && e.spec_inner().code
                    == ERROR_INVALID_NAME && e.spec_msg()
                    == context_text(C::spec_client_name(), path@, "open"@),
            },
    {
        match ClientRequest::new(path, C::access_mode(), C::read_mode(), None) {
            Ok(q) => Ok(q),
            Err(e) => Err(op_error(C::client_name(), path, "open", e)),
        }
    }

    /// As `open`, on the local machine's pipe `name`.
    pub fn with_name(name: &str) -> (r: Result<ClientRequest, NamedPipeWinError>)
        ensures
            r is Ok <==> path_is_valid(local_pipe_path_of(name@)),
            r matches Ok(q) ==> q.spec_asks(
                local_pipe_path_of(name@),
                C::spec_access_mode(),
                C::spec_read_mode(),
                None,
            ),
    {
        let path = local_pipe_path(name);
        Self::open(path.as_str())
    }

    /// As `open`, on pipe `name` of machine `host`.
    pub fn with_host_name(host_name: &str, name: &str) -> (r: Result<ClientRequest, NamedPipeWinError>)
        ensures
            r is Ok <==> path_is_valid(pipe_path_of(host_name@, name@)),
            r matches Ok(q) ==> q.spec_asks(
                pipe_path_of(host_name@, name@),
                C::spec_access_mode(),
                C::spec_read_mode(),
                None,
            ),
    {
        let path = pipe_path(host_name, name);
        Self::open(path.as_str())
    }

    /// Takes the handle that `request` opened once the query of its
    /// information has reported. Where the query failed, no client exists and
    /// the handle comes back with the error, to be released by the caller.
    pub fn opened(request: &ClientRequest, handle: UnsafeHandle, info: Result<PipeInfo, OsError>)
        -> (r: Result<PipeClient<C>, (UnsafeHandle, NamedPipeWinError)>)
        ensures
            r is Ok <==> info is Ok,
            match r {
                Ok(c) => c.inner_view().spec_handle() == handle && c.inner_view().spec_path()
                    == request.spec_path() && info == Ok::<PipeInfo, OsError>(c.inner_view().spec_info()),
                Err((h, e)) => h == handle && info == Err::<PipeInfo, OsError>(e.spec_inner())
                    && e.spec_msg() == context_text(C::spec_client_name(), request.spec_path(), "open"@),
            },
    {
        match UnsafeClient::open(request, handle, info) {
            Ok(inner) => Ok(PipeClient { inner, tag: PhantomData }),
            Err((h, e)) => Err((h, op_error(C::client_name(), request.path(), "open", e))),
        }
    }

    pub fn as_win_handle(&self) -> (r: isize)
        ensures
            r == self.inner_view().spec_handle().0,
    {
        self.inner.as_win_handle()
    }

    pub fn path(&self) -> (r: &str)
        ensures
            r@ == self.inner_view().spec_path(),
    {
        self.inner.path()
    }

    pub fn name(&self) -> (r: &str)
        ensures
            r@ == pipe_name_of(self.inner_view().spec_path()),
    {
        self.inner.name()
    }

    pub fn host(&self) -> (r: &str)
        ensures
            r@ == pipe_host_of(self.inner_view().spec_path()),
    {
        self.inner.host()
    }

    /// Settles a close of the handle. The client is consumed, so it cannot be
    /// closed twice; where the close failed, it comes back unchanged with the
    /// error, for the caller to try again or drop.
    pub fn close(self, outcome: Result<(), OsError>) -> (r: Result<(), (PipeClient<C>, NamedPipeWinError)>)
        ensures
            r is Ok <==> outcome is Ok,
            r matches Err((c, e)) ==> c == self && outcome == Err::<(), OsError>(e.spec_inner())
                && e.spec_msg() == context_text(
                C::spec_client_name(),
                self.inner_view().spec_path(),
                "close"@,
            ),
    {
        let PipeClient { inner, tag } = self;
        match inner.close(outcome) {
            Ok(()) => Ok(()),
            Err((inner, e)) => {
                let err = op_error(C::client_name(), inner.path(), "close", e);
                Err((PipeClient { inner, tag }, err))
            },
        }
    }

    /// A builder for clients of this direction with options of the caller's choosing.
    pub fn builder() -> (r: ClientBuilder<C>)
        ensures
            r == ClientBuilder::<C>::spec_default(),
    {
        ClientBuilder::new()
    }

    /// Wraps a failed call with this endpoint's context.
    fn transfer_error(&self, operation: &str, e: OsError) -> (r: NamedPipeWinError)
        ensures
            r.spec_inner() == e,
            r.spec_msg() == context_text(
                C::spec_client_name(),
                self.inner_view().spec_path(),
                operation@,
            ),
    {
        op_error(C::client_name(), self.inner.path(), operation, e)
    }
}

impl<C: ClientImpl + ClientReads> PipeClient<C> {
    /// How many bytes to ask for when reading into a buffer of `buf_len` bytes.
    pub fn read_len(&self, buf_len: usize) -> (r: u32)
        ensures
            r as nat == read_len_of(buf_len as nat),
    {
        UnsafeHandle::read_len(buf_len)
    }

    /// Settles a read: the number of bytes read, or the failure with context.
    pub fn read(&mut self, outcome: Result<u32, OsError>) -> (r: Result<u32, NamedPipeWinError>)
        ensures
            *final(self) == *old(self),
            match r {
                Ok(n) => outcome == Ok::<u32, OsError>(n),
                Err(e) => outcome == Err::<u32, OsError>(e.spec_inner()) && e.spec_msg()
                    == context_text(
                    C::spec_client_name(),
                    old(self).inner_view().spec_path(),
                    "read"@,
                ),
            },
    {
        match outcome {
            Ok(n) => Ok(n),
            Err(e) => Err(self.transfer_error("read", e)),
        }
    }

    /// Settles a redirection of standard input to this pipe: the token that
    /// owns the displaced handle.
    pub fn set_stdin(&self, outcome: Result<isize, OsError>) -> (r: Result<OldStdinHandle, NamedPipeWinError>)
        ensures
            match r {
                Ok(t) => outcome == Ok::<isize, OsError>(t.spec_handle()),
                Err(e) => outcome == Err::<isize, OsError>(e.spec_inner()) && e.spec_msg()
                    == context_text(
                    C::spec_client_name(),
                    self.inner_view().spec_path(),
                    "set_stdin"@,
                ),
            },
    {
        match outcome {
            Ok(h) => Ok(OldStdinHandle::new(h)),
            Err(e) => Err(self.transfer_error("set_stdin", e)),
        }
    }
}

impl<C: ClientImpl + ClientWrites> PipeClient<C> {
    /// How many bytes writing a buffer of `buf_len` bytes hands to the system.
    /// A buffer longer than one transfer is refused whole, before any system call.
    pub fn write_len(&self, buf_len: usize) -> (r: Result<u32, NamedPipeWinError>)
        ensures
            r is Ok <==> buf_len as nat <= max_transfer(),
            match r {
                Ok(n) => n as usize == buf_len,
                Err(e) => e.spec_inner().kind == ErrorKind::BufferTooLarge && e.spec_msg()
                    == context_text(
                    C::spec_client_name(),
                    self.inner_view().spec_path(),
                    "write"@,
                ),
            },
    {
        match UnsafeHandle::write_len(buf_len) {
            Ok(n) => Ok(n),
            Err(e) => Err(self.transfer_error("write", e)),
        }
    }

    /// Settles a write: the number of bytes written, or the failure with context.
    pub fn write(&mut self, outcome: Result<u32, OsError>) -> (r: Result<u32, NamedPipeWinError>)
        ensures
            *final(self) == *old(self),
            match r {
                Ok(n) => outcome == Ok::<u32, OsError>(n),
                Err(e) => outcome == Err::<u32, OsError>(e.spec_inner()) && e.spec_msg()
                    == context_text(
                    C::spec_client_name(),
                    old(self).inner_view().spec_path(),
                    "write"@,
                ),
            },
    {
        match outcome {
            Ok(n) => Ok(n),
            Err(e) => Err(self.transfer_error("write", e)),
        }
    }

    /// Settles a flush of the pipe's buffers.
    pub fn flush(&mut self, outcome: Result<(), OsError>) -> (r: Result<(), NamedPipeWinError>)
        ensures
            *final(self) == *old(self),
            r is Ok <==> outcome is Ok,
            r matches Err(e) ==> outcome == Err::<(), OsError>(e.spec_inner()) && e.spec_msg()
                == context_text(
                C::spec_client_name(),
                old(self).inner_view().spec_path(),
                "flush"@,
            ),
    {
        match outcome {
            Ok(()) => Ok(()),
            Err(e) => Err(self.transfer_error("flush", e)),
        }
    }

    /// Settles a redirection of standard output to this pipe: the token that
    /// owns the displaced handle.
    pub fn set_stdout(&self, outcome: Result<isize, OsError>) -> (r: Result<OldStdoutHandle, NamedPipeWinError>)
        ensures
            match r {
                Ok(t) => outcome == Ok::<isize, OsError>(t.spec_handle()),
                Err(e) => outcome == Err::<isize, OsError>(e.spec_inner()) && e.spec_msg()
                    == context_text(
                    C::spec_client_name(),
                    self.inner_view().spec_path(),
                    "set_stdout"@,
                ),
            },
    {
        match outcome {
            Ok(h) => Ok(OldStdoutHandle::new(h)),
            Err(e) => Err(self.transfer_error("set_stdout", e)),
        }
    }
}

} // verus!
