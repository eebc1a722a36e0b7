//! Servers: an endpoint that creates a pipe and waits for clients.
//!
//! A server can only wait for a client; reading and writing belong to the
//! connected server that a successful `connect` hands out, and to nothing else.
//! The connected server shares the server's handle: disconnecting it ends the
//! conversation with that client and leaves the pipe instance to the server,
//! which may then wait for the next client. Closing the handle is the
//! server's alone.
use core::marker::PhantomData;
use vstd::prelude::*;
use crate::builder::ServerBuilder;
use crate::error::{context_text, op_error, ErrorKind, NamedPipeWinError, OsError};
use crate::flags::{
    DEFAULT_BUFSIZE, ERROR_INVALID_NAME, ERROR_PIPE_CONNECTED_HRESULT, NMPWAIT_WAIT_FOREVER,
};
use crate::handle::{
    max_transfer, read_len_of, OldStdinHandle, OldStdoutHandle, PipeInfo, UnsafeHandle,
};
use crate::modes::{ReadMode, TypeMode, WaitMode};
use crate::options::{pipe_mode_of, CreateRequest, SecurityAttributes};
use crate::path::{
    local_pipe_path, local_pipe_path_of, path_is_valid, pipe_host, pipe_host_of, pipe_name,
    pipe_name_of, pipe_path, pipe_path_of,
};
use crate::roles::{Duplex, Inbound, Outbound, ServerImpl, ServerReads, ServerWrites, UnsafeWrapper};

verus! {

/// A created pipe instance, owned by the server end.
#[derive(Debug)]
pub struct UnsafeServer {
    pub(crate) handle: UnsafeHandle,
    pub(crate) path: String,
    pub(crate) info: PipeInfo,
}

impl UnsafeServer {
    pub closed spec fn spec_handle(&self) -> UnsafeHandle {
        self.handle
    }

    pub closed spec fn spec_path(&self) -> Seq<char> {
        self.path@
    }

    pub closed spec fn spec_info(&self) -> PipeInfo {
        self.info
    }

    /// Takes a created pipe instance once the query of its information has
    /// reported. Where the query failed, no server exists and the handle comes
    /// back with the error, to be released by the caller.
    pub fn create(request: &CreateRequest, handle: UnsafeHandle, info: Result<PipeInfo, OsError>)
        -> (r: Result<UnsafeServer, (UnsafeHandle, OsError)>)
        ensures
            r is Ok <==> info is Ok,
            match r {
                Ok(s) => s.spec_handle() == handle && s.spec_path() == request.spec_path() && info
                    == Ok::<PipeInfo, OsError>(s.spec_info()),
                Err((h, e)) => h == handle && info == Err::<PipeInfo, OsError>(e),
            },
    {
        match info {
            Ok(info) => Ok(UnsafeServer { handle, path: request.path().to_owned(), info }),
            Err(e) => Err((handle, e)),
        }
    }

    pub fn as_win_handle(&self) -> (r: isize)
        ensures
            r == self.spec_handle().0,
    {
        self.handle.0
    }

    pub fn path(&self) -> (r: &str)
        ensures
            r@ == self.spec_path(),
    {
        self.path.as_str()
    }

    pub fn name(&self) -> (r: &str)
        ensures
            r@ == pipe_name_of(self.spec_path()),
    {
        pipe_name(self.path.as_str())
    }

    pub fn host(&self) -> (r: &str)
        ensures
            r@ == pipe_host_of(self.spec_path()),
    {
        pipe_host(self.path.as_str())
    }

    pub fn info(&self) -> (r: PipeInfo)
        ensures
            r == self.spec_info(),
    {
        self.info
    }

    /// Settles a close of the handle. Where it failed, the server comes back
    /// unchanged with the error, so that the caller may try again.
    pub fn close(self, outcome: Result<(), OsError>) -> (r: Result<(), (UnsafeServer, OsError)>)
        ensures
            r is Ok <==> outcome is Ok,
            r matches Err((s, e)) ==> s == self && outcome == Err::<(), OsError>(e),
    {
        match outcome {
            Ok(()) => Ok(()),
            Err(e) => Err((self, e)),
        }
    }

    /// Settles a wait for a client. Only a successful wait gives a connected
    /// server, which shares this instance's handle. A wait that reports the
    /// client as already attached counts as successful.
    pub fn connect(&self, outcome: Result<(), OsError>) -> (r: Result<UnsafeConnectedServer, OsError>)
        ensures
            r is Ok <==> connect_succeeded(outcome),
            match r {
                Ok(c) => c.spec_handle() == self.spec_handle() && c.spec_path() == self.spec_path()
                    && c.spec_info() == self.spec_info(),
                Err(e) => outcome == Err::<(), OsError>(e),
            },
    {
        match outcome {
            Err(e) if e.code != ERROR_PIPE_CONNECTED_HRESULT => Err(e),
            _ => Ok(
                UnsafeConnectedServer { handle: self.handle, path: self.path.clone(), info: self.info },
            ),
        }
    }
}

/// Whether a wait for a client ended with a client attached: it succeeded,
/// or it reported that the client had attached before the wait began.
pub open spec fn connect_succeeded(outcome: Result<(), OsError>) -> bool {
    outcome is Ok || (outcome matches Err(e) && e.code == ERROR_PIPE_CONNECTED_HRESULT)
}

/// A pipe instance with a client at the other end.
#[derive(Debug)]
pub struct UnsafeConnectedServer {
    pub(crate) handle: UnsafeHandle,
    pub(crate) path: String,
    pub(crate) info: PipeInfo,
}

impl UnsafeConnectedServer {
    pub closed spec fn spec_handle(&self) -> UnsafeHandle {
        self.handle
    }

    pub closed spec fn spec_path(&self) -> Seq<char> {
        self.path@
    }

    pub closed spec fn spec_info(&self) -> PipeInfo {
        self.info
    }

    pub fn as_win_handle(&self) -> (r: isize)
        ensures
            r == self.spec_handle().0,
    {
        self.handle.0
    }

    pub fn path(&self) -> (r: &str)
        ensures
            r@ == self.spec_path(),
    {
        self.path.as_str()
    }

    pub fn name(&self) -> (r: &str)
        ensures
            r@ == pipe_name_of(self.spec_path()),
    {
        pipe_name(self.path.as_str())
    }

    pub fn host(&self) -> (r: &str)
        ensures
            r@ == pipe_host_of(self.spec_path()),
    {
        pipe_host(self.path.as_str())
    }

    pub fn info(&self) -> (r: PipeInfo)
        ensures
            r == self.spec_info(),
    {
        self.info
    }

    /// Settles a disconnect. Where it failed, the connected server comes back
    /// unchanged with the error.
    pub fn disconnect(self, outcome: Result<(), OsError>) -> (r: Result<(), (UnsafeConnectedServer, OsError)>)
        ensures
            r is Ok <==> outcome is Ok,
            r matches Err((s, e)) ==> s == self && outcome == Err::<(), OsError>(e),
    {
        match outcome {
            Ok(()) => Ok(()),
            Err(e) => Err((self, e)),
        }
    }
}

/// The request a plain open makes: the server's direction, message framing
/// and reads, blocking, remote clients turned away, one instance, default
/// buffer sizes, no timeout, default security.
pub open spec fn is_default_request(q: CreateRequest, open_mode: u32, path: Seq<char>) -> bool {
    &&& q.spec_path() == path
    &&& q.spec_open_mode() == open_mode
    &&& q.spec_pipe_mode() == pipe_mode_of(TypeMode::Message, ReadMode::Message, WaitMode::Wait, false)
    &&& q.spec_max_instances() == 1
    &&& q.spec_out_buffer_size() == DEFAULT_BUFSIZE
    &&& q.spec_in_buffer_size() == DEFAULT_BUFSIZE
    &&& q.spec_timeout() == NMPWAIT_WAIT_FOREVER
    &&& q.spec_security() == SecurityAttributes::spec_default()
}

/// A server of direction `S`, waiting for clients.
#[derive(Debug)]
pub struct PipeServer<S: ServerImpl> {
    inner: UnsafeServer,
    tag: PhantomData<S>,
}

/// Server of a two-way pipe (server to client and back).
pub type DuplexServer = PipeServer<Duplex>;

/// Server of an inbound pipe (client to server).
pub type InboundServer = PipeServer<Inbound>;

/// Server of an outbound pipe (server to client).
pub type OutboundServer = PipeServer<Outbound>;

impl<S: ServerImpl> UnsafeWrapper for PipeServer<S> {
    type Inner = UnsafeServer;

    closed spec fn inner_view(&self) -> UnsafeServer {
        self.inner
    }

    fn as_inner(&self) -> (r: &UnsafeServer) {
        &self.inner
    }

    fn into_inner(self) -> (r: UnsafeServer) {
        self.inner
    }
}

impl<S: ServerImpl> PipeServer<S> {
    /// Checks the path and gathers what creating a pipe with the default
    /// options takes. Fails, before any system call, exactly where the path
    /// is not valid.
    pub fn open(path: &str) -> (r: Result<CreateRequest, NamedPipeWinError>)
        ensures
            r is Ok <==> path_is_valid(path@),
            match r {
                Ok(q) => is_default_request(q, S::spec_access_mode().bits(), path@),
                Err(e) => e.spec_inner().kind == ErrorKind::InvalidPath && e.spec_inner().code
                    == ERROR_INVALID_NAME && e.spec_msg()
                    == context_text(S::spec_server_name(), path@, "open"@),
            },
    {
        let access = S::access_mode().into();
        let pipe_mode = TypeMode::Message.into() | ReadMode::Message.into() | WaitMode::Wait.into()
            | crate::flags::PIPE_REJECT_REMOTE_CLIENTS;
        match CreateRequest::new(
            path,
            access,
            pipe_mode,
            1,
            DEFAULT_BUFSIZE,
            DEFAULT_BUFSIZE,
            NMPWAIT_WAIT_FOREVER,
            SecurityAttributes::new(),
        ) {
            Ok(q) => Ok(q),
            Err(e) => Err(op_error(S::server_name(), path, "open", e)),
        }
    }

    /// As `open`, on the local machine's pipe `name`.
    pub fn with_name(name: &str) -> (r: Result<CreateRequest, NamedPipeWinError>)
        ensures
            r is Ok <==> path_is_valid(local_pipe_path_of(name@)),
            r matches Ok(q) ==> is_default_request(
                q,
                S::spec_access_mode().bits(),
                local_pipe_path_of(name@),
            ),
    {
        let path = local_pipe_path(name);
        Self::open(path.as_str())
    }

    /// As `open`, on pipe `name` of machine `host`.
    pub fn with_host_name(host_name: &str, name: &str) -> (r: Result<CreateRequest, NamedPipeWinError>)
        ensures
            r is Ok <==> path_is_valid(pipe_path_of(host_name@, name@)),
            r matches Ok(q) ==> is_default_request(
                q,
                S::spec_access_mode().bits(),
                pipe_path_of(host_name@, name@),
            ),
    {
        let path = pipe_path(host_name, name);
        Self::open(path.as_str())
    }

    /// Takes the pipe instance that `request` created once the query of its
    /// information has reported. Where the query failed, no server exists and
    /// the handle comes back with the error, to be released by the caller.
    pub fn create(request: &CreateRequest, handle: UnsafeHandle, info: Result<PipeInfo, OsError>)
        -> (r: Result<PipeServer<S>, (UnsafeHandle, NamedPipeWinError)>)
        ensures
            r is Ok <==> info is Ok,
            match r {
                Ok(s) => s.inner_view().spec_handle() == handle && s.inner_view().spec_path()
                    == request.spec_path() && info == Ok::<PipeInfo, OsError>(s.inner_view().spec_info()),
                Err((h, e)) => h == handle && info == Err::<PipeInfo, OsError>(e.spec_inner())
                    && e.spec_msg() == context_text(S::spec_server_name(), request.spec_path(), "open"@),
            },
    {
        match UnsafeServer::create(request, handle, info) {
            Ok(inner) => Ok(PipeServer { inner, tag: PhantomData }),
            Err((h, e)) => Err((h, op_error(S::server_name(), request.path(), "open", e))),
        }
    }

    pub fn as_win_handle(&self) -> (r: isize)
        ensures
            r == self.inner_view().spec_handle().0,
    {
        self.inner.as_win_handle()
    }

    pub fn path(&self) -> (r: &str)
        ensures
            r@ == self.inner_view().spec_path(),
    {
        self.inner.path()
    }

    pub fn name(&self) -> (r: &str)
        ensures
            r@ == pipe_name_of(self.inner_view().spec_path()),
    {
        self.inner.name()
    }

    pub fn host(&self) -> (r: &str)
        ensures
            r@ == pipe_host_of(self.inner_view().spec_path()),
    {
        self.inner.host()
    }

    /// Settles a wait for a client. A connected server, the only endpoint that
    /// reads or writes, comes out of a successful wait and of nothing else; a
    /// wait that finds the client already attached is successful. The server
    /// itself stays as it was.
    pub fn connect(&mut self, outcome: Result<(), OsError>) -> (r: Result<ConnectedServer<S>, NamedPipeWinError>)
        ensures
            *final(self) == *old(self),
            r is Ok <==> connect_succeeded(outcome),
            match r {
                Ok(c) => c.inner_view().spec_handle() == old(self).inner_view().spec_handle()
                    && c.inner_view().spec_path() == old(self).inner_view().spec_path()
                    && c.inner_view().spec_info() == old(self).inner_view().spec_info(),
                Err(e) => outcome == Err::<(), OsError>(e.spec_inner()) && e.spec_msg()
                    == context_text(
                    S::spec_server_name(),
                    old(self).inner_view().spec_path(),
                    "connect"@,
                ),
            },
    {
        match self.inner.connect(outcome) {
            Ok(inner) => Ok(ConnectedServer { inner, tag: PhantomData }),
            Err(e) => Err(op_error(S::server_name(), self.inner.path(), "connect", e)),
        }
    }

    /// Settles a close of the handle. The server is consumed, so it cannot be
    /// closed twice; where the close failed, it comes back unchanged with the
    /// error, for the caller to try again or drop.
    pub fn close(self, outcome: Result<(), OsError>) -> (r: Result<(), (PipeServer<S>, NamedPipeWinError)>)
        ensures
            r is Ok <==> outcome is Ok,
            r matches Err((s, e)) ==> s == self && outcome == Err::<(), OsError>(e.spec_inner())
                && e.spec_msg() == context_text(
                S::spec_server_name(),
                self.inner_view().spec_path(),
                "close"@,
            ),
    {
        let PipeServer { inner, tag } = self;
        match inner.close(outcome) {
            Ok(()) => Ok(()),
            Err((inner, e)) => {
                let err = op_error(S::server_name(), inner.path(), "close", e);
                Err((PipeServer { inner, tag }, err))
            },
        }
    }

    /// A builder for servers of this direction with options of the caller's choosing.
    pub fn builder() -> (r: ServerBuilder<S>)
        ensures
            r == ServerBuilder::<S>::spec_default(),
    {
        ServerBuilder::new()
    }
}

/// A server of direction `S` with a client at the other end.
#[derive(Debug)]
pub struct ConnectedServer<S: ServerImpl> {
    inner: UnsafeConnectedServer,
    tag: PhantomData<S>,
}

/// Connected server of a two-way pipe.
pub type ConnectedDuplexServer = ConnectedServer<Duplex>;

/// Connected server of an inbound pipe: it reads.
pub type ConnectedInboundServer = ConnectedServer<Inbound>;

/// Connected server of an outbound pipe: it writes.
pub type ConnectedOutboundServer = ConnectedServer<Outbound>;

impl<S: ServerImpl> UnsafeWrapper for ConnectedServer<S> {
    type Inner = UnsafeConnectedServer;

    closed spec fn inner_view(&self) -> UnsafeConnectedServer {
        self.inner
    }

    fn as_inner(&self) -> (r: &UnsafeConnectedServer) {
        &self.inner
    }

    fn into_inner(self) -> (r: UnsafeConnectedServer) {
        self.inner
    }
}

impl<S: ServerImpl> ConnectedServer<S> {
    pub fn as_win_handle(&self) -> (r: isize)
        ensures
            r == self.inner_view().spec_handle().0,
    {
        self.inner.as_win_handle()
    }

    pub fn path(&self) -> (r: &str)
        ensures
            r@ == self.inner_view().spec_path(),
    {
        self.inner.path()
    }

    pub fn name(&self) -> (r: &str)
        ensures
            r@ == pipe_name_of(self.inner_view().spec_path()),
    {
        self.inner.name()
    }

    pub fn host(&self) -> (r: &str)
        ensures
            r@ == pipe_host_of(self.inner_view().spec_path()),
    {
        self.inner.host()
    }

    /// Settles a disconnect. The connected server is consumed; where the
    /// disconnect failed, it comes back unchanged with the error.
    pub fn disconnect(self, outcome: Result<(), OsError>) -> (r: Result<(), (ConnectedServer<S>, NamedPipeWinError)>)
        ensures
            r is Ok <==> outcome is Ok,
            r matches Err((s, e)) ==> s == self && outcome == Err::<(), OsError>(e.spec_inner())
                && e.spec_msg() == context_text(
                S::spec_connected_name(),
                self.inner_view().spec_path(),
                "disconnect"@,
            ),
    {
        let ConnectedServer { inner, tag } = self;
        match inner.disconnect(outcome) {
            Ok(()) => Ok(()),
            Err((inner, e)) => {
                let err = op_error(S::connected_name(), inner.path(), "disconnect", e);
                Err((ConnectedServer { inner, tag }, err))
            },
        }
    }

    /// Wraps a failed transfer call with this endpoint's context.
    fn transfer_error(&self, operation: &str, e: OsError) -> (r: NamedPipeWinError)
        ensures
            r.spec_inner() == e,
            r.spec_msg() == context_text(
                S::spec_connected_name(),
                self.inner_view().spec_path(),
                operation@,
            ),
    {
        op_error(S::connected_name(), self.inner.path(), operation, e)
    }
}

impl<S: ServerImpl + ServerReads> ConnectedServer<S> {
    /// How many bytes to ask for when reading into a buffer of `buf_len` bytes.
    pub fn read_len(&self, buf_len: usize) -> (r: u32)
        ensures
            r as nat == read_len_of(buf_len as nat),
    {
        UnsafeHandle::read_len(buf_len)
    }

    /// Settles a read: the number of bytes read, or the failure with context.
    pub fn read(&mut self, outcome: Result<u32, OsError>) -> (r: Result<u32, NamedPipeWinError>)
        ensures
            *final(self) == *old(self),
            match r {
                Ok(n) => outcome == Ok::<u32, OsError>(n),
                Err(e) => outcome == Err::<u32, OsError>(e.spec_inner()) && e.spec_msg()
                    == context_text(
                    S::spec_connected_name(),
                    old(self).inner_view().spec_path(),
                    "read"@,
                ),
            },
    {
        match outcome {
            Ok(n) => Ok(n),
            Err(e) => Err(self.transfer_error("read", e)),
        }
    }

    /// Settles a redirection of standard input to this pipe: the token that
    /// owns the displaced handle.
    pub fn set_stdin(&self, outcome: Result<isize, OsError>) -> (r: Result<OldStdinHandle, NamedPipeWinError>)
        ensures
            match r {
                Ok(t) => outcome == Ok::<isize, OsError>(t.spec_handle()),
                Err(e) => outcome == Err::<isize, OsError>(e.spec_inner()) && e.spec_msg()
                    == context_text(
                    S::spec_connected_name(),
                    self.inner_view().spec_path(),
                    "set_stdin"@,
                ),
            },
    {
        match outcome {
            Ok(h) => Ok(OldStdinHandle::new(h)),
            Err(e) => Err(self.transfer_error("set_stdin", e)),
        }
    }
}

impl<S: ServerImpl + ServerWrites> ConnectedServer<S> {
    /// How many bytes writing a buffer of `buf_len` bytes hands to the system.
    /// A buffer longer than one transfer is refused whole, before any system call.
    pub fn write_len(&self, buf_len: usize) -> (r: Result<u32, NamedPipeWinError>)
        ensures
            r is Ok <==> buf_len as nat <= max_transfer(),
            match r {
                Ok(n) => n as usize == buf_len,
                Err(e) => e.spec_inner().kind == ErrorKind::BufferTooLarge && e.spec_msg()
                    == context_text(
                    S::spec_connected_name(),
                    self.inner_view().spec_path(),
                    "write"@,
                ),
            },
    {
        match UnsafeHandle::write_len(buf_len) {
            Ok(n) => Ok(n),
            Err(e) => Err(self.transfer_error("write", e)),
        }
    }

    /// Settles a write: the number of bytes written, or the failure with context.
    pub fn write(&mut self, outcome: Result<u32, OsError>) -> (r: Result<u32, NamedPipeWinError>)
        ensures
            *final(self) == *old(self),
            match r {
                Ok(n) => outcome == Ok::<u32, OsError>(n),
                Err(e) => outcome == Err::<u32, OsError>(e.spec_inner()) && e.spec_msg()
                    == context_text(
                    S::spec_connected_name(),
                    old(self).inner_view().spec_path(),
                    "write"@,
                ),
            },
    {
        match outcome {
            Ok(n) => Ok(n),
            Err(e) => Err(self.transfer_error("write", e)),
        }
    }

    /// Settles a flush of the pipe's buffers.
    pub fn flush(&mut self, outcome: Result<(), OsError>) -> (r: Result<(), NamedPipeWinError>)
        ensures
            *final(self) == *old(self),
            r is Ok <==> outcome is Ok,
            r matches Err(e) ==> outcome == Err::<(), OsError>(e.spec_inner()) && e.spec_msg()
                == context_text(
                S::spec_connected_name(),
                old(self).inner_view().spec_path(),
                "flush"@,
            ),
    {
        match outcome {
            Ok(()) => Ok(()),
            Err(e) => Err(self.transfer_error("flush", e)),
        }
    }

    /// Settles a redirection of standard output to this pipe: the token that
    /// owns the displaced handle.
    pub fn set_stdout(&self, outcome: Result<isize, OsError>) -> (r: Result<OldStdoutHandle, NamedPipeWinError>)
        ensures
            match r {
                Ok(t) => outcome == Ok::<isize, OsError>(t.spec_handle()),
                Err(e) => outcome == Err::<isize, OsError>(e.spec_inner()) && e.spec_msg()
                    == context_text(
                    S::spec_connected_name(),
                    self.inner_view().spec_path(),
                    "set_stdout"@,
                ),
            },
    {
        match outcome {
            Ok(h) => Ok(OldStdoutHandle::new(h)),
            Err(e) => Err(self.transfer_error("set_stdout", e)),
        }
    }
}

} // verus!
