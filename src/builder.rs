//! Builders: servers and clients with options of the caller's choosing.
use core::marker::PhantomData;
use vstd::prelude::*;
use crate::clients::ClientRequest;
use crate::error::{context_text, op_error, ErrorKind, NamedPipeWinError};
use crate::flags::{
    DEFAULT_BUFSIZE, ERROR_INVALID_NAME, FILE_FLAG_FIRST_PIPE_INSTANCE, MAX_PATH, FILE_FLAG_WRITE_THROUGH, NMPWAIT_WAIT_FOREVER,
    PIPE_ACCEPT_REMOTE_CLIENTS, PIPE_REJECT_REMOTE_CLIENTS, PIPE_WAIT,
};
use crate::modes::{AccessMode, ImpersonationLevel, ReadMode, TypeMode, WaitMode};
use crate::options::{
    effective_read_mode, lemma_open_mode_keeps_direction, lemma_pipe_mode_decodes, open_mode_of,
    pipe_mode_of, resolve_read_mode, CreateRequest, SecurityAttributes, UnsafeServerBuilder,
};
use crate::path::path_is_valid;
use crate::roles::{ClientImpl, ServerImpl};

verus! {

/// Options of the servers of direction `Server` that `open` creates. The
/// builder does nothing until `open`, and may serve any number of servers.
#[derive(Debug)]
pub struct ServerBuilder<Server: ServerImpl> {
    pub __server: PhantomData<Server>,
    /// Byte stream or message stream.
    pub type_mode: TypeMode,
    /// How reads split the data; under byte framing reads are bytes whatever is asked.
    pub read_mode: ReadMode,
    /// Creation fails if the pipe already exists.
    pub create_new: bool,
    /// Accept clients from other machines, or turn them away.
    pub remote_clients: bool,
    pub max_instances: u32,
    /// outbound buffer size (server to client)
    pub buffer_size_out: u32,
    /// inbound buffer size (client to server)
    pub buffer_size_in: u32,
    /// default timeout for I/O and connection requests
    pub timeout: u32,
    pub security: SecurityAttributes,
}

impl<Server: ServerImpl> ServerBuilder<Server> {
    /// Message framing and reads, open or create, remote clients turned away,
    /// one instance, default buffer sizes, no timeout, default security.
    pub open spec fn spec_default() -> ServerBuilder<Server> {
        ServerBuilder {
            __server: PhantomData,
            type_mode: TypeMode::Message,
            read_mode: ReadMode::Message,
            create_new: false,
            remote_clients: false,
            max_instances: 1,
            buffer_size_out: DEFAULT_BUFSIZE,
            buffer_size_in: DEFAULT_BUFSIZE,
            timeout: NMPWAIT_WAIT_FOREVER,
            security: SecurityAttributes::spec_default(),
        }
    }

    /// The open-mode word: the direction, write-through always, and the
    /// first-instance flag when creation must be new.
    pub open spec fn spec_open_mode(&self) -> u32 {
        open_mode_of(Server::spec_access_mode(), self.create_new, true)
    }

    /// The pipe-mode word: framing, effective read mode, blocking, and the
    /// remote-client policy.
    pub open spec fn spec_pipe_mode(&self) -> u32 {
        pipe_mode_of(self.type_mode, self.read_mode, WaitMode::Wait, self.remote_clients)
    }

    pub fn type_mode(&mut self, type_mode: TypeMode) -> (r: &mut Self)
        ensures
            *r == (ServerBuilder { type_mode: type_mode, ..*old(self) }),
            *final(self) == *final(r),
    {
        self.type_mode = type_mode;
        self
    }

    pub fn read_mode(&mut self, read_mode: ReadMode) -> (r: &mut Self)
        ensures
            *r == (ServerBuilder { read_mode: read_mode, ..*old(self) }),
            *final(self) == *final(r),
    {
        self.read_mode = read_mode;
        self
    }

    pub fn create_new(&mut self, create_new: bool) -> (r: &mut Self)
        ensures
            *r == (ServerBuilder { create_new: create_new, ..*old(self) }),
            *final(self) == *final(r),
    {
        self.create_new = create_new;
        self
    }

    pub fn remote_clients(&mut self, remote_clients: bool) -> (r: &mut Self)
        ensures
            *r == (ServerBuilder { remote_clients: remote_clients, ..*old(self) }),
            *final(self) == *final(r),
    {
        self.remote_clients = remote_clients;
        self
    }

    pub fn max_instances(&mut self, max_instances: u32) -> (r: &mut Self)
        ensures
            *r == (ServerBuilder { max_instances: max_instances, ..*old(self) }),
            *final(self) == *final(r),
    {
        self.max_instances = max_instances;
        self
    }

    pub fn buffersize_out(&mut self, buffersize_out: u32) -> (r: &mut Self)
        ensures
            *r == (ServerBuilder { buffer_size_out: buffersize_out, ..*old(self) }),
            *final(self) == *final(r),
    {
        self.buffer_size_out = buffersize_out;
        self
    }

    pub fn buffersize_in(&mut self, buffersize_in: u32) -> (r: &mut Self)
        ensures
            *r == (ServerBuilder { buffer_size_in: buffersize_in, ..*old(self) }),
            *final(self) == *final(r),
    {
        self.buffer_size_in = buffersize_in;
        self
    }

    pub fn timeout(&mut self, timeout: u32) -> (r: &mut Self)
        ensures
            *r == (ServerBuilder { timeout: timeout, ..*old(self) }),
            *final(self) == *final(r),
    {
        self.timeout = timeout;
        self
    }

    pub fn security(&mut self, security: SecurityAttributes) -> (r: &mut Self)
        ensures
            *r == (ServerBuilder { security: security, ..*old(self) }),
            *final(self) == *final(r),
    {
        self.security = security;
        self
    }

    pub fn new() -> (r: ServerBuilder<Server>)
        ensures
            r == ServerBuilder::<Server>::spec_default(),
    {
        ServerBuilder {
            __server: PhantomData,
            type_mode: TypeMode::Message,
            read_mode: ReadMode::Message,
            create_new: false,
            remote_clients: false,
            max_instances: 1,
            buffer_size_out: DEFAULT_BUFSIZE,
            buffer_size_in: DEFAULT_BUFSIZE,
            timeout: NMPWAIT_WAIT_FOREVER,
            security: SecurityAttributes::new(),
        }
    }

    /// The read mode the pipe gets.
    pub fn effective_read_mode(&self) -> (r: ReadMode)
        ensures
            r == effective_read_mode(self.type_mode, self.read_mode),
            self.type_mode == TypeMode::Byte ==> r == ReadMode::Byte,
    {
        resolve_read_mode(self.type_mode, self.read_mode)
    }

    /// Checks the path and gathers what creating the pipe takes. Fails,
    /// before any system call, exactly where the path is not valid.
    pub fn open(&self, path: &str) -> (r: Result<CreateRequest, NamedPipeWinError>)
        ensures
            r is Ok <==> path_is_valid(path@),
            match r {
                Ok(q) => q.spec_path() == path@ && q.spec_open_mode() == self.spec_open_mode() && q.spec_pipe_mode()
                    == self.spec_pipe_mode() && q.spec_max_instances() == self.max_instances
                    && q.spec_out_buffer_size() == self.buffer_size_out && q.spec_in_buffer_size()
                    == self.buffer_size_in && q.spec_timeout() == self.timeout && q.spec_security()
                    == self.security,
                Err(e) => e.spec_inner().kind == ErrorKind::InvalidPath && e.spec_inner().code
                    == ERROR_INVALID_NAME && e.spec_msg()
                    == context_text("ServerBuilder"@, path@, "open"@),
            },
    {
        match CreateRequest::new(
            path,
            self.get_open_mode(),
            self.get_pipe_mode(),
            self.max_instances,
            self.buffer_size_out,
            self.buffer_size_in,
            self.timeout,
            self.security,
        ) {
            Ok(q) => Ok(q),
            Err(e) => Err(op_error("ServerBuilder", path, "open", e)),
        }
    }

    /// The open-mode word of the pipes this builder creates.
    pub fn get_open_mode(&self) -> (r: u32)
        ensures
            r == self.spec_open_mode(),
            AccessMode::from_bits(r) == Server::spec_access_mode(),
    {
        proof {
            lemma_open_mode_keeps_direction(Server::spec_access_mode(), self.create_new, true);
        }
        let pre = Server::access_mode().into();
        if self.create_new {
            pre | FILE_FLAG_FIRST_PIPE_INSTANCE | FILE_FLAG_WRITE_THROUGH
        } else {
            pre | 0u32 | FILE_FLAG_WRITE_THROUGH
        }
    }

    /// The pipe-mode word of the pipes this builder creates. Under byte
    /// framing it names byte reads, whatever read mode was asked for.
    pub fn get_pipe_mode(&self) -> (r: u32)
        ensures
            r == self.spec_pipe_mode(),
            TypeMode::from_bits(r) == self.type_mode,
            ReadMode::from_bits(r) == effective_read_mode(self.type_mode, self.read_mode),
            self.type_mode == TypeMode::Byte ==> ReadMode::from_bits(r) == ReadMode::Byte,
    {
        proof {
            lemma_pipe_mode_decodes(self.type_mode, self.read_mode, WaitMode::Wait, self.remote_clients);
        }
        let read_mode = resolve_read_mode(self.type_mode, self.read_mode);
        let pre = self.type_mode.into() | read_mode.into() | PIPE_WAIT;
        if self.remote_clients {
            pre | PIPE_ACCEPT_REMOTE_CLIENTS
        } else {
            pre | PIPE_REJECT_REMOTE_CLIENTS
        }
    }
}

/// Whatever read mode a builder asks for, a byte-framed pipe it creates reads
/// bytes: its pipe-mode word names byte reads. Under message framing the
/// requested read mode is kept.
pub proof fn lemma_byte_framing_forces_byte_reads<Server: ServerImpl>(b: ServerBuilder<Server>)
    ensures
        b.type_mode == TypeMode::Byte ==> ReadMode::from_bits(b.spec_pipe_mode()) == ReadMode::Byte,
        b.type_mode == TypeMode::Message ==> ReadMode::from_bits(b.spec_pipe_mode()) == b.read_mode,
        TypeMode::from_bits(b.spec_pipe_mode()) == b.type_mode,
{
    lemma_pipe_mode_decodes(b.type_mode, b.read_mode, WaitMode::Wait, b.remote_clients);
}

/// The same for the lower-level builder, whatever its wait mode.
pub proof fn lemma_unsafe_byte_framing_forces_byte_reads(b: UnsafeServerBuilder)
    ensures
        b.options.type_mode == TypeMode::Byte ==> ReadMode::from_bits(
            pipe_mode_of(
                b.options.type_mode,
                b.options.read_mode,
                b.options.wait_mode,
                b.options.remote_clients,
            ),
        ) == ReadMode::Byte,
{
    lemma_pipe_mode_decodes(
        b.options.type_mode,
        b.options.read_mode,
        b.options.wait_mode,
        b.options.remote_clients,
    );
}

impl<Server: ServerImpl> Default for ServerBuilder<Server> {
    fn default() -> (r: ServerBuilder<Server>)
        ensures
            r == ServerBuilder::<Server>::spec_default(),
    {
        ServerBuilder::new()
    }
}

/// Options of the clients of direction `Client` that `open` opens.
#[derive(Debug)]
pub struct ClientBuilder<Client: ClientImpl> {
    pub __client: PhantomData<Client>,
    /// How reads split the data.
    pub read_mode: ReadMode,
    /// The impersonation level the client allows the server, if it restricts it.
    pub security_token: Option<ImpersonationLevel>,
}

impl<Client: ClientImpl> ClientBuilder<Client> {
    /// Message reads, no restriction of impersonation.
    pub open spec fn spec_default() -> ClientBuilder<Client> {
        ClientBuilder { __client: PhantomData, read_mode: ReadMode::Message, security_token: None }
    }

    pub fn read_mode(&mut self, read_mode: ReadMode) -> (r: &mut Self)
        ensures
            *r == (ClientBuilder { read_mode: read_mode, ..*old(self) }),
            *final(self) == *final(r),
    {
        self.read_mode = read_mode;
        self
    }

    pub fn security(&mut self, security_token: ImpersonationLevel) -> (r: &mut Self)
        ensures
            *r == (ClientBuilder { security_token: Some(security_token), ..*old(self) }),
            *final(self) == *final(r),
    {
        self.security_token = Some(security_token);
        self
    }

    pub fn new() -> (r: ClientBuilder<Client>)
        ensures
            r == ClientBuilder::<Client>::spec_default(),
    {
        ClientBuilder { __client: PhantomData, read_mode: ReadMode::Message, security_token: None }
    }

    /// Checks the path and gathers what opening the pipe takes. Fails, before
    /// any system call, exactly where the path is not valid.
    pub fn open(&self, path: &str) -> (r: Result<ClientRequest, NamedPipeWinError>)
        ensures
            r is Ok <==> path_is_valid(path@),
            path@.len() >= MAX_PATH ==> (r matches Err(e) && e.spec_inner().kind
                == ErrorKind::InvalidPath && e.spec_inner().code == ERROR_INVALID_NAME),
            match r {
                Ok(q) => q.spec_asks(path@, Client::spec_access_mode(), self.read_mode, self.security_token),
                Err(e) => e.spec_inner().kind == ErrorKind::InvalidPath && e.spec_inner().code
                    == ERROR_INVALID_NAME && e.spec_msg()
                    == context_text("ClientBuilder"@, path@, "open"@),
            },
    {
        match ClientRequest::new(path, Client::access_mode(), self.read_mode, self.security_token) {
            Ok(q) => Ok(q),
            Err(e) => Err(op_error("ClientBuilder", path, "open", e)),
        }
    }
}

impl<Client: ClientImpl> Default for ClientBuilder<Client> {
    fn default() -> (r: ClientBuilder<Client>)
        ensures
            r == ClientBuilder::<Client>::spec_default(),
    {
        ClientBuilder::new()
    }
}

} // verus!
