//! Options of a pipe that a server creates.
use vstd::prelude::*;
use crate::error::{ErrorKind, OsError};
use crate::flags::{
    DEFAULT_BUFSIZE, ERROR_INVALID_NAME, FILE_FLAG_FIRST_PIPE_INSTANCE, FILE_FLAG_WRITE_THROUGH, NMPWAIT_WAIT_FOREVER,
    PIPE_ACCEPT_REMOTE_CLIENTS, PIPE_REJECT_REMOTE_CLIENTS,
};
use crate::modes::{AccessMode, ReadMode, TypeMode, WaitMode};
use crate::path::{c_path, cvt_path, path_is_valid};

verus! {

/// The read mode a pipe gets: byte framing forces byte reads, and the
/// requested read mode counts only under message framing.
pub open spec fn effective_read_mode(type_mode: TypeMode, read_mode: ReadMode) -> ReadMode {
    match type_mode {
        TypeMode::Byte => ReadMode::Byte,
        TypeMode::Message => read_mode,
    }
}

/// Works out the read mode a pipe gets from its framing and the requested read mode.
pub fn resolve_read_mode(type_mode: TypeMode, read_mode: ReadMode) -> (r: ReadMode)
    ensures
        r == effective_read_mode(type_mode, read_mode),
{
    match type_mode {
        TypeMode::Byte => ReadMode::Byte,
        TypeMode::Message => read_mode,
    }
}

/// The open-mode word of a pipe: its direction, plus the first-instance flag
/// when creation must be new, plus the write-through flag when asked for.
pub open spec fn open_mode_of(access: AccessMode, create_new: bool, write_through: bool) -> u32 {
    access.bits() | (if create_new { FILE_FLAG_FIRST_PIPE_INSTANCE } else { 0u32 }) | (if write_through {
        FILE_FLAG_WRITE_THROUGH
    } else {
        0u32
    })
}

/// The pipe-mode word of a pipe: framing, effective read mode, wait mode and
/// remote-client policy.
pub open spec fn pipe_mode_of(
    type_mode: TypeMode,
    read_mode: ReadMode,
    wait_mode: WaitMode,
    remote_clients: bool,
) -> u32 {
    type_mode.bits() | effective_read_mode(type_mode, read_mode).bits() | wait_mode.bits() | (
    if remote_clients {
        PIPE_ACCEPT_REMOTE_CLIENTS
    } else {
        PIPE_REJECT_REMOTE_CLIENTS
    })
}

proof fn lemma_pipe_mode_fields(t: u32, r: u32, w: u32, c: u32)
    requires
        t == 0 || t == 4,
        r == 0 || r == 2,
        w == 0 || w == 1,
        c == 0 || c == 8,
    ensures
        (t | r | w | c) & 4 == t,
        (t | r | w | c) & 2 == r,
        (t | r | w | c) & 1 == w,
        (t | r | w | c) & 8 == c,
{
    assert((t | r | w | c) & 4 == t) by (bit_vector)
        requires
            t == 0 || t == 4,
            r == 0 || r == 2,
            w == 0 || w == 1,
            c == 0 || c == 8,
    ;
    assert((t | r | w | c) & 2 == r) by (bit_vector)
        requires
            t == 0 || t == 4,
            r == 0 || r == 2,
            w == 0 || w == 1,
            c == 0 || c == 8,
    ;
    assert((t | r | w | c) & 1 == w) by (bit_vector)
        requires
            t == 0 || t == 4,
            r == 0 || r == 2,
            w == 0 || w == 1,
            c == 0 || c == 8,
    ;
    assert((t | r | w | c) & 8 == c) by (bit_vector)
        requires
            t == 0 || t == 4,
            r == 0 || r == 2,
            w == 0 || w == 1,
            c == 0 || c == 8,
    ;
}

/// A pipe-mode word reads back as the framing and wait mode it was made
/// from, and as the effective read mode: under byte framing the read mode is
/// byte whatever read mode was asked for.
pub proof fn lemma_pipe_mode_decodes(
    type_mode: TypeMode,
    read_mode: ReadMode,
    wait_mode: WaitMode,
    remote_clients: bool,
)
    ensures
        TypeMode::from_bits(pipe_mode_of(type_mode, read_mode, wait_mode, remote_clients))
            == type_mode,
        ReadMode::from_bits(pipe_mode_of(type_mode, read_mode, wait_mode, remote_clients))
            == effective_read_mode(type_mode, read_mode),
        WaitMode::from_bits(pipe_mode_of(type_mode, read_mode, wait_mode, remote_clients))
            == wait_mode,
        type_mode == TypeMode::Byte ==> ReadMode::from_bits(
            pipe_mode_of(type_mode, read_mode, wait_mode, remote_clients),
        ) == ReadMode::Byte,
{
    let c: u32 = if remote_clients {
        PIPE_ACCEPT_REMOTE_CLIENTS
    } else {
        PIPE_REJECT_REMOTE_CLIENTS
    };
    lemma_pipe_mode_fields(
        type_mode.bits(),
        effective_read_mode(type_mode, read_mode).bits(),
        wait_mode.bits(),
        c,
    );
}

/// An open-mode word reads back as the direction it was made from, whatever
/// the first-instance and write-through flags.
pub proof fn lemma_open_mode_keeps_direction(access: AccessMode, create_new: bool, write_through: bool)
    ensures
        AccessMode::from_bits(open_mode_of(access, create_new, write_through)) == access,
{
    let a = access.bits();
    let c: u32 = if create_new { FILE_FLAG_FIRST_PIPE_INSTANCE } else { 0u32 };
    let w: u32 = if write_through { FILE_FLAG_WRITE_THROUGH } else { 0u32 };
    assert((a | c | w) & 1 == a & 1 && (a | c | w) & 2 == a & 2) by (bit_vector)
        requires
            c == 0 || c == 0x0008_0000,
            w == 0 || w == 0x8000_0000,
    ;
    access.lemma_round_trip();
}

/// Security attributes handed through to the system unchanged: the address
/// of a security descriptor (0 for the default one) and whether child
/// processes inherit the handle.
#[derive(Debug, Clone, Copy, PartialEq, Eq, Structural)]
pub struct SecurityAttributes {
    pub descriptor: usize,
    pub inherit_handle: bool,
}

impl SecurityAttributes {
    pub open spec fn spec_default() -> SecurityAttributes {
        SecurityAttributes { descriptor: 0, inherit_handle: false }
    }

    /// The default descriptor, not inherited.
    pub fn new() -> (r: SecurityAttributes)
        ensures
            r == SecurityAttributes::spec_default(),
    {
        SecurityAttributes { descriptor: 0, inherit_handle: false }
    }
}

impl Default for SecurityAttributes {
    fn default() -> (r: SecurityAttributes)
        ensures
            r == SecurityAttributes::spec_default(),
    {
        SecurityAttributes::new()
    }
}

/// Everything the system needs to create one pipe instance, checked.
#[derive(Debug, Clone)]
pub struct CreateRequest {
    path: String,
    c_path: Vec<u8>,
    open_mode: u32,
    pipe_mode: u32,
    max_instances: u32,
    out_buffer_size: u32,
    in_buffer_size: u32,
    timeout: u32,
    security: SecurityAttributes,
}

impl CreateRequest {
    pub closed spec fn spec_path(&self) -> Seq<char> {
        self.path@
    }

    pub fn path(&self) -> (r: &str)
        ensures
            r@ == self.spec_path(),
    {
        self.path.as_str()
    }

    pub closed spec fn spec_c_path(&self) -> Seq<u8> {
        self.c_path@
    }

    pub fn c_path(&self) -> (r: &[u8])
        ensures
            r@ == self.spec_c_path(),
    {
        self.c_path.as_slice()
    }

    pub closed spec fn spec_open_mode(&self) -> u32 {
        self.open_mode
    }

    pub fn open_mode(&self) -> (r: u32)
        ensures
            r == self.spec_open_mode(),
    {
        self.open_mode
    }

    pub closed spec fn spec_pipe_mode(&self) -> u32 {
        self.pipe_mode
    }

    pub fn pipe_mode(&self) -> (r: u32)
        ensures
            r == self.spec_pipe_mode(),
    {
        self.pipe_mode
    }

    pub closed spec fn spec_max_instances(&self) -> u32 {
        self.max_instances
    }

    pub fn max_instances(&self) -> (r: u32)
        ensures
            r == self.spec_max_instances(),
    {
        self.max_instances
    }

    pub closed spec fn spec_out_buffer_size(&self) -> u32 {
        self.out_buffer_size
    }

    pub fn out_buffer_size(&self) -> (r: u32)
        ensures
            r == self.spec_out_buffer_size(),
    {
        self.out_buffer_size
    }

    pub closed spec fn spec_in_buffer_size(&self) -> u32 {
        self.in_buffer_size
    }

    pub fn in_buffer_size(&self) -> (r: u32)
        ensures
            r == self.spec_in_buffer_size(),
    {
        self.in_buffer_size
    }

    pub closed spec fn spec_timeout(&self) -> u32 {
        self.timeout
    }

    pub fn timeout(&self) -> (r: u32)
        ensures
            r == self.spec_timeout(),
    {
        self.timeout
    }

    pub closed spec fn spec_security(&self) -> SecurityAttributes {
        self.security
    }

    pub fn security(&self) -> (r: SecurityAttributes)
        ensures
            r == self.spec_security(),
    {
        self.security
    }

    /// Checks the path and gathers the arguments of a pipe creation.
    /// Fails, before any system call, exactly where the path is not valid.
    pub fn new(
        path: &str,
        open_mode: u32,
        pipe_mode: u32,
        max_instances: u32,
        out_buffer_size: u32,
        in_buffer_size: u32,
        timeout: u32,
        security: SecurityAttributes,
    ) -> (r: Result<CreateRequest, OsError>)
        ensures
            r is Ok <==> path_is_valid(path@),
            match r {
                Ok(q) => q.spec_path() == path@ && q.spec_c_path() == c_path(path@) && q.spec_open_mode() == open_mode
                    && q.spec_pipe_mode() == pipe_mode && q.spec_max_instances() == max_instances
                    && q.spec_out_buffer_size() == out_buffer_size && q.spec_in_buffer_size() == in_buffer_size
                    && q.spec_timeout() == timeout && q.spec_security() == security,
                Err(e) => e.kind == ErrorKind::InvalidPath && e.code == ERROR_INVALID_NAME,
            },
    {
        match cvt_path(path) {
            Ok(c_path) => Ok(
                CreateRequest {
                    path: path.to_owned(),
                    c_path,
                    open_mode,
                    pipe_mode,
                    max_instances,
                    out_buffer_size,
                    in_buffer_size,
                    timeout,
                    security,
                },
            ),
            Err(e) => Err(e),
        }
    }
}

/// Options of the pipe a server creates, after the fashion of file open options.
#[derive(Debug, Clone, Copy, PartialEq, Eq, Structural)]
pub struct UnsafeOpenOptions {
    pub access_mode: AccessMode,
    pub type_mode: TypeMode,
    pub read_mode: ReadMode,
    pub write_through: bool,
    pub create_new: bool,
    pub wait_mode: WaitMode,
    pub remote_clients: bool,
}

impl UnsafeOpenOptions {
    pub fn access(&mut self, access_mode: AccessMode) -> (r: &mut Self)
        ensures
            *r == (UnsafeOpenOptions { access_mode: access_mode, ..*old(self) }),
            *final(self) == *final(r),
    {
        self.access_mode = access_mode;
        self
    }

    pub fn pipe_type(&mut self, type_mode: TypeMode) -> (r: &mut Self)
        ensures
            *r == (UnsafeOpenOptions { type_mode: type_mode, ..*old(self) }),
            *final(self) == *final(r),
    {
        self.type_mode = type_mode;
        self
    }

    pub fn readmode(&mut self, read_mode: ReadMode) -> (r: &mut Self)
        ensures
            *r == (UnsafeOpenOptions { read_mode: read_mode, ..*old(self) }),
            *final(self) == *final(r),
    {
        self.read_mode = read_mode;
        self
    }

    pub fn write_through(&mut self, write_through: bool) -> (r: &mut Self)
        ensures
            *r == (UnsafeOpenOptions { write_through: write_through, ..*old(self) }),
            *final(self) == *final(r),
    {
        self.write_through = write_through;
        self
    }

    pub fn create_new(&mut self, create_new: bool) -> (r: &mut Self)
        ensures
            *r == (UnsafeOpenOptions { create_new: create_new, ..*old(self) }),
            *final(self) == *final(r),
    {
        self.create_new = create_new;
        self
    }

    pub fn no_wait(&mut self, wait_mode: WaitMode) -> (r: &mut Self)
        ensures
            *r == (UnsafeOpenOptions { wait_mode: wait_mode, ..*old(self) }),
            *final(self) == *final(r),
    {
        self.wait_mode = wait_mode;
        self
    }

    pub fn remote_clients(&mut self, remote_clients: bool) -> (r: &mut Self)
        ensures
            *r == (UnsafeOpenOptions { remote_clients: remote_clients, ..*old(self) }),
            *final(self) == *final(r),
    {
        self.remote_clients = remote_clients;
        self
    }

    /// Duplex, message framing and reads, no write-through, open or create,
    /// blocking, remote clients turned away.
    pub open spec fn spec_default() -> UnsafeOpenOptions {
        UnsafeOpenOptions {
            access_mode: AccessMode::Duplex,
            type_mode: TypeMode::Message,
            read_mode: ReadMode::Message,
            write_through: false,
            create_new: false,
            wait_mode: WaitMode::Wait,
            remote_clients: false,
        }
    }

    pub fn new() -> (r: UnsafeOpenOptions)
        ensures
            r == UnsafeOpenOptions::spec_default(),
    {
        UnsafeOpenOptions {
            access_mode: AccessMode::Duplex,
            type_mode: TypeMode::Message,
            read_mode: ReadMode::Message,
            write_through: false,
            create_new: false,
            wait_mode: WaitMode::Wait,
            remote_clients: false,
        }
    }

    pub fn get_open_mode(&self) -> (r: u32)
        ensures
            r == open_mode_of(self.access_mode, self.create_new, self.write_through),
    {
        let pre = self.access_mode.into();
        match (self.create_new, self.write_through) {
            (true, true) => pre | FILE_FLAG_FIRST_PIPE_INSTANCE | FILE_FLAG_WRITE_THROUGH,
            (true, false) => pre | FILE_FLAG_FIRST_PIPE_INSTANCE | 0u32,
            (false, true) => pre | 0u32 | FILE_FLAG_WRITE_THROUGH,
            (false, false) => pre | 0u32 | 0u32,
        }
    }

    /// The pipe-mode word of these options. Under byte framing it names byte
    /// reads, whatever read mode was asked for.
    pub fn get_pipe_mode(&self) -> (r: u32)
        ensures
            r == pipe_mode_of(self.type_mode, self.read_mode, self.wait_mode, self.remote_clients),
            self.type_mode == TypeMode::Byte ==> ReadMode::from_bits(r) == ReadMode::Byte,
    {
        proof {
            lemma_pipe_mode_decodes(self.type_mode, self.read_mode, self.wait_mode, self.remote_clients);
        }
        let read_mode = resolve_read_mode(self.type_mode, self.read_mode);
        let pre = self.type_mode.into() | read_mode.into() | self.wait_mode.into();
        if self.remote_clients {
            pre | PIPE_ACCEPT_REMOTE_CLIENTS
        } else {
            pre | PIPE_REJECT_REMOTE_CLIENTS
        }
    }
}

impl Default for UnsafeOpenOptions {
    fn default() -> (r: UnsafeOpenOptions)
        ensures
            r == UnsafeOpenOptions::spec_default(),
    {
        UnsafeOpenOptions::new()
    }
}

/// A server's pipe options together with its instance limit, buffer sizes,
/// timeout and security attributes.
#[derive(Debug, Clone, Copy, PartialEq, Eq, Structural)]
pub struct UnsafeServerBuilder {
    pub options: UnsafeOpenOptions,
    pub max_instances: u32,
    /// outbound buffer size (server to client)
    pub buffer_size_out: u32,
    /// inbound buffer size (client to server)
    pub buffer_size_in: u32,
    /// default timeout for I/O and connection requests
    pub timeout: u32,
    pub security: SecurityAttributes,
}

impl UnsafeServerBuilder {
    pub fn access_mode(&mut self, access_mode: AccessMode) -> (r: &mut Self)
        ensures
            *r == (UnsafeServerBuilder { options: UnsafeOpenOptions { access_mode: access_mode, ..old(self).options }, ..*old(self) }),
            *final(self) == *final(r),
    {
        self.options.access_mode = access_mode;
        self
    }

    pub fn type_mode(&mut self, type_mode: TypeMode) -> (r: &mut Self)
        ensures
            *r == (UnsafeServerBuilder { options: UnsafeOpenOptions { type_mode: type_mode, ..old(self).options }, ..*old(self) }),
            *final(self) == *final(r),
    {
        self.options.type_mode = type_mode;
        self
    }

    pub fn read_mode(&mut self, read_mode: ReadMode) -> (r: &mut Self)
        ensures
            *r == (UnsafeServerBuilder { options: UnsafeOpenOptions { read_mode: read_mode, ..old(self).options }, ..*old(self) }),
            *final(self) == *final(r),
    {
        self.options.read_mode = read_mode;
        self
    }

    pub fn write_through(&mut self, write_through: bool) -> (r: &mut Self)
        ensures
            *r == (UnsafeServerBuilder { options: UnsafeOpenOptions { write_through: write_through, ..old(self).options }, ..*old(self) }),
            *final(self) == *final(r),
    {
        self.options.write_through = write_through;
        self
    }

    pub fn create_new(&mut self, create_new: bool) -> (r: &mut Self)
        ensures
            *r == (UnsafeServerBuilder { options: UnsafeOpenOptions { create_new: create_new, ..old(self).options }, ..*old(self) }),
            *final(self) == *final(r),
    {
        self.options.create_new = create_new;
        self
    }

    pub fn wait_mode(&mut self, wait_mode: WaitMode) -> (r: &mut Self)
        ensures
            *r == (UnsafeServerBuilder { options: UnsafeOpenOptions { wait_mode: wait_mode, ..old(self).options }, ..*old(self) }),
            *final(self) == *final(r),
    {
        self.options.wait_mode = wait_mode;
        self
    }

    pub fn remote_clients(&mut self, remote_clients: bool) -> (r: &mut Self)
        ensures
            *r == (UnsafeServerBuilder { options: UnsafeOpenOptions { remote_clients: remote_clients, ..old(self).options }, ..*old(self) }),
            *final(self) == *final(r),
    {
        self.options.remote_clients = remote_clients;
        self
    }

    pub fn max_instances(&mut self, max_instances: u32) -> (r: &mut Self)
        ensures
            *r == (UnsafeServerBuilder { max_instances: max_instances, ..*old(self) }),
            *final(self) == *final(r),
    {
        self.max_instances = max_instances;
        self
    }

    pub fn buffersize_out(&mut self, buffersize_out: u32) -> (r: &mut Self)
        ensures
            *r == (UnsafeServerBuilder { buffer_size_out: buffersize_out, ..*old(self) }),
            *final(self) == *final(r),
    {
        self.buffer_size_out = buffersize_out;
        self
    }

    pub fn buffersize_in(&mut self, buffersize_in: u32) -> (r: &mut Self)
        ensures
            *r == (UnsafeServerBuilder { buffer_size_in: buffersize_in, ..*old(self) }),
            *final(self) == *final(r),
    {
        self.buffer_size_in = buffersize_in;
        self
    }

    pub fn timeout(&mut self, timeout: u32) -> (r: &mut Self)
        ensures
            *r == (UnsafeServerBuilder { timeout: timeout, ..*old(self) }),
            *final(self) == *final(r),
    {
        self.timeout = timeout;
        self
    }

    pub fn security(&mut self, security: SecurityAttributes) -> (r: &mut Self)
        ensures
            *r == (UnsafeServerBuilder { security: security, ..*old(self) }),
            *final(self) == *final(r),
    {
        self.security = security;
        self
    }

    /// Default options, one instance, default buffer sizes, no timeout, default security.
    pub open spec fn spec_default() -> UnsafeServerBuilder {
        UnsafeServerBuilder {
            options: UnsafeOpenOptions::spec_default(),
            max_instances: 1,
            buffer_size_out: DEFAULT_BUFSIZE,
            buffer_size_in: DEFAULT_BUFSIZE,
            timeout: NMPWAIT_WAIT_FOREVER,
            security: SecurityAttributes::spec_default(),
        }
    }

    pub fn new() -> (r: UnsafeServerBuilder)
        ensures
            r == UnsafeServerBuilder::spec_default(),
    {
        UnsafeServerBuilder {
            options: UnsafeOpenOptions::new(),
            max_instances: 1,
            buffer_size_out: DEFAULT_BUFSIZE,
            buffer_size_in: DEFAULT_BUFSIZE,
            timeout: NMPWAIT_WAIT_FOREVER,
            security: SecurityAttributes::new(),
        }
    }

    /// Checks the path and gathers what creating the pipe takes; the system
    /// call itself is left to the caller.
    pub fn open(&self, path: &str) -> (r: Result<CreateRequest, OsError>)
        ensures
            r is Ok <==> path_is_valid(path@),
            r matches Ok(q) ==> q.spec_path() == path@ && q.spec_open_mode() == open_mode_of(
                self.options.access_mode,
                self.options.create_new,
                self.options.write_through,
            ) && q.spec_pipe_mode() == pipe_mode_of(
                self.options.type_mode,
                self.options.read_mode,
                self.options.wait_mode,
                self.options.remote_clients,
            ) && q.spec_max_instances() == self.max_instances && q.spec_out_buffer_size() == self.buffer_size_out
                && q.spec_in_buffer_size() == self.buffer_size_in && q.spec_timeout() == self.timeout
                && q.spec_security() == self.security,
            r matches Err(e) ==> e.kind == ErrorKind::InvalidPath && e.code == ERROR_INVALID_NAME,
    {
        CreateRequest::new(
            path,
            self.options.get_open_mode(),
            self.options.get_pipe_mode(),
            self.max_instances,
            self.buffer_size_out,
            self.buffer_size_in,
            self.timeout,
            self.security,
        )
    }
}

impl Default for UnsafeServerBuilder {
    fn default() -> (r: UnsafeServerBuilder)
        ensures
            r == UnsafeServerBuilder::spec_default(),
    {
        UnsafeServerBuilder::new()
    }
}

} // verus!
