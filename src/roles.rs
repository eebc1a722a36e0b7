//! Direction tags and the capabilities each one grants.
//!
//! An endpoint type is parameterised by a tag, `Duplex`, `Inbound` or
//! `Outbound`. Reading and writing are offered only for the tags whose
//! direction allows them, so an illegal transfer does not compile.
use vstd::prelude::*;
use crate::modes::{AccessMode, ClientAccessMode, ReadMode};

verus! {

/// Gives access to the lower-level object an endpoint wraps.
pub trait UnsafeWrapper: Sized {
    type Inner;

    spec fn inner_view(&self) -> Self::Inner;

    fn as_inner(&self) -> (r: &Self::Inner)
        ensures
            *r == self.inner_view(),
    ;

    /// Gives the endpoint up for the object it wraps; the endpoint no longer
    /// exists and cannot release the handle a second time.
    fn into_inner(self) -> (r: Self::Inner)
        ensures
            r == self.inner_view(),
    ;
}

/// A direction in which a server can create a pipe.
pub trait ServerImpl {
    spec fn spec_access_mode() -> AccessMode;

    spec fn spec_server_name() -> Seq<char>;

    spec fn spec_connected_name() -> Seq<char>;

    fn access_mode() -> (r: AccessMode)
        ensures
            r == Self::spec_access_mode(),
    ;

    /// Name of the server type of this direction, as errors report it.
    fn server_name() -> (r: &'static str)
        ensures
            r@ == Self::spec_server_name(),
    ;

    /// Name of the connected server type of this direction, as errors report it.
    fn connected_name() -> (r: &'static str)
        ensures
            r@ == Self::spec_connected_name(),
    ;
}

/// A direction in which a client can open a pipe.
pub trait ClientImpl {
    spec fn spec_access_mode() -> ClientAccessMode;

    spec fn spec_read_mode() -> ReadMode;

    spec fn spec_client_name() -> Seq<char>;

    fn access_mode() -> (r: ClientAccessMode)
        ensures
            r == Self::spec_access_mode(),
    ;

    /// The read mode a plain open asks for.
    fn read_mode() -> (r: ReadMode)
        ensures
            r == Self::spec_read_mode(),
    ;

    /// Name of the client type of this direction, as errors report it.
    fn client_name() -> (r: &'static str)
        ensures
            r@ == Self::spec_client_name(),
    ;
}

/// Directions in which a connected server reads.
pub trait ServerReads: ServerImpl {
}

/// Directions in which a connected server writes.
pub trait ServerWrites: ServerImpl {
}

/// Directions in which a client reads.
pub trait ClientReads: ClientImpl {
}

/// Directions in which a client writes.
pub trait ClientWrites: ClientImpl {
}

/// Both ways: server to client and client to server.
#[derive(Debug, Clone, Copy, PartialEq, Eq, Structural)]
pub struct Duplex;

/// Client to server.
#[derive(Debug, Clone, Copy, PartialEq, Eq, Structural)]
pub struct Inbound;

/// Server to client.
#[derive(Debug, Clone, Copy, PartialEq, Eq, Structural)]
pub struct Outbound;

impl ServerImpl for Duplex {
    open spec fn spec_access_mode() -> AccessMode {
        AccessMode::Duplex
    }

    open spec fn spec_server_name() -> Seq<char> {
        "DuplexServer"@
    }

    open spec fn spec_connected_name() -> Seq<char> {
        "ConnectedDuplexServer"@
    }

    fn access_mode() -> (r: AccessMode) {
        AccessMode::Duplex
    }

    fn server_name() -> (r: &'static str) {
        "DuplexServer"
    }

    fn connected_name() -> (r: &'static str) {
        "ConnectedDuplexServer"
    }
}

impl ServerImpl for Inbound {
    open spec fn spec_access_mode() -> AccessMode {
        AccessMode::Inbound
    }

    open spec fn spec_server_name() -> Seq<char> {
        "InboundServer"@
    }

    open spec fn spec_connected_name() -> Seq<char> {
        "ConnectedInboundServer"@
    }

    fn access_mode() -> (r: AccessMode) {
        AccessMode::Inbound
    }

    fn server_name() -> (r: &'static str) {
        "InboundServer"
    }

    fn connected_name() -> (r: &'static str) {
        "ConnectedInboundServer"
    }
}

impl ServerImpl for Outbound {
    open spec fn spec_access_mode() -> AccessMode {
        AccessMode::Outbound
    }

    open spec fn spec_server_name() -> Seq<char> {
        "OutboundServer"@
    }

    open spec fn spec_connected_name() -> Seq<char> {
        "ConnectedOutboundServer"@
    }

    fn access_mode() -> (r: AccessMode) {
        AccessMode::Outbound
    }

    fn server_name() -> (r: &'static str) {
        "OutboundServer"
    }

    fn connected_name() -> (r: &'static str) {
        "ConnectedOutboundServer"
    }
}

impl ClientImpl for Duplex {
    open spec fn spec_access_mode() -> ClientAccessMode {
        ClientAccessMode::Duplex
    }

    open spec fn spec_read_mode() -> ReadMode {
        ReadMode::Message
    }

    open spec fn spec_client_name() -> Seq<char> {
        "DuplexClient"@
    }

    fn access_mode() -> (r: ClientAccessMode) {
        ClientAccessMode::Duplex
    }

    fn read_mode() -> (r: ReadMode) {
        ReadMode::Message
    }

    fn client_name() -> (r: &'static str) {
        "DuplexClient"
    }
}

impl ClientImpl for Inbound {
    open spec fn spec_access_mode() -> ClientAccessMode {
        ClientAccessMode::Inbound
    }

    /// A write-only client has no reads to frame.
    open spec fn spec_read_mode() -> ReadMode {
        ReadMode::Byte
    }

    open spec fn spec_client_name() -> Seq<char> {
        "InboundClient"@
    }

    fn access_mode() -> (r: ClientAccessMode) {
        ClientAccessMode::Inbound
    }

    fn read_mode() -> (r: ReadMode) {
        ReadMode::Byte
    }

    fn client_name() -> (r: &'static str) {
        "InboundClient"
    }
}

impl ClientImpl for Outbound {
    open spec fn spec_access_mode() -> ClientAccessMode {
        ClientAccessMode::Outbound
    }

    open spec fn spec_read_mode() -> ReadMode {
        ReadMode::Message
    }

    open spec fn spec_client_name() -> Seq<char> {
        "OutboundClient"@
    }

    fn access_mode() -> (r: ClientAccessMode) {
        ClientAccessMode::Outbound
    }

    fn read_mode() -> (r: ReadMode) {
        ReadMode::Message
    }

    fn client_name() -> (r: &'static str) {
        "OutboundClient"
    }
}

impl ServerReads for Duplex {
}

impl ServerReads for Inbound {
}

impl ServerWrites for Duplex {
}

impl ServerWrites for Outbound {
}

impl ClientReads for Duplex {
}

impl ClientReads for Outbound {
}

impl ClientWrites for Duplex {
}

impl ClientWrites for Inbound {
}

} // verus!
