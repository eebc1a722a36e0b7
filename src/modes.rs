//! Enumerated configuration choices and the flag words they stand for.
use vstd::prelude::*;
use crate::flags::{
    FILE_GENERIC_READ, FILE_GENERIC_WRITE, PIPE_ACCESS_DUPLEX, PIPE_ACCESS_INBOUND,
    PIPE_ACCESS_OUTBOUND, PIPE_NOWAIT, PIPE_READMODE_BYTE, PIPE_READMODE_MESSAGE, PIPE_TYPE_BYTE,
    PIPE_TYPE_MESSAGE, PIPE_WAIT, SECURITY_ANONYMOUS, SECURITY_DELEGATION,
    SECURITY_EFFECTIVE_ONLY, SECURITY_IDENTIFICATION, SECURITY_IMPERSONATION, SECURITY_LEVEL_MASK,
    SECURITY_SQOS_PRESENT,
};

verus! {

/// Direction of the pipe, as the server creates it.
#[derive(Debug, Clone, Copy, PartialEq, Eq, Structural)]
pub enum AccessMode {
    Inbound,
    Outbound,
    Duplex,
}

impl AccessMode {
    /// The open-mode flag word of this direction.
    pub open spec fn bits(self) -> u32 {
        match self {
            AccessMode::Inbound => PIPE_ACCESS_INBOUND,
            AccessMode::Outbound => PIPE_ACCESS_OUTBOUND,
            AccessMode::Duplex => PIPE_ACCESS_DUPLEX,
        }
    }

    /// The direction a flag word names; a word with neither direction bit reads as duplex.
    pub open spec fn from_bits(f: u32) -> AccessMode {
        let inbound = f & PIPE_ACCESS_INBOUND != 0;
        let outbound = f & PIPE_ACCESS_OUTBOUND != 0;
        if inbound && !outbound {
            AccessMode::Inbound
        } else if outbound && !inbound {
            AccessMode::Outbound
        } else {
            AccessMode::Duplex
        }
    }

    pub fn into(self) -> (r: u32)
        ensures
            r == self.bits(),
    {
        match self {
            AccessMode::Inbound => PIPE_ACCESS_INBOUND,
            AccessMode::Outbound => PIPE_ACCESS_OUTBOUND,
            AccessMode::Duplex => PIPE_ACCESS_DUPLEX,
        }
    }

    pub fn from(f: u32) -> (r: AccessMode)
        ensures
            r == AccessMode::from_bits(f),
    {
        let inbound = f & PIPE_ACCESS_INBOUND != 0;
        let outbound = f & PIPE_ACCESS_OUTBOUND != 0;
        if inbound && !outbound {
            AccessMode::Inbound
        } else if outbound && !inbound {
            AccessMode::Outbound
        } else {
            AccessMode::Duplex
        }
    }

    /// Reading a direction's flag word back gives the same direction.
    pub proof fn lemma_round_trip(self)
        ensures
            AccessMode::from_bits(self.bits()) == self,
    {
        assert(1u32 & 1u32 != 0 && 1u32 & 2u32 == 0) by (bit_vector);
        assert(2u32 & 1u32 == 0 && 2u32 & 2u32 != 0) by (bit_vector);
        assert(3u32 & 1u32 != 0 && 3u32 & 2u32 != 0) by (bit_vector);
    }
}

/// Byte stream or message stream, as the server writes.
#[derive(Debug, Clone, Copy, PartialEq, Eq, Structural)]
pub enum TypeMode {
    /// The pipe carries a stream of bytes.
    Byte,
    /// The pipe carries a stream of messages.
    Message,
}

impl TypeMode {
    /// The pipe-mode flag word of this framing.
    pub open spec fn bits(self) -> u32 {
        match self {
            TypeMode::Byte => PIPE_TYPE_BYTE,
            TypeMode::Message => PIPE_TYPE_MESSAGE,
        }
    }

    /// The framing a pipe-mode flag word names.
    pub open spec fn from_bits(f: u32) -> TypeMode {
        if f & PIPE_TYPE_MESSAGE != 0 {
            TypeMode::Message
        } else {
            TypeMode::Byte
        }
    }

    pub fn into(self) -> (r: u32)
        ensures
            r == self.bits(),
    {
        match self {
            TypeMode::Byte => PIPE_TYPE_BYTE,
            TypeMode::Message => PIPE_TYPE_MESSAGE,
        }
    }

    pub fn from(f: u32) -> (r: TypeMode)
        ensures
            r == TypeMode::from_bits(f),
    {
        if f & PIPE_TYPE_MESSAGE != 0 {
            TypeMode::Message
        } else {
            TypeMode::Byte
        }
    }

    /// Reading a framing's flag word back gives the same framing.
    pub proof fn lemma_round_trip(self)
        ensures
            TypeMode::from_bits(self.bits()) == self,
    {
        assert(0u32 & 4u32 == 0 && 4u32 & 4u32 != 0) by (bit_vector);
    }
}

/// How reads split the data: as bytes or as whole messages.
#[derive(Debug, Clone, Copy, PartialEq, Eq, Structural)]
pub enum ReadMode {
    /// Reads return a stream of bytes.
    Byte,
    /// Reads return whole messages.
    Message,
}

impl ReadMode {
    /// The pipe-mode flag word of this read mode.
    pub open spec fn bits(self) -> u32 {
        match self {
            ReadMode::Byte => PIPE_READMODE_BYTE,
            ReadMode::Message => PIPE_READMODE_MESSAGE,
        }
    }

    /// The read mode a pipe-mode flag word names.
    pub open spec fn from_bits(f: u32) -> ReadMode {
        if f & PIPE_READMODE_MESSAGE != 0 {
            ReadMode::Message
        } else {
            ReadMode::Byte
        }
    }

    pub fn into(self) -> (r: u32)
        ensures
            r == self.bits(),
    {
        match self {
            ReadMode::Byte => PIPE_READMODE_BYTE,
            ReadMode::Message => PIPE_READMODE_MESSAGE,
        }
    }

    pub fn from(f: u32) -> (r: ReadMode)
        ensures
            r == ReadMode::from_bits(f),
    {
        if f & PIPE_READMODE_MESSAGE != 0 {
            ReadMode::Message
        } else {
            ReadMode::Byte
        }
    }

    /// Reading a read mode's flag word back gives the same read mode.
    pub proof fn lemma_round_trip(self)
        ensures
            ReadMode::from_bits(self.bits()) == self,
    {
        assert(0u32 & 2u32 == 0 && 2u32 & 2u32 != 0) by (bit_vector);
    }
}

/// Whether calls on the pipe block.
#[derive(Debug, Clone, Copy, PartialEq, Eq, Structural)]
pub enum WaitMode {
    /// Calls block until they complete.
    Wait,
    /// Calls return at once.
    NoWait,
}

impl WaitMode {
    /// The pipe-mode flag word of this wait mode.
    pub open spec fn bits(self) -> u32 {
        match self {
            WaitMode::Wait => PIPE_WAIT,
            WaitMode::NoWait => PIPE_NOWAIT,
        }
    }

    /// The wait mode a pipe-mode flag word names.
    pub open spec fn from_bits(f: u32) -> WaitMode {
        if f & PIPE_NOWAIT != 0 {
            WaitMode::NoWait
        } else {
            WaitMode::Wait
        }
    }

    pub fn into(self) -> (r: u32)
        ensures
            r == self.bits(),
    {
        match self {
            WaitMode::Wait => PIPE_WAIT,
            WaitMode::NoWait => PIPE_NOWAIT,
        }
    }

    pub fn from(f: u32) -> (r: WaitMode)
        ensures
            r == WaitMode::from_bits(f),
    {
        if f & PIPE_NOWAIT != 0 {
            WaitMode::NoWait
        } else {
            WaitMode::Wait
        }
    }

    /// Reading a wait mode's flag word back gives the same wait mode.
    pub proof fn lemma_round_trip(self)
        ensures
            WaitMode::from_bits(self.bits()) == self,
    {
        assert(0u32 & 1u32 == 0 && 1u32 & 1u32 != 0) by (bit_vector);
    }
}

/// Direction of the pipe as a client asks for it: the access it requests.
#[derive(Debug, Clone, Copy, PartialEq, Eq, Structural)]
pub enum ClientAccessMode {
    /// The client writes (client to server).
    Inbound,
    /// The client reads (server to client).
    Outbound,
    /// The client reads and writes.
    Duplex,
}

impl ClientAccessMode {
    /// The desired-access flag word of this direction.
    pub open spec fn bits(self) -> u32 {
        match self {
            ClientAccessMode::Inbound => FILE_GENERIC_WRITE,
            ClientAccessMode::Outbound => FILE_GENERIC_READ,
            ClientAccessMode::Duplex => FILE_GENERIC_READ | FILE_GENERIC_WRITE,
        }
    }

    /// The direction a desired-access word names; a word with neither full access reads as duplex.
    pub open spec fn from_bits(f: u32) -> ClientAccessMode {
        let write = f & FILE_GENERIC_WRITE == FILE_GENERIC_WRITE;
        let read = f & FILE_GENERIC_READ == FILE_GENERIC_READ;
        if read && !write {
            ClientAccessMode::Outbound
        } else if write && !read {
            ClientAccessMode::Inbound
        } else {
            ClientAccessMode::Duplex
        }
    }

    pub fn into(self) -> (r: u32)
        ensures
            r == self.bits(),
    {
        match self {
            ClientAccessMode::Inbound => FILE_GENERIC_WRITE,
            ClientAccessMode::Outbound => FILE_GENERIC_READ,
            ClientAccessMode::Duplex => FILE_GENERIC_READ | FILE_GENERIC_WRITE,
        }
    }

    pub fn from(f: u32) -> (r: ClientAccessMode)
        ensures
            r == ClientAccessMode::from_bits(f),
    {
        let write = f & FILE_GENERIC_WRITE == FILE_GENERIC_WRITE;
        let read = f & FILE_GENERIC_READ == FILE_GENERIC_READ;
        if read && !write {
            ClientAccessMode::Outbound
        } else if write && !read {
            ClientAccessMode::Inbound
        } else {
            ClientAccessMode::Duplex
        }
    }

    /// Reading a direction's access word back gives the same direction.
    pub proof fn lemma_round_trip(self)
        ensures
            ClientAccessMode::from_bits(self.bits()) == self,
    {
        assert(0x120116u32 & 0x120116u32 == 0x120116u32) by (bit_vector);
        assert(0x120116u32 & 0x120089u32 != 0x120089u32) by (bit_vector);
        assert(0x120089u32 & 0x120116u32 != 0x120116u32) by (bit_vector);
        assert(0x120089u32 & 0x120089u32 == 0x120089u32) by (bit_vector);
        assert((0x120089u32 | 0x120116u32) & 0x120116u32 == 0x120116u32) by (bit_vector);
        assert((0x120089u32 | 0x120116u32) & 0x120089u32 == 0x120089u32) by (bit_vector);
    }
}

/// How far a server may act under the identity of a connecting client.
#[derive(Debug, Clone, Copy, PartialEq, Eq, Structural)]
pub enum ImpersonationLevel {
    /// The server can neither impersonate nor identify the client.
    Anonymous,
    /// The server can learn the client's identity and privileges, but not impersonate it.
    Identification,
    /// The server can impersonate the client's security context on the local system.
    Impersonation,
    /// The server can impersonate the client's security context on remote systems.
    Delegation,
}

impl ImpersonationLevel {
    /// The level's own bits within a flag word.
    pub open spec fn level_bits(self) -> u32 {
        match self {
            ImpersonationLevel::Anonymous => SECURITY_ANONYMOUS,
            ImpersonationLevel::Identification => SECURITY_IDENTIFICATION,
            ImpersonationLevel::Impersonation => SECURITY_IMPERSONATION,
            ImpersonationLevel::Delegation => SECURITY_DELEGATION,
        }
    }

    /// The flags-and-attributes word that asks for this level.
    pub open spec fn bits(self) -> u32 {
        self.level_bits() | SECURITY_SQOS_PRESENT | SECURITY_EFFECTIVE_ONLY
    }

    /// The level a flags-and-attributes word names, read from its level bits.
    pub open spec fn from_bits(f: u32) -> ImpersonationLevel {
        let level = f & SECURITY_LEVEL_MASK;
        if level == SECURITY_IDENTIFICATION {
            ImpersonationLevel::Identification
        } else if level == SECURITY_IMPERSONATION {
            ImpersonationLevel::Impersonation
        } else if level == SECURITY_DELEGATION {
            ImpersonationLevel::Delegation
        } else {
            ImpersonationLevel::Anonymous
        }
    }

    pub fn into(self) -> (r: u32)
        ensures
            r == self.bits(),
    {
        let level = match self {
            ImpersonationLevel::Anonymous => SECURITY_ANONYMOUS,
            ImpersonationLevel::Identification => SECURITY_IDENTIFICATION,
            ImpersonationLevel::Impersonation => SECURITY_IMPERSONATION,
            ImpersonationLevel::Delegation => SECURITY_DELEGATION,
        };
        level | SECURITY_SQOS_PRESENT | SECURITY_EFFECTIVE_ONLY
    }

    pub fn from(f: u32) -> (r: ImpersonationLevel)
        ensures
            r == ImpersonationLevel::from_bits(f),
    {
        let level = f & SECURITY_LEVEL_MASK;
        if level == SECURITY_IDENTIFICATION {
            ImpersonationLevel::Identification
        } else if level == SECURITY_IMPERSONATION {
            ImpersonationLevel::Impersonation
        } else if level == SECURITY_DELEGATION {
            ImpersonationLevel::Delegation
        } else {
            ImpersonationLevel::Anonymous
        }
    }

    /// Reading a level's flag word back gives the same level.
    pub proof fn lemma_round_trip(self)
        ensures
            ImpersonationLevel::from_bits(self.bits()) == self,
    {
        assert((0u32 | 0x100000u32 | 0x80000u32) & 0x30000u32 == 0u32) by (bit_vector);
        assert((0x10000u32 | 0x100000u32 | 0x80000u32) & 0x30000u32 == 0x10000u32) by (bit_vector);
        assert((0x20000u32 | 0x100000u32 | 0x80000u32) & 0x30000u32 == 0x20000u32) by (bit_vector);
        assert((0x30000u32 | 0x100000u32 | 0x80000u32) & 0x30000u32 == 0x30000u32) by (bit_vector);
    }
}

} // verus!
