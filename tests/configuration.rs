use windows_named_pipes::builder::{ClientBuilder, ServerBuilder};
use windows_named_pipes::flags;
use windows_named_pipes::modes::{
    AccessMode, ClientAccessMode, ImpersonationLevel, ReadMode, TypeMode, WaitMode,
};
use windows_named_pipes::options::{SecurityAttributes, UnsafeOpenOptions, UnsafeServerBuilder};
use windows_named_pipes::roles::{Duplex, Inbound, Outbound};

use windows::Win32::Foundation::MAX_PATH;
use windows::Win32::Storage::FileSystem as fs_flags;
use windows::Win32::System::Pipes as pipe_flags;

#[test]
fn flag_words_match_the_system_definitions() {
    assert_eq!(flags::PIPE_ACCESS_INBOUND, fs_flags::PIPE_ACCESS_INBOUND.0);
    assert_eq!(flags::PIPE_ACCESS_OUTBOUND, fs_flags::PIPE_ACCESS_OUTBOUND.0);
    assert_eq!(flags::PIPE_ACCESS_DUPLEX, fs_flags::PIPE_ACCESS_DUPLEX.0);
    assert_eq!(flags::FILE_FLAG_FIRST_PIPE_INSTANCE, fs_flags::FILE_FLAG_FIRST_PIPE_INSTANCE.0);
    assert_eq!(flags::FILE_FLAG_WRITE_THROUGH, fs_flags::FILE_FLAG_WRITE_THROUGH.0);
    assert_eq!(flags::FILE_GENERIC_READ, fs_flags::FILE_GENERIC_READ.0);
    assert_eq!(flags::FILE_GENERIC_WRITE, fs_flags::FILE_GENERIC_WRITE.0);
    assert_eq!(flags::SECURITY_ANONYMOUS, fs_flags::SECURITY_ANONYMOUS.0);
    assert_eq!(flags::SECURITY_IDENTIFICATION, fs_flags::SECURITY_IDENTIFICATION.0);
    assert_eq!(flags::SECURITY_IMPERSONATION, fs_flags::SECURITY_IMPERSONATION.0);
    assert_eq!(flags::SECURITY_DELEGATION, fs_flags::SECURITY_DELEGATION.0);
    assert_eq!(flags::SECURITY_SQOS_PRESENT, fs_flags::SECURITY_SQOS_PRESENT.0);
    assert_eq!(flags::SECURITY_EFFECTIVE_ONLY, fs_flags::SECURITY_EFFECTIVE_ONLY.0);
    assert_eq!(flags::FILE_SHARE_NONE, fs_flags::FILE_SHARE_NONE.0);
    assert_eq!(flags::OPEN_EXISTING, fs_flags::OPEN_EXISTING.0);
    assert_eq!(flags::PIPE_TYPE_BYTE, pipe_flags::PIPE_TYPE_BYTE.0);
    assert_eq!(flags::PIPE_TYPE_MESSAGE, pipe_flags::PIPE_TYPE_MESSAGE.0);
    assert_eq!(flags::PIPE_READMODE_BYTE, pipe_flags::PIPE_READMODE_BYTE.0);
    assert_eq!(flags::PIPE_READMODE_MESSAGE, pipe_flags::PIPE_READMODE_MESSAGE.0);
    assert_eq!(flags::PIPE_WAIT, pipe_flags::PIPE_WAIT.0);
    assert_eq!(flags::PIPE_NOWAIT, pipe_flags::PIPE_NOWAIT.0);
    assert_eq!(flags::PIPE_ACCEPT_REMOTE_CLIENTS, pipe_flags::PIPE_ACCEPT_REMOTE_CLIENTS.0);
    assert_eq!(flags::PIPE_REJECT_REMOTE_CLIENTS, pipe_flags::PIPE_REJECT_REMOTE_CLIENTS.0);
    assert_eq!(flags::PIPE_SERVER_END, pipe_flags::PIPE_SERVER_END.0);
    assert_eq!(flags::NMPWAIT_WAIT_FOREVER, pipe_flags::NMPWAIT_WAIT_FOREVER);
    assert_eq!(flags::MAX_PATH, MAX_PATH);
}

#[test]
fn access_mode_words() {
    assert_eq!(AccessMode::Inbound.into(), 1);
    assert_eq!(AccessMode::Outbound.into(), 2);
    assert_eq!(AccessMode::Duplex.into(), 3);
    assert_eq!(AccessMode::from(1), AccessMode::Inbound);
    assert_eq!(AccessMode::from(2 | 0x8000_0000), AccessMode::Outbound);
    assert_eq!(AccessMode::from(3), AccessMode::Duplex);
    assert_eq!(AccessMode::from(0), AccessMode::Duplex);
}

#[test]
fn type_read_and_wait_mode_words() {
    assert_eq!(TypeMode::Byte.into(), 0);
    assert_eq!(TypeMode::Message.into(), 4);
    assert_eq!(TypeMode::from(4 | 2), TypeMode::Message);
    assert_eq!(TypeMode::from(2), TypeMode::Byte);
    assert_eq!(ReadMode::Byte.into(), 0);
    assert_eq!(ReadMode::Message.into(), 2);
    assert_eq!(ReadMode::from(4 | 2), ReadMode::Message);
    assert_eq!(ReadMode::from(4), ReadMode::Byte);
    assert_eq!(WaitMode::Wait.into(), 0);
    assert_eq!(WaitMode::NoWait.into(), 1);
    assert_eq!(WaitMode::from(1 | 8), WaitMode::NoWait);
    assert_eq!(WaitMode::from(8), WaitMode::Wait);
}

#[test]
fn client_access_words() {
    assert_eq!(ClientAccessMode::Inbound.into(), 0x0012_0116);
    assert_eq!(ClientAccessMode::Outbound.into(), 0x0012_0089);
    assert_eq!(ClientAccessMode::Duplex.into(), 0x0012_019F);
    assert_eq!(ClientAccessMode::from(0x0012_0116), ClientAccessMode::Inbound);
    assert_eq!(ClientAccessMode::from(0x0012_0089), ClientAccessMode::Outbound);
    assert_eq!(ClientAccessMode::from(0x0012_019F), ClientAccessMode::Duplex);
    assert_eq!(ClientAccessMode::from(0), ClientAccessMode::Duplex);
}

#[test]
fn impersonation_level_words_round_trip() {
    assert_eq!(ImpersonationLevel::Anonymous.into(), 0x0018_0000);
    assert_eq!(ImpersonationLevel::Identification.into(), 0x0019_0000);
    assert_eq!(ImpersonationLevel::Impersonation.into(), 0x001A_0000);
    assert_eq!(ImpersonationLevel::Delegation.into(), 0x001B_0000);
    for level in [
        ImpersonationLevel::Anonymous,
        ImpersonationLevel::Identification,
        ImpersonationLevel::Impersonation,
        ImpersonationLevel::Delegation,
    ] {
        assert_eq!(ImpersonationLevel::from(level.into()), level);
    }
}

#[test]
fn open_mode_truth_table() {
    let mut o = UnsafeOpenOptions::new();
    o.access(AccessMode::Inbound).create_new(true).write_through(true);
    assert_eq!(o.get_open_mode(), 1 | 0x0008_0000 | 0x8000_0000);
    o.write_through(false);
    assert_eq!(o.get_open_mode(), 1 | 0x0008_0000);
    o.create_new(false).write_through(true);
    assert_eq!(o.get_open_mode(), 1 | 0x8000_0000);
    o.write_through(false);
    assert_eq!(o.get_open_mode(), 1);
}

#[test]
fn pipe_mode_of_default_options() {
    let o = UnsafeOpenOptions::default();
    assert_eq!(o, UnsafeOpenOptions::new());
    assert_eq!(o.access_mode, AccessMode::Duplex);
    assert_eq!(o.get_pipe_mode(), 4 | 2 | 0 | 8);
    let mut o = UnsafeOpenOptions::new();
    o.pipe_type(TypeMode::Message).readmode(ReadMode::Byte).no_wait(WaitMode::NoWait).remote_clients(true);
    assert_eq!(o.get_pipe_mode(), 4 | 1);
}

#[test]
fn byte_framing_forces_byte_read_mode() {
    let mut o = UnsafeOpenOptions::new();
    o.pipe_type(TypeMode::Byte).readmode(ReadMode::Message);
    assert_eq!(ReadMode::from(o.get_pipe_mode()), ReadMode::Byte);
    assert_eq!(o.get_pipe_mode(), 8);

    let mut b = ServerBuilder::<Duplex>::new();
    b.type_mode(TypeMode::Byte).read_mode(ReadMode::Message);
    assert_eq!(b.effective_read_mode(), ReadMode::Byte);
    let q = b.open(r"\\.\pipe\bytes").unwrap();
    assert_eq!(ReadMode::from(q.pipe_mode()), ReadMode::Byte);
    assert_eq!(TypeMode::from(q.pipe_mode()), TypeMode::Byte);

    let mut b = ServerBuilder::<Duplex>::new();
    b.type_mode(TypeMode::Message).read_mode(ReadMode::Byte);
    assert_eq!(b.effective_read_mode(), ReadMode::Byte);
    b.read_mode(ReadMode::Message);
    assert_eq!(b.effective_read_mode(), ReadMode::Message);
}

#[test]
fn server_builder_request_carries_its_options() {
    let mut b = ServerBuilder::<Outbound>::default();
    b.create_new(true)
        .remote_clients(true)
        .max_instances(4)
        .buffersize_out(1024)
        .buffersize_in(2048)
        .timeout(50)
        .security(SecurityAttributes { descriptor: 0x1000, inherit_handle: true });
    let q = b.open(r"\\.\pipe\configured").unwrap();
    assert_eq!(q.path(), r"\\.\pipe\configured");
    assert_eq!(q.open_mode(), 2 | 0x0008_0000 | 0x8000_0000);
    assert_eq!(q.pipe_mode(), 4 | 2);
    assert_eq!(q.max_instances(), 4);
    assert_eq!(q.out_buffer_size(), 1024);
    assert_eq!(q.in_buffer_size(), 2048);
    assert_eq!(q.timeout(), 50);
    assert_eq!(q.security(), SecurityAttributes { descriptor: 0x1000, inherit_handle: true });
    // the builder is reusable
    let again = b.open(r"\\.\pipe\configured").unwrap();
    assert_eq!(again.open_mode(), q.open_mode());
}

#[test]
fn server_builder_defaults() {
    let b = ServerBuilder::<Inbound>::new();
    assert_eq!(b.type_mode, TypeMode::Message);
    assert_eq!(b.read_mode, ReadMode::Message);
    assert!(!b.create_new);
    assert!(!b.remote_clients);
    assert_eq!(b.max_instances, 1);
    assert_eq!(b.buffer_size_out, 512);
    assert_eq!(b.buffer_size_in, 512);
    assert_eq!(b.timeout, u32::MAX);
    let q = b.open(r"\\.\pipe\defaults").unwrap();
    assert_eq!(q.open_mode(), 1 | 0x8000_0000);
    assert_eq!(q.pipe_mode(), 4 | 2 | 8);
    assert_eq!(q.security(), SecurityAttributes::default());
}

#[test]
fn unsafe_server_builder_request() {
    let mut b = UnsafeServerBuilder::new();
    b.access_mode(AccessMode::Outbound)
        .type_mode(TypeMode::Byte)
        .read_mode(ReadMode::Message)
        .write_through(true)
        .create_new(true)
        .wait_mode(WaitMode::NoWait)
        .remote_clients(true)
        .max_instances(255)
        .buffersize_out(64)
        .buffersize_in(32)
        .timeout(10)
        .security(SecurityAttributes::new());
    let q = b.open(r"\\.\pipe\unsafe").unwrap();
    assert_eq!(q.open_mode(), 2 | 0x0008_0000 | 0x8000_0000);
    assert_eq!(q.pipe_mode(), 1);
    assert_eq!(q.max_instances(), 255);
    assert_eq!(q.out_buffer_size(), 64);
    assert_eq!(q.in_buffer_size(), 32);
    assert_eq!(q.timeout(), 10);
    assert_eq!(q.c_path().last(), Some(&0u8));
    assert_eq!(UnsafeServerBuilder::default(), UnsafeServerBuilder::new());
}

#[test]
fn client_builder_request() {
    let mut b = ClientBuilder::<Outbound>::new();
    b.read_mode(ReadMode::Byte).security(ImpersonationLevel::Identification);
    assert_eq!(b.security_token, Some(ImpersonationLevel::Identification));
    let q = b.open(r"\\.\pipe\client").unwrap();
    assert_eq!(q.desired_access(), 0x0012_0089);
    assert_eq!(q.flags_and_attributes(), 0x0019_0000);
    assert_eq!(q.share_mode(), 0);
    assert_eq!(q.creation_disposition(), 3);
    assert_eq!(q.read_mode(), ReadMode::Byte);
    let d = ClientBuilder::<Duplex>::default();
    assert_eq!(d.read_mode, ReadMode::Message);
    assert_eq!(d.security_token, None);
    let q = d.open(r"\\.\pipe\client").unwrap();
    assert_eq!(q.flags_and_attributes(), 0);
    assert_eq!(q.desired_access(), 0x0012_019F);
}

#[test]
fn open_mode_keeps_direction() {
    for access in [AccessMode::Inbound, AccessMode::Outbound, AccessMode::Duplex] {
        for create_new in [false, true] {
            for write_through in [false, true] {
                let mut o = UnsafeOpenOptions::new();
                o.access(access).create_new(create_new).write_through(write_through);
                assert_eq!(AccessMode::from(o.get_open_mode()), access);
            }
        }
    }
}

#[test]
fn pipe_mode_decodes_to_its_parts() {
    for type_mode in [TypeMode::Byte, TypeMode::Message] {
        for read_mode in [ReadMode::Byte, ReadMode::Message] {
            for wait_mode in [WaitMode::Wait, WaitMode::NoWait] {
                let mut o = UnsafeOpenOptions::new();
                o.pipe_type(type_mode).readmode(read_mode).no_wait(wait_mode);
                let m = o.get_pipe_mode();
                assert_eq!(TypeMode::from(m), type_mode);
                assert_eq!(WaitMode::from(m), wait_mode);
                let expected = if type_mode == TypeMode::Byte { ReadMode::Byte } else { read_mode };
                assert_eq!(ReadMode::from(m), expected);
            }
        }
    }
}
