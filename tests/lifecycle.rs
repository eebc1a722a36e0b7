use windows_named_pipes::clients::{
    DuplexClient, InboundClient, OpenStep, OutboundClient, UnsafeClient,
};
use windows_named_pipes::error::{context, ErrorKind, NamedPipeIoError, NamedPipeWinError, OsError};
use windows_named_pipes::flags::ERROR_PIPE_CONNECTED_HRESULT;
use windows_named_pipes::handle::{PipeInfo, PipeInfoFlags, UnsafeHandle};
use windows_named_pipes::modes::ReadMode;
use windows_named_pipes::path::{
    cvt_path, local_pipe_path, pipe_host, pipe_name, pipe_path, DEFAULT_PREFIX, LOCAL_PREFIX,
};
use windows_named_pipes::roles::UnsafeWrapper;
use windows_named_pipes::servers::{DuplexServer, InboundServer, OutboundServer};

fn os_error(code: i32, message: &str) -> OsError {
    OsError::from_os(code, message.to_string())
}

fn info() -> PipeInfo {
    PipeInfo { flags: PipeInfoFlags(1 | 4), in_size: 512, out_size: 512, max_instances: 1 }
}

#[test]
fn paths_are_written_and_taken_apart() {
    assert_eq!(DEFAULT_PREFIX, r"\\.\pipe\");
    assert_eq!(LOCAL_PREFIX, r"\\.\pipe\LOCAL\");
    assert_eq!(local_pipe_path("test1"), r"\\.\pipe\test1");
    assert_eq!(pipe_path("server7", "jobs"), r"\\server7\pipe\jobs");
    assert_eq!(pipe_name(r"\\server7\pipe\jobs"), "jobs");
    assert_eq!(pipe_host(r"\\server7\pipe\jobs"), "server7");
    assert_eq!(pipe_host(r"\\.\pipe\test1"), ".");
    assert_eq!(pipe_name("plain"), "plain");
    assert_eq!(pipe_host("plain"), "");
    assert_eq!(pipe_name(r"\\.\pipe\"), "");
    assert_eq!(pipe_host(r"\\hostonly"), "hostonly");
}

#[test]
fn valid_path_becomes_nul_terminated_bytes() {
    assert_eq!(cvt_path(r"\\.\pipe\a").unwrap(), b"\\\\.\\pipe\\a\0".to_vec());
    assert_eq!(cvt_path("").unwrap(), vec![0u8]);
}

#[test]
fn path_at_the_limit_is_rejected() {
    let ok = format!(r"\\.\pipe\{}", "x".repeat(259 - 9));
    assert_eq!(ok.len(), 259);
    assert!(cvt_path(&ok).is_ok());
    let long = format!(r"\\.\pipe\{}", "x".repeat(260 - 9));
    assert_eq!(long.len(), 260);
    let e = cvt_path(&long).unwrap_err();
    assert_eq!(e.kind, ErrorKind::InvalidPath);
    assert_eq!(e.code, 123);
    assert_eq!(e.message, "invalid named pipe path, must be less than 260 characters");
}

#[test]
fn non_ascii_path_is_rejected() {
    let e = cvt_path(r"\\.\pipe\Grüße").unwrap_err();
    assert_eq!(e.kind, ErrorKind::InvalidPath);
    assert_eq!(e.code, 123);
    assert_eq!(e.message, "invalid named pipe path, must be valid ascii");
}

#[test]
fn client_open_with_long_path_fails_before_any_call() {
    let long = format!(r"\\.\pipe\{}", "y".repeat(300));
    let e = DuplexClient::open(&long).unwrap_err();
    assert_eq!(e.kind(), ErrorKind::InvalidPath);
    assert_eq!(e.code(), 123);
    assert_eq!(e.msg(), format!(r#"DuplexClient {{path: "{}",..}} open() failed with"#, long));
    assert!(DuplexClient::with_name(&"z".repeat(251)).is_err());
    assert!(DuplexClient::with_name(&"z".repeat(250)).is_ok());
}

#[test]
fn transfer_lengths() {
    assert_eq!(UnsafeHandle::read_len(0), 0);
    assert_eq!(UnsafeHandle::read_len(512), 512);
    assert_eq!(UnsafeHandle::read_len(u32::MAX as usize), u32::MAX);
    assert_eq!(UnsafeHandle::read_len(u32::MAX as usize + 1), u32::MAX);
    assert_eq!(UnsafeHandle::write_len(511).unwrap(), 511);
    assert_eq!(UnsafeHandle::write_len(u32::MAX as usize).unwrap(), u32::MAX);
    let e = UnsafeHandle::write_len(u32::MAX as usize + 1).unwrap_err();
    assert_eq!(e.kind, ErrorKind::BufferTooLarge);
    assert_eq!(e.code, -1);
    let h = UnsafeHandle::from_inner(42);
    assert_eq!(h.as_inner(), 42);
    assert_eq!(h.as_win_handle(), 42);
    assert_eq!(h.into_inner(), 42);
    assert!(!h.is_read_vectored());
    assert!(!h.is_write_vectored());
}

#[test]
fn pipe_info_flags() {
    let server_message = PipeInfoFlags(1 | 4);
    assert!(server_message.server() && !server_message.client());
    assert!(server_message.message() && !server_message.byte());
    let client_byte = PipeInfoFlags(0);
    assert!(client_byte.client() && !client_byte.server());
    assert!(client_byte.byte() && !client_byte.message());
}

#[test]
fn error_context_and_message() {
    assert_eq!(context("DuplexServer", r"\\.\pipe\x", "connect"), r#"DuplexServer {path: "\\.\pipe\x",..} connect() failed with"#);
    let e = NamedPipeWinError::from_inner(os_error(5, "Access is denied."), "opening".to_string());
    assert_eq!(e.message(), "opening: Access is denied.");
    assert_eq!(e.code(), 5);
    assert_eq!(e.kind(), ErrorKind::Os);
    assert_eq!(e.inner().message, "Access is denied.");
    let m = NamedPipeWinError::from_msg("only context".to_string());
    assert_eq!(m.code(), 0);
    assert_eq!(m.message(), "only context: ");
}

#[test]
fn io_error_keeps_its_code_and_context() {
    let e = NamedPipeIoError::from_raw_os_error(2, "reading".to_string());
    assert_eq!(e.inner().raw_os_error(), Some(2));
    assert_eq!(e.msg(), "reading");
    let f = NamedPipeIoError::from_inner(std::io::Error::from_raw_os_error(7), "writing".to_string());
    assert_eq!(f.inner().raw_os_error(), Some(7));
    let g = NamedPipeIoError::last_os_error::<()>("last".to_string());
    assert_eq!(g.msg(), "last");
}

#[test]
fn server_default_request() {
    let q = DuplexServer::with_name("test1").unwrap();
    assert_eq!(q.path(), r"\\.\pipe\test1");
    assert_eq!(q.open_mode(), 3);
    assert_eq!(q.pipe_mode(), 4 | 2 | 8);
    assert_eq!(q.max_instances(), 1);
    assert_eq!(q.out_buffer_size(), 512);
    assert_eq!(q.in_buffer_size(), 512);
    assert_eq!(q.timeout(), u32::MAX);
    let q = InboundServer::with_host_name("box", "in").unwrap();
    assert_eq!(q.path(), r"\\box\pipe\in");
    assert_eq!(q.open_mode(), 1);
    assert_eq!(OutboundServer::open(r"\\.\pipe\out").unwrap().open_mode(), 2);
}

#[test]
fn failed_information_query_hands_the_handle_back() {
    let q = DuplexServer::open(r"\\.\pipe\q").unwrap();
    let (h, e) = DuplexServer::create(&q, UnsafeHandle(9), Err(os_error(6, "The handle is invalid."))).unwrap_err();
    assert_eq!(h, UnsafeHandle(9));
    assert_eq!(e.code(), 6);
    assert_eq!(e.msg(), r#"DuplexServer {path: "\\.\pipe\q",..} open() failed with"#);
}

#[test]
fn connect_failure_gives_no_connected_server() {
    let q = DuplexServer::open(r"\\.\pipe\c").unwrap();
    let mut server = DuplexServer::create(&q, UnsafeHandle(3), Ok(info())).unwrap();
    let e = server.connect(Err(os_error(232, "The pipe is being closed."))).unwrap_err();
    assert_eq!(e.code(), 232);
    assert_eq!(e.msg(), r#"DuplexServer {path: "\\.\pipe\c",..} connect() failed with"#);
    // the server is still usable
    let connected = server.connect(Ok(())).unwrap();
    assert_eq!(connected.as_win_handle(), 3);
    assert_eq!(connected.path(), r"\\.\pipe\c");
}

#[test]
fn failed_close_returns_the_server_for_a_retry() {
    let q = InboundServer::open(r"\\.\pipe\close").unwrap();
    let server = InboundServer::create(&q, UnsafeHandle(11), Ok(info())).unwrap();
    let (server, e) = server.close(Err(os_error(6, "The handle is invalid."))).unwrap_err();
    assert_eq!(e.msg(), r#"InboundServer {path: "\\.\pipe\close",..} close() failed with"#);
    assert_eq!(server.as_win_handle(), 11);
    assert!(server.close(Ok(())).is_ok());
}

#[test]
fn oversized_write_fails_before_the_call() {
    let q = OutboundServer::open(r"\\.\pipe\big").unwrap();
    let mut server = OutboundServer::create(&q, UnsafeHandle(5), Ok(info())).unwrap();
    let mut connected = server.connect(Ok(())).unwrap();
    let e = connected.write_len(u32::MAX as usize + 1).unwrap_err();
    assert_eq!(e.kind(), ErrorKind::BufferTooLarge);
    assert_eq!(e.msg(), r#"ConnectedOutboundServer {path: "\\.\pipe\big",..} write() failed with"#);
    assert_eq!(connected.write_len(10).unwrap(), 10);
    assert_eq!(connected.write(Ok(10)).unwrap(), 10);
    assert!(connected.flush(Ok(())).is_ok());
    let e = connected.flush(Err(os_error(109, "The pipe has been ended."))).unwrap_err();
    assert_eq!(e.msg(), r#"ConnectedOutboundServer {path: "\\.\pipe\big",..} flush() failed with"#);
}

#[test]
fn client_open_steps() {
    let q = DuplexClient::open(r"\\.\pipe\steps").unwrap();
    assert_eq!(q.read_mode(), ReadMode::Message);
    let h = UnsafeHandle(21);
    match q.opened(h) {
        OpenStep::SetReadMode(handle, mode) => {
            assert_eq!(handle, h);
            assert_eq!(mode, 2);
        }
        other => panic!("unexpected step {:?}", other),
    }
    match q.read_mode_set(h, Err(os_error(87, "The parameter is incorrect."))) {
        OpenStep::Release(handle, e) => {
            assert_eq!(handle, h);
            assert_eq!(e.code, 87);
        }
        other => panic!("unexpected step {:?}", other),
    }
    match q.read_mode_set(h, Ok(())) {
        OpenStep::QueryInfo(handle) => assert_eq!(handle, h),
        other => panic!("unexpected step {:?}", other),
    }
    let inbound = InboundClient::open(r"\\.\pipe\steps").unwrap();
    assert_eq!(inbound.read_mode(), ReadMode::Byte);
    assert_eq!(inbound.desired_access(), 0x0012_0116);
    match inbound.opened(h) {
        OpenStep::QueryInfo(handle) => assert_eq!(handle, h),
        other => panic!("unexpected step {:?}", other),
    }
    let (back, e) = InboundClient::opened(&inbound, h, Err(os_error(6, "bad"))).unwrap_err();
    assert_eq!(back, h);
    assert_eq!(e.msg(), r#"InboundClient {path: "\\.\pipe\steps",..} open() failed with"#);
}

#[test]
fn call_request_checks_path_then_length() {
    let q = UnsafeClient::call(r"\\.\pipe\call", 4, 1 << 40).unwrap();
    assert_eq!(q.write_len(), 4);
    assert_eq!(q.read_len(), u32::MAX);
    assert_eq!(q.c_path().last(), Some(&0u8));
    let e = UnsafeClient::call(r"\\.\pipe\call", u32::MAX as usize + 1, 8).unwrap_err();
    assert_eq!(e.kind, ErrorKind::BufferTooLarge);
    let e = UnsafeClient::call("é", u32::MAX as usize + 1, 8).unwrap_err();
    assert_eq!(e.kind, ErrorKind::InvalidPath);
}

#[test]
fn stdio_redirection_tokens_own_the_displaced_handle() {
    let q = DuplexClient::open(r"\\.\pipe\stdio").unwrap();
    let client = DuplexClient::opened(&q, UnsafeHandle(30), Ok(info())).unwrap();
    let token = client.set_stdout(Ok(1)).unwrap();
    assert_eq!(token.into_handle(), 1);
    let token = client.set_stdin(Ok(0)).unwrap();
    assert_eq!(token.into_handle(), 0);
    let e = client.set_stdin(Err(os_error(6, "bad"))).unwrap_err();
    assert_eq!(e.msg(), r#"DuplexClient {path: "\\.\pipe\stdio",..} set_stdin() failed with"#);
}

#[test]
fn duplex_ping_pong_lifecycle() {
    // server side: create, then wait for the client
    let request = DuplexServer::with_name("test1").unwrap();
    assert_eq!(request.c_path(), b"\\\\.\\pipe\\test1\0".to_vec());
    let mut server = DuplexServer::create(&request, UnsafeHandle(100), Ok(info())).unwrap();
    assert_eq!(server.name(), "test1");
    assert_eq!(server.host(), ".");

    // client side: open the same path
    let client_request = DuplexClient::with_name("test1").unwrap();
    assert_eq!(client_request.c_path(), request.c_path());
    assert!(matches!(client_request.opened(UnsafeHandle(200)), OpenStep::SetReadMode(_, 2)));
    let mut client = DuplexClient::opened(&client_request, UnsafeHandle(200), Ok(PipeInfo::default())).unwrap();

    // the client attached before the server waited: the wait reports it as such
    let attached = os_error(ERROR_PIPE_CONNECTED_HRESULT, "There is a process on other end of the pipe.");
    let mut connected = server.connect(Err(attached)).unwrap();
    assert_eq!(connected.path(), server.path());

    // client writes "ping", server reads it
    let ping = b"ping";
    assert_eq!(client.write_len(ping.len()).unwrap(), 4);
    assert_eq!(client.write(Ok(4)).unwrap(), 4);
    let buf = [0u8; 512];
    assert_eq!(connected.read_len(buf.len()), 512);
    assert_eq!(connected.read(Ok(4)).unwrap(), 4);

    // server writes "pong", client reads it
    assert_eq!(connected.write_len(b"pong".len()).unwrap(), 4);
    assert_eq!(connected.write(Ok(4)).unwrap(), 4);
    assert_eq!(client.read_len(buf.len()), 512);
    assert_eq!(client.read(Ok(4)).unwrap(), 4);

    // both sides close cleanly
    assert!(connected.disconnect(Ok(())).is_ok());
    assert!(client.close(Ok(())).is_ok());
    assert!(server.close(Ok(())).is_ok());
}

#[test]
fn endpoints_give_up_their_inner_object() {
    let q = OutboundClient::open(r"\\.\pipe\inner").unwrap();
    let client = OutboundClient::opened(&q, UnsafeHandle(8), Ok(info())).unwrap();
    assert_eq!(client.as_inner().as_win_handle(), 8);
    let inner = client.into_inner();
    assert_eq!(inner.path(), r"\\.\pipe\inner");
    assert_eq!(inner.name(), "inner");
    assert_eq!(inner.info(), info());
    assert!(inner.close(Ok(())).is_ok());
}

#[test]
fn round_trip_lengths_for_buffer_sizes() {
    let q = DuplexServer::with_name("sizes").unwrap();
    let mut server = DuplexServer::create(&q, UnsafeHandle(40), Ok(info())).unwrap();
    let mut connected = server.connect(Ok(())).unwrap();
    let cq = DuplexClient::with_name("sizes").unwrap();
    let mut client = DuplexClient::opened(&cq, UnsafeHandle(41), Ok(info())).unwrap();
    for n in [0usize, 1, 511, 512] {
        let sent = connected.write_len(n).unwrap();
        assert_eq!(sent as usize, n);
        assert_eq!(connected.write(Ok(sent)).unwrap(), sent);
        assert_eq!(client.read_len(n) as usize, n);
        assert_eq!(client.read(Ok(sent)).unwrap(), sent);
        assert_eq!(client.write_len(n).unwrap() as usize, n);
        assert_eq!(connected.read_len(n) as usize, n);
    }
}

#[test]
fn client_attached_before_the_wait_counts_as_connected() {
    let q = DuplexServer::with_name("early").unwrap();
    let mut server = DuplexServer::create(&q, UnsafeHandle(50), Ok(info())).unwrap();
    let c = DuplexClient::with_name("early").unwrap();
    let _client = DuplexClient::opened(&c, UnsafeHandle(51), Ok(info())).unwrap();
    let connected = server
        .connect(Err(os_error(ERROR_PIPE_CONNECTED_HRESULT, "There is a process on other end of the pipe.")))
        .unwrap();
    assert_eq!(connected.as_win_handle(), 50);
    assert_eq!(connected.path(), server.path());
    // any other failed wait gives no connected server
    assert!(server.connect(Err(os_error(ERROR_PIPE_CONNECTED_HRESULT + 1, "other"))).is_err());
}

#[test]
fn error_pipe_connected_code_matches_the_system() {
    let code = windows::core::HRESULT::from(windows::Win32::Foundation::ERROR_PIPE_CONNECTED);
    assert_eq!(code.0, ERROR_PIPE_CONNECTED_HRESULT);
}

#[test]
fn invalid_paths_report_error_invalid_name_everywhere() {
    let long = format!(r"\\.\pipe\{}", "n".repeat(260));
    assert_eq!(DuplexServer::open(&long).unwrap_err().code(), 123);
    assert_eq!(OutboundClient::open(&long).unwrap_err().code(), 123);
    let e = windows_named_pipes::builder::ClientBuilder::<windows_named_pipes::roles::Duplex>::new()
        .open(&long)
        .unwrap_err();
    assert_eq!(e.code(), 123);
    assert_eq!(e.msg(), format!(r#"ClientBuilder {{path: "{}",..}} open() failed with"#, long));
    let e = windows_named_pipes::builder::ServerBuilder::<windows_named_pipes::roles::Duplex>::new()
        .open(&long)
        .unwrap_err();
    assert_eq!(e.code(), 123);
    let e = windows_named_pipes::options::UnsafeServerBuilder::new().open(&long).unwrap_err();
    assert_eq!(e.kind, ErrorKind::InvalidPath);
    assert_eq!(e.code, 123);
}
