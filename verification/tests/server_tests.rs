use mini_msp::auth::{
    authorize, bearer_token, check_credentials, login, login_claims, login_response, refresh, refresh_from, refreshed_claims,
    AuthError, LoginOutcome, LoginRequest, RefreshClaims, RefreshOutcome,
};
use mini_msp::frames::{buffer_to_string, parse_binary_reply};
use mini_msp::protocol::Command;
use mini_msp::registry::{calculate_status, AgentRegistry, AgentStatus, CommandRoute, HeartbeatReport};
use mini_msp::server_api::{
    directory_info_command, directory_listing, event_data_command, file_kind, file_reader_command, send_failure,
    timeout_fallback, Config, DirEntry, Fallback,
};
use mini_msp::ws_inbound::{on_agent_frame, socket_reply, AgentFrame, AgentStep, SocketReply};
use mini_msp::ws_manager::WebSocketManager;

#[test]
fn test_buffer_to_string() {
    let mut buf = [0i8; 10];
    buf[0] = b'h' as i8;
    buf[1] = b'i' as i8;
    assert_eq!(buffer_to_string(&buf), "hi");
}

#[test]
fn buffer_without_nul_and_invalid_text() {
    let buf = [b'o' as i8, b'k' as i8];
    assert_eq!(buffer_to_string(&buf), "ok");
    let bad = [-1i8, 0];
    assert_eq!(buffer_to_string(&bad), "");
}

#[test]
fn login_accepts_only_the_admin() {
    let ok = LoginRequest { username: "admin".to_string(), password: "password".to_string() };
    let bad = LoginRequest { username: "admin".to_string(), password: "x".to_string() };
    assert!(check_credentials(&ok));
    assert!(!check_credentials(&bad));
    let (access, refresh) = login_claims(&ok, 1000).unwrap();
    assert_eq!(access.exp, 1900);
    assert_eq!(refresh.exp, 1000 + 604800);
    assert_eq!(access.sub, "admin");
    assert!(login_claims(&bad, 1000).is_none());
    let again = refreshed_claims(&RefreshClaims { sub: "admin".to_string(), exp: 5 }, 10);
    assert_eq!(again.exp, 910);
    assert_eq!(login_response("t".to_string()).expires_in, 86400);
}

#[test]
fn bearer_tokens() {
    assert_eq!(bearer_token(Some("Bearer abc")), Ok("abc".to_string()));
    assert_eq!(bearer_token(Some("Basic abc")), Err(AuthError::InvalidTokenType));
    assert_eq!(bearer_token(None), Err(AuthError::MissingAuthorizationHeader));
}

#[test]
fn registry_follows_heartbeats() {
    let mut reg = AgentRegistry::new();
    let hb = HeartbeatReport {
        agent_id: Some("a1".to_string()),
        hostname: "h".to_string(),
        platform: "linux".to_string(),
        version: "1".to_string(),
        uptime: 5,
    };
    reg.record_heartbeat(hb, 100);
    assert_eq!(reg.count(), 1);
    assert!(reg.contains("a1"));
    assert_eq!(reg.get("a1").unwrap().status, "online");
    assert_eq!(reg.route_command("a1", true), CommandRoute::UseWebSocket);
    assert_eq!(reg.route_command("zz", true), CommandRoute::AgentNotFound);
    assert_eq!(reg.route_command("a1", false), CommandRoute::BadRequest);
    let listing = reg.list_agents(300);
    assert_eq!(listing.count, 1);
    assert_eq!(listing.offline_count, 1);
    assert!(reg.remove("a1"));
    assert_eq!(reg.count(), 0);
}

#[test]
fn status_by_age() {
    assert_eq!(calculate_status(200, 100), AgentStatus::Online);
    assert_eq!(calculate_status(221, 100), AgentStatus::Offline);
}

#[test]
fn manager_delivers_each_reply_once() {
    let mut m: WebSocketManager<u32> = WebSocketManager::new();
    assert!(m.send_and_wait("a1", Command::GetProcesses, 7).is_err());
    m.register_agent("a1".to_string(), 10);
    let req = m.send_and_wait("a1", Command::GetProcesses, 7).unwrap();
    assert_eq!(req.command_id.len(), 36);
    assert_eq!(m.handle_response(&req.command_id), Some(7));
    assert_eq!(m.handle_response(&req.command_id), None);
    assert_eq!(m.get_connected_agents(), vec!["a1".to_string()]);
    assert_eq!(m.cleanup_inactive(1000, 100), vec!["a1".to_string()]);
    assert_eq!(m.connected_count(), 0);
}

#[test]
fn send_to_missing_agent_says_so() {
    let mut m: WebSocketManager<u32> = WebSocketManager::new();
    match m.send_and_wait("ghost", Command::GetSystemInfo, 1) {
        Err(e) => assert_eq!(e, "Agent ghost not connected"),
        Ok(_) => panic!("an absent agent took a command"),
    }
}

#[test]
fn agent_frames() {
    let mut m: WebSocketManager<u32> = WebSocketManager::new();
    let reg = AgentFrame::Text { text: r#"{"type":"register","agent_id":"a9"}"#.to_string(), reply: None };
    assert!(matches!(on_agent_frame(&mut m, reg, 5), AgentStep::Registered(id) if id == "a9"));
    assert_eq!(m.connected_count(), 1);
    let req = m.send_and_wait("a9", Command::GetProcesses, 42).unwrap();
    let resp = AgentFrame::Text {
        text: r#"{"type":"command_response"}"#.to_string(),
        reply: Some(Some(req.command_id.clone())),
    };
    assert!(matches!(on_agent_frame(&mut m, resp, 6), AgentStep::DeliverJson(Some(42))));
    let no_id = AgentFrame::Text { text: r#"{"type":"command_response"}"#.to_string(), reply: Some(None) };
    assert!(matches!(on_agent_frame(&mut m, no_id, 7), AgentStep::Abort));
    let req2 = m.send_and_wait("a9", Command::GetVideoFrame, 43).unwrap();
    let mut frame = req2.command_id.clone().into_bytes();
    frame.extend_from_slice(&[1, 2, 3]);
    match on_agent_frame(&mut m, AgentFrame::Binary(frame), 8) {
        AgentStep::DeliverBinary(w, b) => {
            assert_eq!(w, Some(43));
            assert_eq!(b.data, vec![1, 2, 3]);
        },
        _ => panic!("binary reply not delivered"),
    }
    assert!(matches!(on_agent_frame(&mut m, AgentFrame::Binary(vec![1, 2]), 9), AgentStep::Continue));
    assert!(matches!(on_agent_frame(&mut m, AgentFrame::Ping, 9), AgentStep::Stop));
    assert!(matches!(on_agent_frame(&mut m, AgentFrame::Pong, 9), AgentStep::Continue));
    assert!(matches!(on_agent_frame(&mut m, AgentFrame::Close, 9), AgentStep::Stop));
    let junk = AgentFrame::Text { text: "not json".to_string(), reply: None };
    assert!(matches!(on_agent_frame(&mut m, junk, 9), AgentStep::Continue));
}

#[test]
fn binary_frame_head() {
    assert!(parse_binary_reply(&[0u8; 35]).is_none());
    let r = parse_binary_reply(&[b'a'; 40]).unwrap();
    assert_eq!(r.command_id, "a".repeat(36));
    assert_eq!(r.data, vec![b'a'; 4]);
}

#[test]
fn socket_replies() {
    let connected = vec!["abc".to_string()];
    assert!(matches!(socket_reply(&connected, "no json"), SocketReply::Ignore));
    assert!(matches!(socket_reply(&connected, r#"{"x":1}"#), SocketReply::Echo));
    assert!(matches!(socket_reply(&connected, r#"{"type":"register","agent_id":"q"}"#), SocketReply::Register(id) if id == "q"));
    match socket_reply(&connected, r#"{"type":"cmd","agent_id":"abc","command":"ping","command_id":"c1"}"#) {
        SocketReply::Forward { target, command, command_id } => {
            assert_eq!(target, "abc");
            assert_eq!(command, "ping");
            assert_eq!(command_id, Some("c1".to_string()));
        },
        _ => panic!("command for a connected agent not forwarded"),
    }
    match socket_reply(&connected, r#"{"type":"cmd","agent_id":"zz","command":"ping"}"#) {
        SocketReply::Refuse(m) => assert_eq!(m, "Agent zz not connected"),
        _ => panic!("command for an absent agent not refused"),
    }
    assert!(matches!(socket_reply(&connected, r#"{"type":"cmd"}"#), SocketReply::Ignore));
}

#[test]
fn server_config_defaults() {
    let c = Config::default();
    assert_eq!(c.port, 8080);
    assert_eq!(c.log_level, "info");
    assert_eq!(c.log_dir, "logs");
    assert!(c.broker_url.is_none());
}

#[test]
fn directory_listing_sorts_entries() {
    assert_eq!(file_kind("a.pdf"), "document");
    assert_eq!(file_kind("b.png"), "image");
    assert_eq!(file_kind("c.mov"), "video");
    assert_eq!(file_kind("d.rs"), "other");
    let entries = vec![
        DirEntry { name: "docs".to_string(), is_dir: true, size: 4096 },
        DirEntry { name: "a.txt".to_string(), is_dir: false, size: 10 },
        DirEntry { name: "b.gif".to_string(), is_dir: false, size: 5 },
    ];
    let l = directory_listing("/tmp".to_string(), &entries);
    assert_eq!(l.total_size, 15);
    assert_eq!(l.directories, vec!["docs".to_string()]);
    assert_eq!(l.files.len(), 2);
    assert_eq!(l.files[0].kind, "document");
    assert_eq!(l.files[1].kind, "image");
    assert_eq!(l.files.len() + l.directories.len(), entries.len());
}

#[test]
fn query_parameters_make_commands() {
    match directory_info_command(Some("/var".to_string()), Some("true"), Some("yes"), Some("3")) {
        Command::GetDirectoryInfoData { path, include_subdirs, show_hidden, max_depth } => {
            assert_eq!(path, "/var");
            assert!(include_subdirs);
            assert!(!show_hidden);
            assert_eq!(max_depth, 3);
        },
        _ => panic!("wrong command"),
    }
    match directory_info_command(None, None, None, Some("deep")) {
        Command::GetDirectoryInfoData { path, max_depth, .. } => {
            assert_eq!(path, "");
            assert_eq!(max_depth, 1);
        },
        _ => panic!("wrong command"),
    }
    assert!(matches!(event_data_command(None), Command::GetEventData { path } if path.is_empty()));
    assert!(matches!(file_reader_command(Some("x".to_string())), Command::GetFileReaderData { path } if path == "x"));
}

#[test]
fn command_timeouts_and_failures() {
    assert!(matches!(timeout_fallback(&Command::GetSystemInfo), Fallback::MockSystemInfo));
    let f = timeout_fallback(&Command::GetProcesses);
    assert_eq!(f.status(), Some("error"));
    assert_eq!(f.message(), Some("Agent timeout: plugin data not available"));
    let t = timeout_fallback(&Command::GetWatchersData);
    assert_eq!(t.status(), Some("timeout"));
    assert_eq!(t.message(), Some("Agent did not respond in time"));
    assert_eq!(send_failure("Agent a not connected"), "Agent not connected: Agent a not connected");
}

#[test]
fn login_signs_tokens_that_refresh_and_authorize() {
    let key = b"test-secret";
    let ok = LoginRequest { username: "admin".to_string(), password: "password".to_string() };
    let now: usize = 2_000_000_000;
    let (token, refresh_token) = match login(&ok, now, key) {
        LoginOutcome::Tokens { token, refresh_token } => (token, refresh_token),
        other => panic!("login refused: {:?}", other),
    };
    assert_eq!(token.split('.').count(), 3);
    assert_ne!(token, refresh_token);
    let header = format!("Bearer {}", token);
    assert_eq!(authorize(Some(header.as_str()), key), Ok("admin".to_string()));
    assert_eq!(authorize(Some(header.as_str()), b"other-secret"), Err(AuthError::InvalidToken));
    match refresh(&refresh_token, now, key) {
        RefreshOutcome::Token(t) => {
            let h = format!("Bearer {}", t);
            assert_eq!(authorize(Some(h.as_str()), key), Ok("admin".to_string()));
        }
        other => panic!("refresh refused: {:?}", other),
    }
}

#[test]
fn login_and_refresh_refusals() {
    let key = b"test-secret";
    let bad = LoginRequest { username: "admin".to_string(), password: "wrong".to_string() };
    assert!(matches!(login(&bad, 1000, key), LoginOutcome::InvalidCredentials));
    assert!(matches!(refresh("junk", 1000, key), RefreshOutcome::InvalidToken));
    assert!(matches!(refresh_from(None, 1000, key), RefreshOutcome::InvalidToken));
    match refresh_from(Some("admin".to_string()), 2_000_000_000, key) {
        RefreshOutcome::Token(t) => {
            let h = format!("Bearer {}", t);
            assert_eq!(authorize(Some(h.as_str()), key), Ok("admin".to_string()));
        }
        other => panic!("refresh refused: {:?}", other),
    }
    assert_eq!(authorize(None, key), Err(AuthError::MissingAuthorizationHeader));
    assert_eq!(authorize(Some("Basic abc"), key), Err(AuthError::InvalidTokenType));
    assert_eq!(authorize(Some("Bearer junk"), key), Err(AuthError::InvalidToken));
}

fn base64url_decode(s: &str) -> Vec<u8> {
    let alphabet = "ABCDEFGHIJKLMNOPQRSTUVWXYZabcdefghijklmnopqrstuvwxyz0123456789-_";
    let mut bits: u32 = 0;
    let mut n: u32 = 0;
    let mut out: Vec<u8> = Vec::new();
    for c in s.chars() {
        let v = alphabet.find(c).unwrap() as u32;
        bits = (bits << 6) | v;
        n += 6;
        if n >= 8 {
            n -= 8;
            out.push(((bits >> n) & 0xff) as u8);
        }
    }
    out
}

#[test]
fn issued_tokens_carry_subject_then_expiry() {
    let ok = LoginRequest { username: "admin".to_string(), password: "password".to_string() };
    match login(&ok, 1_000, b"k") {
        LoginOutcome::Tokens { token, refresh_token } => {
            let payload = String::from_utf8(base64url_decode(token.split('.').nth(1).unwrap())).unwrap();
            assert_eq!(payload, "{\"sub\":\"admin\",\"exp\":1900}");
            let payload = String::from_utf8(base64url_decode(refresh_token.split('.').nth(1).unwrap())).unwrap();
            assert_eq!(payload, "{\"sub\":\"admin\",\"exp\":605800}");
            let header = String::from_utf8(base64url_decode(token.split('.').next().unwrap())).unwrap();
            assert_eq!(header, "{\"typ\":\"JWT\",\"alg\":\"HS256\"}");
        }
        other => panic!("login refused: {:?}", other),
    }
}

#[test]
fn connections_are_recorded_as_unknown_agents() {
    let mut r = AgentRegistry::new();
    r.register_connection("ws-1".to_string(), 50);
    let a = r.get("ws-1").unwrap();
    assert_eq!(a.hostname, "unknown");
    assert_eq!(a.platform, "unknown");
    assert_eq!(a.version, "1.0.0");
    assert_eq!(a.status, "connected");
    assert_eq!(a.last_seen, 50);
}
