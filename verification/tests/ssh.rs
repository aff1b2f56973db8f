use nerdterm::config::known_hosts::{HostKey, KnownHosts, Verdict};
use nerdterm::events::{AppEvent, ConnectionCommand};
use nerdterm::network::ssh::{
    check_server_key, disconnect_once, key_file_names, login, on_command, on_message,
    resolve_ssh_username, trust_answered, ChannelMessage, ChannelStep, HostKeyStep, LoginNames,
    LoginResult, LoginStep, LoginTarget,
};

fn env(user: Option<&str>, username: Option<&str>) -> LoginNames {
    LoginNames { user: user.map(String::from), username: username.map(String::from) }
}

fn target() -> LoginTarget {
    LoginTarget { host: "bbs.example".into(), port: 2222, user: "alice".into() }
}

fn host_key(fingerprint: &str) -> HostKey {
    HostKey {
        host: "bbs.example".into(),
        port: 2222,
        key_type: "ssh-ed25519".into(),
        fingerprint: fingerprint.into(),
    }
}

#[test]
fn resolve_uses_configured_username() {
    let names = env(Some("me"), None);
    assert_eq!(resolve_ssh_username(Some("bbsuser"), &names), "bbsuser");
    assert_eq!(resolve_ssh_username(Some("  alice  "), &names), "alice");
}

#[test]
fn resolve_blank_or_none_is_not_root() {
    for names in [env(Some("root"), None), env(None, None), env(Some(""), Some("root"))] {
        let u = resolve_ssh_username(None, &names);
        assert_ne!(u, "root");
        assert!(!u.is_empty());
        let u2 = resolve_ssh_username(Some(""), &names);
        assert_ne!(u2, "root");
        let u3 = resolve_ssh_username(Some("   "), &names);
        assert_ne!(u3, "root");
    }
}

#[test]
fn the_environments_names_are_tried_in_order() {
    assert_eq!(resolve_ssh_username(None, &env(Some("me"), Some("other"))), "me");
    assert_eq!(resolve_ssh_username(None, &env(None, Some("other"))), "other");
    assert_eq!(resolve_ssh_username(None, &env(Some("root"), Some("other"))), "other");
    assert_eq!(resolve_ssh_username(None, &env(None, None)), "user");
    assert_eq!(resolve_ssh_username(Some("root"), &env(Some("me"), None)), "root");
}

#[test]
fn keys_are_looked_for_in_order() {
    assert_eq!(key_file_names(), ["id_ed25519", "id_ecdsa", "id_rsa"]);
}

#[test]
fn a_host_without_secrets_is_entered_at_once() {
    let t = target();
    let step = login();
    assert!(matches!(step, LoginStep::Connect));
    let step = step.next(LoginResult::Done, false, &t);
    assert!(matches!(step, LoginStep::AuthenticateNone));
    let step = step.next(LoginResult::Done, false, &t);
    assert!(matches!(step, LoginStep::OpenChannel));
    let step = step.next(LoginResult::Done, false, &t);
    assert!(matches!(step, LoginStep::RequestPty));
    let step = step.next(LoginResult::Done, false, &t);
    assert!(matches!(step, LoginStep::RequestShell));
    let step = step.next(LoginResult::Done, false, &t);
    assert!(matches!(step, LoginStep::Ready));
}

#[test]
fn keys_come_before_the_password() {
    let t = target();
    let step = login().next(LoginResult::Done, false, &t).next(LoginResult::Refused, false, &t);
    assert!(matches!(step, LoginStep::LoadKeys));
    let step = step.next(LoginResult::Keys(2), false, &t);
    assert!(matches!(step, LoginStep::AuthenticateKey { index: 0, count: 2 }));
    let step = step.next(LoginResult::Refused, false, &t);
    assert!(matches!(step, LoginStep::AuthenticateKey { index: 1, count: 2 }));
    let step = step.next(LoginResult::Failed("broken".into()), false, &t);
    assert!(matches!(step, LoginStep::AskPassword));
    let step = step.next(LoginResult::Done, false, &t);
    assert!(matches!(step, LoginStep::AuthenticatePassword));
    let step = step.next(LoginResult::Refused, false, &t);
    assert!(
        matches!(&step, LoginStep::Failed(e) if e == "Authentication failed for user 'alice'")
    );
}

#[test]
fn failed_logins_say_why() {
    let t = target();
    let timed_out = login().next(LoginResult::TimedOut, false, &t);
    assert!(matches!(&timed_out, LoginStep::Failed(e)
        if e == "SSH connection to bbs.example:2222 timed out after 30s"));
    let refused = login().next(LoginResult::Failed("refused".into()), false, &t);
    assert!(matches!(&refused, LoginStep::Failed(e) if e == "refused"));
    let given_up = login().next(LoginResult::Done, true, &t);
    assert!(matches!(&given_up, LoginStep::Failed(e) if e == "Connection cancelled"));
    let unanswered = LoginStep::AskPassword.next(LoginResult::Refused, false, &t);
    assert!(matches!(&unanswered, LoginStep::Failed(e) if e == "Password prompt cancelled"));
    let no_keys = LoginStep::LoadKeys.next(LoginResult::Keys(0), true, &t);
    assert!(matches!(&no_keys, LoginStep::Failed(e) if e == "Connection cancelled"));
    let no_pty = LoginStep::RequestPty.next(LoginResult::Failed("no pty".into()), false, &t);
    assert!(matches!(&no_pty, LoginStep::Failed(e) if e == "no pty"));
}

#[test]
fn a_login_given_up_ends_with_the_keys() {
    let t = target();
    let step = LoginStep::LoadKeys.next(LoginResult::Keys(2), true, &t);
    assert!(matches!(step, LoginStep::AuthenticateKey { index: 0, count: 2 }));
    let step = step.next(LoginResult::Refused, true, &t);
    assert!(matches!(step, LoginStep::AuthenticateKey { index: 1, count: 2 }));
    let step = step.next(LoginResult::Refused, true, &t);
    assert!(matches!(&step, LoginStep::Failed(e) if e == "Connection cancelled"));
    let granted =
        LoginStep::AuthenticateKey { index: 0, count: 2 }.next(LoginResult::Done, true, &t);
    assert!(matches!(&granted, LoginStep::Failed(e) if e == "Connection cancelled"));
}

#[test]
fn an_unknown_key_is_asked_about_and_then_remembered() {
    let mut known = KnownHosts::default();
    match check_server_key(&known, 5, &host_key("SHA256:abc"), None) {
        HostKeyStep::Ask(AppEvent::HostKeyTrustNeeded { id, host, port, key_type, fingerprint }) => {
            assert_eq!((id, port), (5, 2222));
            assert_eq!(host, "bbs.example");
            assert_eq!(key_type, "ssh-ed25519");
            assert_eq!(fingerprint, "SHA256:abc");
        }
        _ => panic!("expected a question"),
    }
    assert!(!trust_answered(&mut known, host_key("SHA256:abc"), None));
    assert!(!trust_answered(&mut known, host_key("SHA256:abc"), Some(false)));
    assert!(known.entries.is_empty());
    assert!(trust_answered(&mut known, host_key("SHA256:abc"), Some(true)));
    assert_eq!(known.entries, [host_key("SHA256:abc")]);
    assert!(matches!(
        check_server_key(&known, 5, &host_key("SHA256:abc"), None),
        HostKeyStep::Accept
    ));
    assert_eq!(
        known.verify("bbs.example", 2222, "ssh-ed25519", "SHA256:xyz"),
        Verdict::Mismatch { stored: "SHA256:abc".into() },
    );
}

#[test]
fn a_changed_key_is_refused() {
    let known = KnownHosts { entries: vec![host_key("SHA256:abc")] };
    let other = host_key("SHA256:xyz");
    match check_server_key(&known, 9, &other, Some("/c/known_hosts.toml".into())) {
        HostKeyStep::Refuse(AppEvent::HostKeyMismatch {
            id,
            stored_fingerprint,
            received_fingerprint,
            file_path,
            ..
        }) => {
            assert_eq!(id, 9);
            assert_eq!(stored_fingerprint, "SHA256:abc");
            assert_eq!(received_fingerprint, "SHA256:xyz");
            assert_eq!(file_path, "/c/known_hosts.toml");
        }
        _ => panic!("expected a refusal"),
    }
    match check_server_key(&known, 9, &other, None) {
        HostKeyStep::Refuse(AppEvent::HostKeyMismatch { file_path, .. }) => {
            assert_eq!(file_path, "known_hosts.toml");
        }
        _ => panic!("expected a refusal"),
    }
}

#[test]
fn channel_messages_become_events() {
    match on_message(3, ChannelMessage::Data(vec![1, 2])) {
        (Some(AppEvent::NetworkData { id: 3, data }), false) => assert_eq!(data, [1, 2]),
        _ => panic!("expected data"),
    }
    assert!(matches!(on_message(3, ChannelMessage::End), (None, true)));
    assert!(matches!(on_message(3, ChannelMessage::Other), (None, false)));
}

#[test]
fn commands_become_channel_requests() {
    match on_command(Some(ConnectionCommand::SendText("ü\r\n".into()))) {
        ChannelStep::Send(bytes) => assert_eq!(bytes, [0xc3, 0xbc, 0x0d, 0x0a]),
        _ => panic!("expected bytes"),
    }
    match on_command(Some(ConnectionCommand::SendRaw(vec![3]))) {
        ChannelStep::Send(bytes) => assert_eq!(bytes, [3]),
        _ => panic!("expected bytes"),
    }
    assert!(matches!(
        on_command(Some(ConnectionCommand::Resize(100, 40))),
        ChannelStep::Resize(100, 40)
    ));
    assert!(matches!(on_command(Some(ConnectionCommand::Disconnect)), ChannelStep::Close));
    assert!(matches!(on_command(None), ChannelStep::Close));
}

#[test]
fn a_session_ends_once() {
    let mut sent = false;
    let first = disconnect_once(&mut sent, 4, Some("eof".into()));
    assert!(matches!(&first, Some(AppEvent::Disconnected { id: 4, reason: Some(r) }) if r == "eof"));
    assert!(sent);
    assert!(disconnect_once(&mut sent, 4, None).is_none());
}
