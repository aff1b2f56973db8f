use nerdterm::config::address_book;
use nerdterm::config::capture::{
    candidate_name, capture_base, capture_header, exhausted_message, next_available_path, open_in,
    race_message, sanitize_entry_name, CaptureFile, NameSearch,
};
use nerdterm::config::clock::Moment;
use nerdterm::config::files::{
    quarantine_suffix, save, temporary_suffix, Backup, FileState, SaveStep,
};
use nerdterm::config::known_hosts::{self, HostKey, KnownHosts, Verdict};
use nerdterm::config::settings::{self, Settings};
use nerdterm::entry::{default_protocol, AddressBookEntry, InputMode, Protocol};

fn sample_entries() -> Vec<AddressBookEntry> {
    vec![AddressBookEntry {
        name: "Test Host".into(),
        host: "example.com".into(),
        port: 2323,
        protocol: Protocol::Telnet,
        username: None,
        terminal_type: None,
        default_input_mode: None,
    }]
}

fn key(host: &str, port: u16, kt: &str, fp: &str) -> HostKey {
    HostKey { host: host.into(), port, key_type: kt.into(), fingerprint: fp.into() }
}

/// The name that a search settles on where the listed ones are taken.
fn available(base: &str, taken: &[String]) -> Option<String> {
    let mut search = next_available_path();
    loop {
        match search {
            NameSearch::Probe(n) => search = search.next(taken.contains(&candidate_name(base, n))),
            NameSearch::Found(n) => return Some(candidate_name(base, n)),
            NameSearch::Exhausted => return None,
        }
    }
}

/// 26 April 2026, 13:50:00, five hours behind UTC.
fn afternoon() -> Moment {
    Moment { seconds: 1_777_229_400, nanos: 0, offset: -5 * 3600 }
}

#[test]
fn load_missing_file_returns_defaults_without_warning() {
    let result = address_book::load(FileState::Missing);
    assert!(!result.entries.is_empty(), "should fall back to defaults");
    assert!(result.warning.is_none(), "missing file is not a warning");
}

#[test]
fn load_valid_file_returns_those_entries() {
    let result = address_book::load(FileState::Parsed(sample_entries()));
    assert_eq!(result.entries.len(), 1);
    assert_eq!(result.entries[0].name, "Test Host");
    assert!(result.warning.is_none());
}

#[test]
fn load_malformed_file_quarantines_and_warns() {
    let result = address_book::load(FileState::Malformed {
        path: "/c/ab.toml".into(),
        error: "bad key".into(),
        backup: Backup::Moved("/c/ab.toml.corrupt-7".into()),
    });
    assert!(!result.entries.is_empty(), "should fall back to defaults");
    assert_eq!(
        result.warning.as_deref(),
        Some("Could not parse /c/ab.toml: bad key. Saved corrupt copy to /c/ab.toml.corrupt-7."),
    );
    let stuck = address_book::load(FileState::Malformed {
        path: "/c/ab.toml".into(),
        error: "bad key".into(),
        backup: Backup::Failed("denied".into()),
    });
    assert_eq!(
        stuck.warning.as_deref(),
        Some("Could not parse /c/ab.toml: bad key. Failed to back it up: denied."),
    );
}

#[test]
fn an_empty_book_is_replaced_by_the_shipped_one() {
    let result = address_book::load(FileState::Parsed(Vec::new()));
    let names: Vec<&str> = result.entries.iter().map(|e| e.name.as_str()).collect();
    assert_eq!(
        names,
        [
            "CoffeeMUD",
            "Star Wars ASCII",
            "Aardwolf MUD",
            "Legend of the Red Dragon",
            "Synchronet BBS"
        ],
    );
    assert_eq!(result.entries[2].host, "aardmud.org");
    assert_eq!(result.entries[2].port, 4000);
    assert!(result.entries.iter().all(|e| e.protocol == Protocol::Telnet));
    assert!(result.warning.is_none());
}

#[test]
fn the_book_says_why_it_could_not_be_read() {
    let nowhere = address_book::load(FileState::NoLocation("no home".into()));
    assert_eq!(
        nowhere.warning.as_deref(),
        Some("Could not determine config path: no home"),
    );
    let locked = address_book::load(FileState::Unreadable {
        path: "/c/ab.toml".into(),
        error: "denied".into(),
    });
    assert_eq!(locked.warning.as_deref(), Some("Could not read /c/ab.toml: denied"));
    assert_eq!(locked.entries.len(), 5);
}

#[test]
fn entries_without_a_protocol_are_telnet() {
    assert_eq!(default_protocol(), Protocol::Telnet);
    assert_eq!(Protocol::Telnet.name(), "Telnet");
    assert_eq!(Protocol::Ssh.name(), "SSH");
}

#[test]
fn sanitize_empty_becomes_session() {
    assert_eq!(sanitize_entry_name(""), "session");
}

#[test]
fn sanitize_only_bad_chars_becomes_session() {
    assert_eq!(sanitize_entry_name(" / \\ : * ? \" < > | "), "session");
}

#[test]
fn sanitize_replaces_spaces_with_underscore() {
    assert_eq!(sanitize_entry_name("Aardwolf MUD"), "Aardwolf_MUD");
}

#[test]
fn sanitize_collapses_runs_of_bad_chars() {
    // multiple separators in a row collapse to one underscore
    assert_eq!(sanitize_entry_name("a   b///c"), "a_b_c");
}

#[test]
fn sanitize_trims_leading_and_trailing_underscores() {
    assert_eq!(sanitize_entry_name("  foo  "), "foo");
    assert_eq!(sanitize_entry_name("///foo///"), "foo");
}

#[test]
fn sanitize_caps_to_80_chars() {
    let long = "a".repeat(200);
    let s = sanitize_entry_name(&long);
    assert_eq!(s.chars().count(), 80);
    assert!(s.chars().all(|c| c == 'a'));
}

#[test]
fn sanitize_preserves_unicode() {
    assert_eq!(sanitize_entry_name("über-café"), "über-café");
}

#[test]
fn sanitizing_twice_changes_nothing_more() {
    for name in ["a__b", "  x / y  ", "_", "plain", "ünï cödé", "a\u{3000}b"] {
        let once = sanitize_entry_name(name);
        assert_eq!(sanitize_entry_name(&once), once);
        assert!(!once.contains("__"), "{once}");
    }
    assert_eq!(sanitize_entry_name("a\u{3000}b"), "a_b");
}

#[test]
fn next_available_path_picks_unsuffixed_when_dir_empty() {
    assert_eq!(available("abc", &[]).as_deref(), Some("abc.log"));
}

#[test]
fn next_available_path_picks_suffix_2_when_unsuffixed_exists() {
    let taken = ["abc.log".to_string()];
    assert_eq!(available("abc", &taken).as_deref(), Some("abc_2.log"));
}

#[test]
fn next_available_path_picks_suffix_3_when_two_exist() {
    let taken = ["abc.log".to_string(), "abc_2.log".to_string()];
    assert_eq!(available("abc", &taken).as_deref(), Some("abc_3.log"));
}

#[test]
fn next_available_path_errors_after_100_collisions() {
    let mut taken = vec!["abc.log".to_string()];
    for i in 2u32..=99 {
        taken.push(format!("abc_{}.log", i));
    }
    assert_eq!(available("abc", &taken).as_deref(), Some("abc_100.log"));
    taken.push("abc_100.log".to_string());
    assert_eq!(available("abc", &taken), None);
    assert_eq!(
        exhausted_message("/logs"),
        "Could not find an available capture filename in /logs (tried up to _100.log)",
    );
}

#[test]
fn open_in_creates_dir_and_writes_header() {
    let plan = open_in("Test Session", "example.com", 23, afternoon()).unwrap();
    assert_eq!(plan.base, "Test_Session_2026-04-26T1350");
    assert!(plan.header.starts_with("# nerdterm session: Test Session example.com:23 started "));
    assert!(plan.header.ends_with('\n'));
    let cap = CaptureFile::new("/logs/Test_Session_2026-04-26T1350.log".into(), &plan.header);
    assert_eq!(cap.bytes_written() as usize, plan.header.len());
    assert_eq!(cap.path(), "/logs/Test_Session_2026-04-26T1350.log");
}

#[test]
fn write_appends_after_header_and_bumps_count() {
    let header = capture_header("x", "h", 22, "now");
    let mut cap = CaptureFile::new("x.log".into(), &header);
    let header_len = cap.bytes_written();

    cap.write(b"hello ");
    cap.write(b"world");
    cap.write(&[0x1b, b'[', b'3', b'1', b'm']);

    assert_eq!(cap.bytes_written(), header_len + 6 + 5 + 5);
}

#[test]
fn open_in_creates_distinct_files_when_called_twice_in_same_minute() {
    let first = open_in("same", "h", 22, afternoon()).unwrap();
    let later = Moment { seconds: afternoon().seconds + 59, ..afternoon() };
    let second = open_in("same", "h", 22, later).unwrap();
    assert_eq!(first.base, second.base);
    let name1 = available(&first.base, &[]).unwrap();
    let name2 = available(&second.base, &[name1.clone()]).unwrap();
    assert_ne!(name1, name2, "second capture must get a unique path");
    assert!(name2.ends_with("_2.log"), "expected _2.log suffix, got {}", name2);
}

#[test]
fn header_includes_iso8601_with_tz_offset() {
    let plan = open_in("x", "h", 22, afternoon()).unwrap();
    assert_eq!(plan.header, "# nerdterm session: x h:22 started 2026-04-26T13:50:00-05:00\n");
    let tail = plan.header.trim_end_matches('\n');
    let last_word = tail.rsplit(' ').next().unwrap();
    let date_part = last_word.split('T').next().unwrap();
    assert_eq!(date_part.len(), 10, "expected YYYY-MM-DD, got {:?}", date_part);
}

#[test]
fn moments_that_the_calendar_does_not_hold_are_refused() {
    assert_eq!(afternoon().stamp().as_deref(), Some("2026-04-26T1350"));
    assert_eq!(afternoon().started().as_deref(), Some("2026-04-26T13:50:00-05:00"));
    let ahead = Moment { offset: 86_400, ..afternoon() };
    assert_eq!(ahead.stamp(), None);
    let never = Moment { seconds: i64::MAX, ..afternoon() };
    assert_eq!(never.started(), None);
    assert!(open_in("x", "h", 22, ahead).is_none());
    assert!(open_in("x", "h", 22, never).is_none());
}

#[test]
fn capture_names_and_messages_read_as_documented() {
    assert_eq!(capture_base("Aardwolf MUD", "2026-04-26T1350"), "Aardwolf_MUD_2026-04-26T1350");
    assert_eq!(
        race_message("/logs/a.log"),
        "Capture file /logs/a.log already exists (race) — try again",
    );
}

#[test]
fn verify_returns_trusted_on_exact_match() {
    let mut kh = KnownHosts::default();
    kh.add(key("h", 22, "ssh-ed25519", "SHA256:abc"));
    assert_eq!(kh.verify("h", 22, "ssh-ed25519", "SHA256:abc"), Verdict::Trusted);
}

#[test]
fn verify_returns_unknown_on_empty_store() {
    let kh = KnownHosts::default();
    assert_eq!(kh.verify("h", 22, "ssh-ed25519", "SHA256:abc"), Verdict::Unknown);
}

#[test]
fn verify_returns_unknown_when_port_differs() {
    let mut kh = KnownHosts::default();
    kh.add(key("h", 22, "ssh-ed25519", "SHA256:abc"));
    assert_eq!(kh.verify("h", 2222, "ssh-ed25519", "SHA256:abc"), Verdict::Unknown);
}

#[test]
fn verify_returns_unknown_when_key_type_differs() {
    let mut kh = KnownHosts::default();
    kh.add(key("h", 22, "ssh-ed25519", "SHA256:abc"));
    assert_eq!(kh.verify("h", 22, "ssh-rsa", "SHA256:abc"), Verdict::Unknown);
}

#[test]
fn verify_returns_mismatch_when_fingerprint_differs() {
    let mut kh = KnownHosts::default();
    kh.add(key("h", 22, "ssh-ed25519", "SHA256:abc"));
    assert_eq!(
        kh.verify("h", 22, "ssh-ed25519", "SHA256:xyz"),
        Verdict::Mismatch { stored: "SHA256:abc".into() },
    );
}

#[test]
fn add_then_verify_returns_trusted() {
    let mut kh = KnownHosts::default();
    kh.add(key("h", 22, "ssh-ed25519", "SHA256:abc"));
    assert_eq!(kh.verify("h", 22, "ssh-ed25519", "SHA256:abc"), Verdict::Trusted);
}

#[test]
fn a_stored_key_cannot_be_overridden() {
    let mut kh = KnownHosts::default();
    kh.add(key("h", 22, "ssh-ed25519", "SHA256:abc"));
    kh.add(key("h", 22, "ssh-ed25519", "SHA256:xyz"));
    assert_eq!(kh.verify("h", 22, "ssh-ed25519", "SHA256:abc"), Verdict::Trusted);
    assert_eq!(
        kh.verify("h", 22, "ssh-ed25519", "SHA256:xyz"),
        Verdict::Mismatch { stored: "SHA256:abc".into() },
    );
}

#[test]
fn load_from_missing_file_returns_empty_no_warning() {
    let result = known_hosts::load(FileState::Missing);
    assert!(result.known_hosts.entries.is_empty());
    assert!(result.warning.is_none());
}

#[test]
fn load_from_corrupt_file_quarantines_and_warns() {
    let result = known_hosts::load(FileState::Malformed {
        path: "/c/kh.toml".into(),
        error: "bad key".into(),
        backup: Backup::Moved("/c/kh.toml.corrupt-7".into()),
    });
    assert!(result.known_hosts.entries.is_empty());
    assert_eq!(
        result.warning.as_deref(),
        Some("Could not parse /c/kh.toml: bad key. Saved corrupt copy to /c/kh.toml.corrupt-7."),
    );
}

#[test]
fn known_hosts_are_those_of_the_file() {
    let stored = vec![
        key("bbs.example.com", 22, "ssh-ed25519", "SHA256:abc"),
        key("bbs.example.com", 22, "ssh-rsa", "SHA256:def"),
    ];
    let loaded = known_hosts::load(FileState::Parsed(stored));
    assert!(loaded.warning.is_none());
    assert_eq!(loaded.known_hosts.entries.len(), 2);
    assert_eq!(loaded.known_hosts.entries[1].key_type, "ssh-rsa");
    let nowhere = known_hosts::load(FileState::NoLocation("no home".into()));
    assert_eq!(
        nowhere.warning.as_deref(),
        Some("Could not determine known_hosts path: no home"),
    );
    let locked = known_hosts::load(FileState::Unreadable {
        path: "/c/kh.toml".into(),
        error: "denied".into(),
    });
    assert_eq!(locked.warning.as_deref(), Some("Could not read /c/kh.toml: denied"));
}

#[test]
fn missing_file_returns_defaults_silently() {
    let loaded = settings::load(FileState::Missing);
    assert_eq!(loaded.settings.scrollback_lines, 1000);
    assert_eq!(loaded.settings.default_input_mode, InputMode::LineBuffered);
    assert_eq!(loaded.settings.terminal_type, "xterm-256color");
    assert!(loaded.warning.is_none());
}

#[test]
fn corrupt_file_is_quarantined_and_warning_returned() {
    let loaded = settings::load(FileState::Malformed {
        path: "/c/settings.toml".into(),
        error: "not a number".into(),
        backup: Backup::Moved("/c/settings.toml.corrupt-7".into()),
    });
    assert_eq!(loaded.settings.scrollback_lines, 1000);
    assert_eq!(
        loaded.warning.as_deref(),
        Some(
            "settings file at /c/settings.toml failed to parse (not a number); quarantined to \
             /c/settings.toml.corrupt-7, using defaults"
        ),
    );
    let stuck = settings::load(FileState::Malformed {
        path: "/c/settings.toml".into(),
        error: "not a number".into(),
        backup: Backup::Failed("denied".into()),
    });
    assert_eq!(
        stuck.warning.as_deref(),
        Some(
            "settings file at /c/settings.toml failed to parse (not a number); failed to \
             quarantine: denied, using defaults"
        ),
    );
}

#[test]
fn settings_that_parse_are_used_and_unreadable_ones_are_not() {
    let loaded = settings::load(FileState::Parsed(Settings {
        scrollback_lines: 4242,
        default_input_mode: InputMode::Character,
        terminal_type: "ANSI".into(),
    }));
    assert_eq!(loaded.settings.scrollback_lines, 4242);
    assert_eq!(loaded.settings.default_input_mode, InputMode::Character);
    assert_eq!(loaded.settings.terminal_type, "ANSI");
    assert!(loaded.warning.is_none());
    let locked = settings::load(FileState::Unreadable { path: "p".into(), error: "e".into() });
    assert_eq!(locked.settings.scrollback_lines, 1000);
    assert!(locked.warning.is_none());
}

#[test]
fn a_save_goes_through_the_temporary_file() {
    let step = save();
    assert!(matches!(step, SaveStep::MakeDirectory));
    let step = step.next(Ok(()));
    assert!(matches!(step, SaveStep::WriteTemporary));
    let step = step.next(Ok(()));
    assert!(matches!(step, SaveStep::Replace));
    assert!(matches!(step.next(Ok(())), SaveStep::Saved));
    assert_eq!(temporary_suffix(), ".tmp");
    assert_eq!(quarantine_suffix(1_700_000_000), ".corrupt-1700000000");
}

#[test]
fn a_failed_move_removes_the_temporary_file() {
    let step = save().next(Ok(())).next(Ok(())).next(Err("busy".into()));
    assert!(matches!(&step, SaveStep::RemoveTemporary(e) if e == "busy"));
    let end = step.next(Err("gone".into()));
    assert!(matches!(&end, SaveStep::Failed(e) if e == "busy"));
    let early = save().next(Err("denied".into()));
    assert!(matches!(&early, SaveStep::Failed(e) if e == "denied"));
    let unwritten = save().next(Ok(())).next(Err("full".into()));
    assert!(matches!(&unwritten, SaveStep::Failed(e) if e == "full"));
}
