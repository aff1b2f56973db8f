//! SSH: who logs in and how, whether the host is to be trusted, and what the tasks of
//! a connection make of what they read and of the commands they get.

use super::{timeout_message, timeout_reason};
use crate::config::known_hosts::{verdict, HostKey, HostKeyModel, KnownHosts, Verdict, VerdictModel};
use crate::events::{event_id, AppEvent, AppEventModel, CommandModel, ConnectionCommand};
use crate::text::{opt_text, same_text, texts, trim, trimmed};
use vstd::prelude::*;
use vstd::string::*;
use vstd::utf8::encode_utf8;

verus! {

/// The login names that the environment offers, in order of preference.
pub struct LoginNames {
    /// `$USER`
    pub user: Option<String>,
    /// `$USERNAME`
    pub username: Option<String>,
}

/// What the environment offers.
#[verifier::ext_equal]
pub ghost struct LoginModel {
    pub user: Option<Seq<char>>,
    pub username: Option<Seq<char>>,
}

impl LoginNames {
    /// What it holds.
    pub open spec fn view(&self) -> LoginModel {
        LoginModel {
            user: opt_text(self.user),
            username: opt_text(self.username),
        }
    }
}

/// Whether the environment's name may be used to log in.
pub open spec fn usable(name: Option<Seq<char>>) -> bool {
    match name {
        Some(n) => n.len() > 0 && n != "root"@,
        None => false,
    }
}

/// The name to log in with: the configured one, white space aside; otherwise the
/// first name of the environment that is neither empty nor `root`; otherwise
/// `user`.
pub open spec fn login_name(configured: Option<Seq<char>>, env: LoginModel) -> Seq<char> {
    if configured is Some && trimmed(configured->0).len() > 0 {
        trimmed(configured->0)
    } else if usable(env.user) {
        env.user->0
    } else if usable(env.username) {
        env.username->0
    } else {
        "user"@
    }
}

fn usable_name(name: &Option<String>) -> (found: Option<String>)
    ensures
        match found {
            Some(n) => usable(opt_text(*name)) && opt_text(*name)
                == Some(n@),
            None => !usable(opt_text(*name)),
        },
{
    match name {
        Some(n) => if n.as_str().is_empty() || same_text(n, "root") {
            None
        } else {
            Some(n.clone())
        },
        None => None,
    }
}

/// Resolve the SSH login name. Prefer an explicit address-book username; otherwise
/// use `$USER` / `$USERNAME`, never `root`.
pub fn resolve_ssh_username(configured: Option<&str>, env: &LoginNames) -> (name: String)
    ensures
        name@ == login_name(
            match configured {
                Some(c) => Some(c@),
                None => None,
            },
            env@,
        ),
{
    match configured {
        Some(c) => {
            let explicit = trim(c);
            if !explicit.is_empty() {
                return explicit.to_owned();
            }
        },
        None => {},
    }
    match usable_name(&env.user) {
        Some(n) => n,
        None => match usable_name(&env.username) {
            Some(n) => n,
            None => "user".to_owned(),
        },
    }
}

/// The login name is never empty, and it is `root` only where the address book
/// says so.
pub proof fn root_is_never_assumed(configured: Option<Seq<char>>, env: LoginModel)
    ensures
        login_name(configured, env).len() > 0,
        login_name(configured, env) == "root"@ ==> configured is Some && trimmed(configured->0)
            == "root"@,
{
    reveal_strlit("root");
    reveal_strlit("user");
    assert("user"@[0] != "root"@[0]);
}

/// The private keys that are tried, in order.
pub open spec fn key_files() -> Seq<Seq<char>> {
    seq!["id_ed25519"@, "id_ecdsa"@, "id_rsa"@]
}

/// The names of the private keys that are tried, in order, under `~/.ssh`.
pub fn key_file_names() -> (names: Vec<String>)
    ensures
        texts(names@) == key_files(),
{
    let names = vec!["id_ed25519".to_owned(), "id_ecdsa".to_owned(), "id_rsa".to_owned()];
    assert(texts(names@) =~= key_files());
    names
}

// ---------------------------------------------------------------------------
// Logging in
// ---------------------------------------------------------------------------

/// What to do next to log in.
pub enum LoginStep {
    /// Connect to the host, within the time limit.
    Connect,
    /// Ask for access without a secret. Boards and MUDs commonly grant that, and
    /// handle the login themselves once the channel is open.
    AuthenticateNone,
    /// Load the private keys.
    LoadKeys,
    /// Try this one of so many keys.
    AuthenticateKey { index: usize, count: usize },
    /// Ask the user for a password.
    AskPassword,
    /// Try the password.
    AuthenticatePassword,
    OpenChannel,
    RequestPty,
    RequestShell,
    /// The session is there.
    Ready,
    /// There is none, for this reason.
    Failed(String),
}

/// A step without the text that it carries.
pub ghost enum LoginModelStep {
    Connect,
    AuthenticateNone,
    LoadKeys,
    AuthenticateKey { index: int, count: int },
    AskPassword,
    AuthenticatePassword,
    OpenChannel,
    RequestPty,
    RequestShell,
    Ready,
    Failed(Seq<char>),
}

impl LoginStep {
    /// What it holds.
    pub open spec fn view(&self) -> LoginModelStep {
        match *self {
            LoginStep::Connect => LoginModelStep::Connect,
            LoginStep::AuthenticateNone => LoginModelStep::AuthenticateNone,
            LoginStep::LoadKeys => LoginModelStep::LoadKeys,
            LoginStep::AuthenticateKey { index, count } => LoginModelStep::AuthenticateKey {
                index: index as int,
                count: count as int,
            },
            LoginStep::AskPassword => LoginModelStep::AskPassword,
            LoginStep::AuthenticatePassword => LoginModelStep::AuthenticatePassword,
            LoginStep::OpenChannel => LoginModelStep::OpenChannel,
            LoginStep::RequestPty => LoginModelStep::RequestPty,
            LoginStep::RequestShell => LoginModelStep::RequestShell,
            LoginStep::Ready => LoginModelStep::Ready,
            LoginStep::Failed(reason) => LoginModelStep::Failed(reason@),
        }
    }
}

/// How a step went.
pub enum LoginResult {
    /// It was done, or granted, or answered.
    Done,
    /// It was refused, or left unanswered.
    Refused,
    /// It failed for this reason.
    Failed(String),
    /// The time was up.
    TimedOut,
    /// The user gave up while it was waited for.
    Cancelled,
    /// So many keys were loaded.
    Keys(usize),
}

/// How a step went, without the text.
pub ghost enum LoginOutcome {
    Done,
    Refused,
    Failed(Seq<char>),
    TimedOut,
    Cancelled,
    Keys(int),
}

impl LoginResult {
    /// What it holds.
    pub open spec fn view(&self) -> LoginOutcome {
        match *self {
            LoginResult::Done => LoginOutcome::Done,
            LoginResult::Refused => LoginOutcome::Refused,
            LoginResult::Failed(reason) => LoginOutcome::Failed(reason@),
            LoginResult::TimedOut => LoginOutcome::TimedOut,
            LoginResult::Cancelled => LoginOutcome::Cancelled,
            LoginResult::Keys(count) => LoginOutcome::Keys(count as int),
        }
    }
}

/// Who is to be logged in, and where.
pub struct LoginTarget {
    pub host: String,
    pub port: u16,
    pub user: String,
}

/// What a login that was given up says.
pub open spec fn cancelled_reason() -> Seq<char> {
    "Connection cancelled"@
}

/// What a refused password says.
pub open spec fn refused_reason(user: Seq<char>) -> Seq<char> {
    "Authentication failed for user '"@ + user + "'"@
}

/// `step`, unless the user has given up meanwhile.
pub open spec fn unless_cancelled(cancelled: bool, step: LoginModelStep) -> LoginModelStep {
    if cancelled {
        LoginModelStep::Failed(cancelled_reason())
    } else {
        step
    }
}

/// Why a step failed, where it says no more than that it did not succeed.
pub open spec fn failure(result: LoginOutcome, otherwise: Seq<char>) -> LoginModelStep {
    match result {
        LoginOutcome::Failed(reason) => LoginModelStep::Failed(reason),
        _ => LoginModelStep::Failed(otherwise),
    }
}

/// The step after `step`: first no secret, then the keys, then the password, then
/// the channel. `cancelled` says whether the user has given up by then.
pub open spec fn login_after(
    step: LoginModelStep,
    result: LoginOutcome,
    cancelled: bool,
    target: LoginTarget,
) -> LoginModelStep {
    match step {
        LoginModelStep::Connect => match result {
            LoginOutcome::Done => unless_cancelled(cancelled, LoginModelStep::AuthenticateNone),
            LoginOutcome::TimedOut => LoginModelStep::Failed(
                timeout_reason("SSH connection"@, target.host@, target.port),
            ),
            _ => failure(result, cancelled_reason()),
        },
        LoginModelStep::AuthenticateNone => unless_cancelled(
            cancelled,
            if result is Done {
                LoginModelStep::OpenChannel
            } else {
                LoginModelStep::LoadKeys
            },
        ),
        LoginModelStep::LoadKeys => match result {
            LoginOutcome::Keys(count) => if count > 0 {
                LoginModelStep::AuthenticateKey { index: 0, count }
            } else {
                unless_cancelled(cancelled, LoginModelStep::AskPassword)
            },
            _ => unless_cancelled(cancelled, LoginModelStep::AskPassword),
        },
        LoginModelStep::AuthenticateKey { index, count } => if result is Done {
            unless_cancelled(cancelled, LoginModelStep::OpenChannel)
        } else if index + 1 < count {
            LoginModelStep::AuthenticateKey { index: index + 1, count }
        } else {
            unless_cancelled(cancelled, LoginModelStep::AskPassword)
        },
        LoginModelStep::AskPassword => if result is Done {
            LoginModelStep::AuthenticatePassword
        } else {
            LoginModelStep::Failed("Password prompt cancelled"@)
        },
        LoginModelStep::AuthenticatePassword => if result is Done {
            LoginModelStep::OpenChannel
        } else {
            failure(result, refused_reason(target.user@))
        },
        LoginModelStep::OpenChannel => if result is Done {
            LoginModelStep::RequestPty
        } else {
            failure(result, cancelled_reason())
        },
        LoginModelStep::RequestPty => if result is Done {
            LoginModelStep::RequestShell
        } else {
            failure(result, cancelled_reason())
        },
        LoginModelStep::RequestShell => if result is Done {
            LoginModelStep::Ready
        } else {
            failure(result, cancelled_reason())
        },
        LoginModelStep::Ready => LoginModelStep::Ready,
        LoginModelStep::Failed(reason) => LoginModelStep::Failed(reason),
    }
}

/// A login starts with the connection.
pub fn login() -> (step: LoginStep)
    ensures
        step@ == LoginModelStep::Connect,
{
    LoginStep::Connect
}

fn or_cancelled(cancelled: bool, step: LoginStep) -> (after: LoginStep)
    ensures
        after@ == unless_cancelled(cancelled, step@),
{
    if cancelled {
        LoginStep::Failed("Connection cancelled".to_owned())
    } else {
        step
    }
}

fn failed(result: LoginResult, otherwise: String) -> (after: LoginStep)
    ensures
        after@ == failure(result@, otherwise@),
{
    match result {
        LoginResult::Failed(reason) => LoginStep::Failed(reason),
        _ => LoginStep::Failed(otherwise),
    }
}

impl LoginResult {
    fn is_done(&self) -> (done: bool)
        ensures
            done == (self@ is Done),
    {
        match self {
            LoginResult::Done => true,
            _ => false,
        }
    }
}

impl LoginStep {
    /// The step after this one, given how it went and whether the user has given up
    /// by then.
    pub fn next(self, result: LoginResult, cancelled: bool, target: &LoginTarget) -> (after:
        LoginStep)
        ensures
            after@ == login_after(self@, result@, cancelled, *target),
    {
        match self {
            LoginStep::Connect => {
                match result {
                    LoginResult::Done => or_cancelled(cancelled, LoginStep::AuthenticateNone),
                    LoginResult::TimedOut => LoginStep::Failed(
                        timeout_message("SSH connection", &target.host, target.port),
                    ),
                    other => failed(other, "Connection cancelled".to_owned()),
                }
            },
            LoginStep::AuthenticateNone => {
                if result.is_done() {
                    or_cancelled(cancelled, LoginStep::OpenChannel)
                } else {
                    or_cancelled(cancelled, LoginStep::LoadKeys)
                }
            },
            LoginStep::LoadKeys => {
                match result {
                    LoginResult::Keys(count) => {
                        if count > 0 {
                            LoginStep::AuthenticateKey { index: 0, count }
                        } else {
                            or_cancelled(cancelled, LoginStep::AskPassword)
                        }
                    },
                    _ => or_cancelled(cancelled, LoginStep::AskPassword),
                }
            },
            LoginStep::AuthenticateKey { index, count } => {
                if result.is_done() {
                    or_cancelled(cancelled, LoginStep::OpenChannel)
                } else if index < count && index + 1 < count {
                    LoginStep::AuthenticateKey { index: index + 1, count }
                } else {
                    or_cancelled(cancelled, LoginStep::AskPassword)
                }
            },
            LoginStep::AskPassword => {
                if result.is_done() {
                    LoginStep::AuthenticatePassword
                } else {
                    LoginStep::Failed("Password prompt cancelled".to_owned())
                }
            },
            LoginStep::AuthenticatePassword => {
                if result.is_done() {
                    LoginStep::OpenChannel
                } else {
                    let mut refused = "Authentication failed for user '".to_owned();
                    refused.append(&target.user);
                    refused.append("'");
                    failed(result, refused)
                }
            },
            LoginStep::OpenChannel => {
                if result.is_done() {
                    LoginStep::RequestPty
                } else {
                    failed(result, "Connection cancelled".to_owned())
                }
            },
            LoginStep::RequestPty => {
                if result.is_done() {
                    LoginStep::RequestShell
                } else {
                    failed(result, "Connection cancelled".to_owned())
                }
            },
            LoginStep::RequestShell => {
                if result.is_done() {
                    LoginStep::Ready
                } else {
                    failed(result, "Connection cancelled".to_owned())
                }
            },
            LoginStep::Ready => LoginStep::Ready,
            LoginStep::Failed(reason) => LoginStep::Failed(reason),
        }
    }
}

/// Where a login stands after steps that went as `results` says, with nobody giving
/// up.
pub open spec fn login_run(results: Seq<LoginOutcome>, target: LoginTarget) -> LoginModelStep
    decreases results.len(),
{
    if results.len() == 0 {
        LoginModelStep::Connect
    } else {
        login_after(login_run(results.drop_last(), target), results.last(), false, target)
    }
}

/// The user is asked for a password only after access without a secret was refused,
/// and every key that was loaded.
pub proof fn passwords_come_last(results: Seq<LoginOutcome>, target: LoginTarget)
    ensures
        login_run(results, target) is AskPassword ==> results.len() >= 3 && results[0] is Done
            && !(results[1] is Done) && forall|i: int|
            3 <= i < results.len() ==> !(#[trigger] results[i] is Done),
        login_run(results, target) is AuthenticateKey ==> results.len() >= 3 && results[0] is Done
            && !(results[1] is Done) && forall|i: int|
            3 <= i < results.len() ==> !(#[trigger] results[i] is Done),
        login_run(results, target) is LoadKeys ==> results.len() == 2 && results[0] is Done && !(
        results[1] is Done),
        login_run(results, target) is AuthenticateNone ==> results.len() == 1 && results[0] is Done,
        login_run(results, target) is Connect ==> results.len() == 0,
    decreases results.len(),
{
    if results.len() > 0 {
        let before = results.drop_last();
        passwords_come_last(before, target);
        if login_run(results, target) is AskPassword || login_run(results, target)
            is AuthenticateKey {
            assert(before[0] == results[0]);
            assert(before[1] == results[1]);
            assert forall|i: int| 3 <= i < results.len() implies !(#[trigger] results[i]
                is Done) by {
                if i < before.len() {
                    assert(before[i] == results[i]);
                }
            }
        }
        if login_run(results, target) is LoadKeys {
            assert(before[0] == results[0]);
        }
    }
}

/// A host that grants access without a secret sees neither key nor password: the
/// channel is next.
pub proof fn open_hosts_need_no_secret(target: LoginTarget)
    ensures
        login_run(seq![LoginOutcome::Done, LoginOutcome::Done], target) is OpenChannel,
{
    let two = seq![LoginOutcome::Done, LoginOutcome::Done];
    let one = two.drop_last();
    assert(one =~= seq![LoginOutcome::Done]);
    assert(one.drop_last() =~= seq![]);
    reveal_with_fuel(login_run, 3);
}

/// Where a login stands that was at `step` when the user gave up, after steps that went
/// as `results` says.
pub open spec fn given_up_run(
    step: LoginModelStep,
    results: Seq<LoginOutcome>,
    target: LoginTarget,
) -> LoginModelStep
    decreases results.len(),
{
    if results.len() == 0 {
        step
    } else {
        login_after(
            given_up_run(step, results.drop_last(), target),
            results.last(),
            true,
            target,
        )
    }
}

/// How many more keys there are to try, given how the step at hand goes.
pub open spec fn keys_ahead(step: LoginModelStep, result: LoginOutcome) -> int {
    match step {
        LoginModelStep::LoadKeys => match result {
            LoginOutcome::Keys(count) => count,
            _ => 0,
        },
        LoginModelStep::AuthenticateKey { index, count } => count - index - 1,
        _ => 0,
    }
}

/// A login that the user gives up before a password is asked for only goes on to the
/// keys that are left to try, and then fails: no channel is opened, and nobody is asked
/// for a password.
pub proof fn cancelled_logins_stop(
    step: LoginModelStep,
    results: Seq<LoginOutcome>,
    target: LoginTarget,
)
    requires
        step is Connect || step is AuthenticateNone || step is LoadKeys || step is AuthenticateKey,
        results.len() > 0,
    ensures
        ({
            let after = given_up_run(step, results, target);
            &&& after is Failed || after is AuthenticateKey
            &&& results.len() > keys_ahead(step, results[0]) ==> after is Failed
        }),
{
    lemma_given_up(step, results, target);
}

/// Where such a login stands after each step.
proof fn lemma_given_up(step: LoginModelStep, results: Seq<LoginOutcome>, target: LoginTarget)
    requires
        step is Connect || step is AuthenticateNone || step is LoadKeys || step is AuthenticateKey,
        results.len() > 0,
    ensures
        match given_up_run(step, results, target) {
            LoginModelStep::Failed(_) => true,
            LoginModelStep::AuthenticateKey { index, count } => count - index == keys_ahead(
                step,
                results[0],
            ) - results.len() + 1 && index < count,
            _ => false,
        },
    decreases results.len(),
{
    let before = results.drop_last();
    if before.len() > 0 {
        lemma_given_up(step, before, target);
        assert(before[0] == results[0]);
    } else {
        assert(given_up_run(step, before, target) == step);
    }
}

// ---------------------------------------------------------------------------
// Host keys
// ---------------------------------------------------------------------------

/// What is done about a host key.
pub enum HostKeyStep {
    /// It is the stored one.
    Accept,
    /// It is not: tell the application, and refuse.
    Refuse(AppEvent),
    /// There is none stored: ask the user.
    Ask(AppEvent),
}

/// Decides about the key that a host shows. `file_path` is where the known hosts are
/// kept, if that can be told.
pub fn check_server_key(
    known: &KnownHosts,
    id: u64,
    key: &HostKey,
    file_path: Option<String>,
) -> (step: HostKeyStep)
    ensures
        match verdict(known@, key@) {
            VerdictModel::Trusted => step is Accept,
            VerdictModel::Mismatch(stored) => {
                &&& step is Refuse
                &&& event_id(step->Refuse_0) == id
                &&& step->Refuse_0@ == AppEventModel::HostKeyMismatch {
                    host: key@.host,
                    port: key@.port,
                    key_type: key@.key_type,
                    stored,
                    received: key@.fingerprint,
                    file_path: match opt_text(file_path) {
                        Some(path) => path,
                        None => "known_hosts.toml"@,
                    },
                }
            },
            VerdictModel::Unknown => {
                &&& step is Ask
                &&& event_id(step->Ask_0) == id
                &&& step->Ask_0@ == AppEventModel::HostKeyTrustNeeded {
                    host: key@.host,
                    port: key@.port,
                    key_type: key@.key_type,
                    fingerprint: key@.fingerprint,
                }
            },
        },
{
    assert(key@ == (HostKeyModel {
        host: key.host@,
        port: key.port,
        key_type: key.key_type@,
        fingerprint: key.fingerprint@,
    }));
    match known.verify(&key.host, key.port, &key.key_type, &key.fingerprint) {
        Verdict::Trusted => HostKeyStep::Accept,
        Verdict::Mismatch { stored } => {
            let file_path = match file_path {
                Some(path) => path,
                None => "known_hosts.toml".to_owned(),
            };
            HostKeyStep::Refuse(
                AppEvent::HostKeyMismatch {
                    id,
                    host: key.host.clone(),
                    port: key.port,
                    key_type: key.key_type.clone(),
                    stored_fingerprint: stored,
                    received_fingerprint: key.fingerprint.clone(),
                    file_path,
                },
            )
        },
        Verdict::Unknown => HostKeyStep::Ask(
            AppEvent::HostKeyTrustNeeded {
                id,
                host: key.host.clone(),
                port: key.port,
                key_type: key.key_type.clone(),
                fingerprint: key.fingerprint.clone(),
            },
        ),
    }
}

/// Takes the user's word on an unknown key; no word is a no. A trusted key is added,
/// and the known hosts are to be saved before the connection goes on.
pub fn trust_answered(known: &mut KnownHosts, key: HostKey, answer: Option<bool>) -> (trusted: bool)
    ensures
        trusted == (answer == Some(true)),
        final(known)@ == (if answer == Some(true) {
            old(known)@.push(key@)
        } else {
            old(known)@
        }),
{
    match answer {
        Some(true) => {
            known.add(key);
            true
        },
        _ => false,
    }
}

/// Once the user has trusted a key, the host is let in with it from then on, and any
/// other key of that type is refused.
pub proof fn trust_is_remembered(store: Seq<HostKeyModel>, key: HostKeyModel, other: HostKeyModel)
    requires
        verdict(store, key) is Unknown,
        other.host == key.host,
        other.port == key.port,
        other.key_type == key.key_type,
    ensures
        verdict(store.push(key), key) is Trusted,
        other.fingerprint != key.fingerprint ==> verdict(store.push(key), other)
            == VerdictModel::Mismatch(key.fingerprint),
    decreases store.len(),
{
    crate::config::known_hosts::trust_on_first_use(store, key);
    if store.len() == 0 {
        assert(store.push(key)[0] == key);
    } else {
        trust_is_remembered(store.skip(1), key, other);
        assert(store.push(key)[0] == store[0]);
        assert(store.push(key).skip(1) =~= store.skip(1).push(key));
    }
}

// ---------------------------------------------------------------------------
// The session
// ---------------------------------------------------------------------------

/// A message of the session's channel.
pub enum ChannelMessage {
    /// Output, of either kind.
    Data(Vec<u8>),
    /// The channel ended or closed, or is gone.
    End,
    Other,
}

/// What the reader does about a message: the application is told, or reading stops.
pub fn on_message(id: u64, message: ChannelMessage) -> (step: (Option<AppEvent>, bool))
    ensures
        match message {
            ChannelMessage::Data(data) => step.0 is Some && event_id(step.0->0) == id
                && step.0->0@ == AppEventModel::NetworkData(data@) && !step.1,
            ChannelMessage::End => step.0 is None && step.1,
            ChannelMessage::Other => step.0 is None && !step.1,
        },
{
    match message {
        ChannelMessage::Data(data) => (Some(AppEvent::NetworkData { id, data }), false),
        ChannelMessage::End => (None, true),
        ChannelMessage::Other => (None, false),
    }
}

/// What the writer does about a command.
#[derive(Debug)]
pub enum ChannelStep {
    /// Send these bytes, and stop if that fails.
    Send(Vec<u8>),
    /// Tell the host of the window size, columns first.
    Resize(u32, u32),
    /// Say that no more is coming, close the channel, and stop.
    Close,
}

/// What the writer does, without the buffer.
pub ghost enum ChannelModel {
    Send(Seq<u8>),
    Resize(u32, u32),
    Close,
}

impl ChannelStep {
    /// What it holds.
    pub open spec fn view(&self) -> ChannelModel {
        match *self {
            ChannelStep::Send(bytes) => ChannelModel::Send(bytes@),
            ChannelStep::Resize(cols, rows) => ChannelModel::Resize(cols, rows),
            ChannelStep::Close => ChannelModel::Close,
        }
    }
}

/// What the writer does about a command. No more commands are like a last one to
/// disconnect.
pub open spec fn channel_step(command: Option<CommandModel>) -> ChannelModel {
    match command {
        Some(CommandModel::SendText(text)) => ChannelModel::Send(encode_utf8(text)),
        Some(CommandModel::SendRaw(data)) => ChannelModel::Send(data),
        Some(CommandModel::Resize(cols, rows)) => ChannelModel::Resize(cols as u32, rows as u32),
        Some(CommandModel::Disconnect) => ChannelModel::Close,
        None => ChannelModel::Close,
    }
}

/// Handles a command; none means that there will be no more.
pub fn on_command(command: Option<ConnectionCommand>) -> (step: ChannelStep)
    ensures
        step@ == channel_step(
            match command {
                Some(c) => Some(c@),
                None => None,
            },
        ),
{
    match command {
        Some(ConnectionCommand::SendText(text)) => ChannelStep::Send(
            text.as_str().as_bytes_vec(),
        ),
        Some(ConnectionCommand::SendRaw(data)) => ChannelStep::Send(data),
        Some(ConnectionCommand::Resize(cols, rows)) => ChannelStep::Resize(
            cols as u32,
            rows as u32,
        ),
        Some(ConnectionCommand::Disconnect) | None => ChannelStep::Close,
    }
}

/// The event that a session is over, the first time that it is asked for. A second
/// one would wipe what the first one put on the status line.
pub fn disconnect_once(sent: &mut bool, id: u64, reason: Option<String>) -> (event: Option<
    AppEvent,
>)
    ensures
        *final(sent),
        match event {
            Some(e) => !*old(sent) && event_id(e) == id && e@ == AppEventModel::Disconnected(
                opt_text(reason),
            ),
            None => *old(sent),
        },
{
    if *sent {
        None
    } else {
        *sent = true;
        Some(AppEvent::Disconnected { id, reason })
    }
}

} // verus!
