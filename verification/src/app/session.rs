//! What the events of a connection do, and how effects that went out come back.

use super::keys::push_saved_bytes;
use super::link::{bumped, echo_read, LinkModel};
use super::model::{
    app_event, app_event_fits, app_event_is_safe, auto_switched, connection_lost, connection_made, data_received,
    mismatch_banner, own_event, popup_wf, saved_bytes, sent_replies, switches, with_settings,
    AppModel,
};
use super::{App, AppState};
use crate::config::capture::{CaptureFile, CaptureModel};
use crate::config::settings::Settings;
use crate::entry::InputMode;
use crate::events::{
    effect_models, event_id, AppEvent, AppEventModel, ConnectionCommand, Effect, EffectModel,
};
use crate::network::telnet::TelnetFlags;
use crate::popup::{EditSettingsModel, HostKeyTrustPopup, Popup, PopupModel};
use crate::terminal::ansi_query::{queries_of, AnsiQueryScanner};
use crate::terminal::responder::{
    any_output_can_be_drawn, byte_strings, drawn, draws_all, receive,
};
use crate::text::{opt_text, push_decimal};
use std::sync::Arc;
use vstd::prelude::*;
use vstd::string::*;

verus! {

/// Replies, each as a command to the connection.
fn reply_effects(replies: Vec<Vec<u8>>) -> (effects: Vec<Effect>)
    ensures
        effect_models(effects@) == sent_replies(byte_strings(replies@)),
{
    let ghost all = replies@;
    let mut replies = replies;
    let mut effects: Vec<Effect> = Vec::new();
    while replies.len() > 0
        invariant
            replies@.len() + effects@.len() == all.len(),
            forall|i: int|
                0 <= i < replies@.len() ==> #[trigger] replies@[i] == all[effects@.len() + i],
            forall|i: int|
                0 <= i < effects@.len() ==> #[trigger] effects@[i]@ == EffectModel::Send(
                    crate::events::CommandModel::SendRaw(all[i]@),
                ),
        decreases replies@.len(),
    {
        let ghost before = replies@;
        let first = replies.remove(0);
        assert(first == before[0]);
        effects.push(Effect::Send(ConnectionCommand::SendRaw(first)));
        assert forall|i: int| 0 <= i < replies@.len() implies #[trigger] replies@[i]
            == all[effects@.len() + i] by {
            assert(replies@[i] == before[i + 1]);
        }
    }
    assert(effect_models(effects@) =~= sent_replies(byte_strings(all)));
    effects
}

/// What is shown when a host key is not the stored one.
fn mismatch_message(
    host: &str,
    port: u16,
    key_type: &str,
    stored: &str,
    received: &str,
    file_path: &str,
) -> (message: String)
    ensures
        message@ == mismatch_banner(host@, port, key_type@, stored@, received@, file_path@),
{
    let mut message = "HOST KEY MISMATCH for ".to_owned();
    message.append(host);
    message.append(":");
    push_decimal(&mut message, port as u64);
    message.append(" (");
    message.append(key_type);
    message.append(")\n  stored:   ");
    message.append(stored);
    message.append("\n  received: ");
    message.append(received);
    message.append(
        "\nThis could be a man-in-the-middle attack, or the server's key\nwas rotated. To accept the new key, edit:\n  ",
    );
    message.append(file_path);
    message.append("\nand remove the [[hosts]] entry with key_type = \"");
    message.append(key_type);
    message.append("\".");
    message
}

impl App {
    /// If telnet negotiated server ECHO and the user hasn't Tab-toggled, switch to
    /// character mode (and update NAWS for the new chrome).
    pub fn maybe_auto_switch_input_mode(&mut self, server_echo: bool) -> (effects: Vec<Effect>)
        requires
            old(self).wf(),
        ensures
            final(self)@ == auto_switched(old(self)@, server_echo).app,
            effect_models(effects@) == auto_switched(old(self)@, server_echo).effects,
            final(self).wf(),
    {
        if self.input_mode_user_set || self.input_mode == InputMode::Character {
            return Vec::new();
        }
        // Honour an explicit per-entry line-mode override.
        match self.book.connected {
            Some(i) => {
                if i < self.book.entries.len() {
                    assert(self@.book.entries[i as int] == self.book.entries@[i as int]@);
                    if self.book.entries[i].default_input_mode == Some(InputMode::LineBuffered) {
                        return Vec::new();
                    }
                }
            },
            None => {},
        }
        if self.link.telnet_flags.is_none() || !server_echo {
            return Vec::new();
        }
        assert(switches(old(self)@, server_echo));
        self.input_mode = InputMode::Character;
        self.apply_viewport_to_connection()
    }

    /// Output of the peer. It is drawn even when the address book is on screen.
    fn on_data(&mut self, data: Vec<u8>, server_echo: bool) -> (effects: Vec<Effect>)
        requires
            old(self).wf(),
            draws_all(
                old(self)@.emulator,
                data@,
                queries_of(old(self)@.scanner, data@),
            ),
        ensures
            final(self)@ == data_received(old(self)@, data@, server_echo).app,
            effect_models(effects@) == data_received(old(self)@, data@, server_echo).effects,
            final(self).wf(),
    {
        let replies = receive(&mut self.emulator, &mut self.ansi_query_scanner, &data);
        let mut effects = if self.link.open {
            reply_effects(replies)
        } else {
            Vec::new()
        };
        let ghost answers = effects@;
        // Telnet WILL ECHO switches to character mode.
        let mut switched = self.maybe_auto_switch_input_mode(server_echo);
        let ghost told = switched@;
        effects.append(&mut switched);
        assert(effect_models(effects@) =~= effect_models(answers) + effect_models(told));
        if self.capture.is_some() {
            let ghost before = effects@;
            effects.push(Effect::WriteCapture(data));
            assert(effect_models(effects@) =~= effect_models(before) + seq![
                EffectModel::WriteCapture(data@),
            ]);
        }
        effects
    }

    /// The peer is there.
    fn on_connected(&mut self, telnet_flags: Option<Arc<TelnetFlags>>) -> (effects: Vec<Effect>)
        requires
            old(self).wf(),
        ensures
            final(self)@ == connection_made(old(self)@, telnet_flags).app,
            effect_models(effects@) == connection_made(old(self)@, telnet_flags).effects,
            final(self).wf(),
    {
        self.state = AppState::Connected;
        self.link.open = true;
        self.link.telnet_flags = telnet_flags;
        self.ansi_query_scanner = AnsiQueryScanner::new();
        self.book.connected = Some(self.book.selected);
        let mut status = "Connected to ".to_owned();
        status.append(self.book.selected_name());
        if !self.shown_chord_hint {
            status.append(" — Press Ctrl+] ? for commands.");
        }
        self.shown_chord_hint = true;
        self.status_message = status;
        vec![Effect::Accept]
    }

    /// The connection is gone. Where the capture went is what the user needs to know
    /// then, more than why.
    fn on_disconnected(&mut self, reason: Option<String>) -> (effects: Vec<Effect>)
        requires
            old(self).wf(),
        ensures
            final(self)@ == connection_lost(old(self)@, opt_text(reason)).app,
            effect_models(effects@) == connection_lost(old(self)@, opt_text(reason)).effects,
            final(self).wf(),
    {
        self.state = AppState::AddressBook;
        self.link.open = false;
        self.link.tasks_running = false;
        self.link.telnet_flags = None;
        self.book.connected = None;
        match self.capture.take() {
            Some(cap) => {
                let mut status = "Capture stopped (disconnected): ".to_owned();
                push_saved_bytes(&mut status, &cap);
                self.status_message = status;
                return vec![Effect::ForgetTasks, Effect::CloseCapture];
            },
            None => {},
        }
        self.status_message =
        match reason {
            Some(why) => {
                let mut status = "Disconnected: ".to_owned();
                status.append(&why);
                status
            },
            None => "Disconnected".to_owned(),
        };
        vec![Effect::ForgetTasks]
    }

    /// A password is needed.
    fn on_password_needed(&mut self) -> (effects: Vec<Effect>)
        requires
            old(self).wf(),
        ensures
            final(self)@ == own_event(old(self)@, AppEventModel::PasswordNeeded, false).app,
            effect_models(effects@) == seq![EffectModel::Accept],
            final(self).wf(),
    {
        proof {
            reveal(popup_wf);
        }
        self.link.password_pending = true;
        self.popup = Some(Popup::Password(String::new()));
        self.status_message = "SSH password required".to_owned();
        vec![Effect::Accept]
    }

    /// A host key is not known.
    fn on_host_key(&mut self, host: String, port: u16, key_type: String, fingerprint: String) -> (
        effects: Vec<Effect>)
        requires
            old(self).wf(),
        ensures
            final(self)@ == own_event(
                old(self)@,
                AppEventModel::HostKeyTrustNeeded {
                    host: host@,
                    port,
                    key_type: key_type@,
                    fingerprint: fingerprint@,
                },
                false,
            ).app,
            effect_models(effects@) == seq![EffectModel::Accept],
            final(self).wf(),
    {
        proof {
            reveal(popup_wf);
        }
        let mut status = "Verify host key for ".to_owned();
        status.append(&host);
        status.append(":");
        push_decimal(&mut status, port as u64);
        self.status_message = status;
        self.link.host_key_pending = true;
        self.popup = Some(
            Popup::HostKeyTrust(HostKeyTrustPopup { host, port, key_type, fingerprint }),
        );
        vec![Effect::Accept]
    }

    /// A host key is not the stored one.
    fn on_mismatch(&mut self, banner: String)
        requires
            old(self).wf(),
        ensures
            final(self)@ == (AppModel {
                state: AppState::AddressBook,
                status: banner@,
                link: LinkModel { id: bumped(old(self)@.link.id), ..old(self)@.link },
                ..old(self)@
            }),
            final(self).wf(),
    {
        self.state = AppState::AddressBook;
        self.status_message = banner;
        // The disconnect that follows is filtered out and does not clobber this
        // banner.
        self.link.bump();
    }

    /// An event of a connection, given whether the telnet server echoes.
    #[verifier::rlimit(40)]
    pub fn on_app_event(&mut self, event: AppEvent, server_echo: bool) -> (effects: Vec<Effect>)
        requires
            old(self).wf(),
            app_event_fits(old(self)@, event_id(event), event@),
        ensures
            final(self)@ == app_event(old(self)@, event_id(event), event@, server_echo).app,
            effect_models(effects@) == app_event(
                old(self)@,
                event_id(event),
                event@,
                server_echo,
            ).effects,
            final(self).wf(),
    {
        // Events of an abandoned connection are ignored.
        if event.id() != self.link.id {
            return Vec::new();
        }
        match event {
            AppEvent::Connected { telnet_flags, .. } => {
                return self.on_connected(telnet_flags);
            },
            AppEvent::NetworkData { data, .. } => {
                return self.on_data(data, server_echo);
            },
            AppEvent::Disconnected { reason, .. } => {
                return self.on_disconnected(reason);
            },
            AppEvent::PasswordNeeded { .. } => {
                return self.on_password_needed();
            },
            AppEvent::HostKeyTrustNeeded { host, port, key_type, fingerprint, .. } => {
                return self.on_host_key(host, port, key_type, fingerprint);
            },
            AppEvent::HostKeyMismatch {
                host,
                port,
                key_type,
                stored_fingerprint,
                received_fingerprint,
                file_path,
                ..
            } => {
                let banner = mismatch_message(
                    &host,
                    port,
                    &key_type,
                    &stored_fingerprint,
                    &received_fingerprint,
                    &file_path,
                );
                self.on_mismatch(banner);
                return Vec::new();
            },
        }
    }

    /// An event of a connection. Whether the telnet server echoes is read from the
    /// flags that are shared with the connection.
    pub fn handle_app_event(&mut self, event: AppEvent) -> (effects: Vec<Effect>)
        requires
            old(self).wf(),
            app_event_fits(old(self)@, event_id(event), event@),
        ensures
            exists|server_echo: bool|
                echo_read(old(self)@.link, server_echo) && {
                    let outcome = #[trigger] app_event(
                        old(self)@,
                        event_id(event),
                        event@,
                        server_echo,
                    );
                    final(self)@ == outcome.app && effect_models(effects@) == outcome.effects
                },
            final(self).wf(),
    {
        let server_echo = self.link.server_echo();
        let effects = self.on_app_event(event, server_echo);
        assert(effect_models(effects@) == app_event(
            old(self)@,
            event_id(event),
            event@,
            server_echo,
        ).effects);
        effects
    }

    /// Takes an event of a connection if it can be told beforehand that its output can be
    /// drawn; otherwise the event comes back, and nothing has changed.
    pub fn offer_app_event(&mut self, event: AppEvent) -> (taken: Result<Vec<Effect>, AppEvent>)
        requires
            old(self).wf(),
        ensures
            taken is Ok == app_event_is_safe(old(self)@, event_id(event), event@),
            match taken {
                Ok(effects) => exists|server_echo: bool|
                    echo_read(old(self)@.link, server_echo) && {
                        let outcome = #[trigger] app_event(
                            old(self)@,
                            event_id(event),
                            event@,
                            server_echo,
                        );
                        final(self)@ == outcome.app && effect_models(effects@) == outcome.effects
                    },
                Err(e) => e == event && final(self)@ == old(self)@,
            },
            final(self).wf(),
    {
        let draws = match &event {
            AppEvent::NetworkData { id, .. } => *id == self.link.id,
            _ => false,
        };
        if draws {
            if !self.emulator.can_process() {
                return Err(event);
            }
            proof {
                let data = event@->NetworkData_0;
                any_output_can_be_drawn(
                    self@.emulator,
                    data,
                    queries_of(self@.scanner, data),
                );
            }
        }
        Ok(self.handle_app_event(event))
    }

    /// The address book could not be saved.
    pub fn entries_not_saved(&mut self, error: &str)
        requires
            old(self).wf(),
        ensures
            final(self)@ == (AppModel { status: "Failed to save: "@ + error@, ..old(self)@ }),
            final(self).wf(),
    {
        let mut status = "Failed to save: ".to_owned();
        status.append(error);
        self.status_message = status;
    }

    /// The settings were saved: they hold from here on, and the popup closes.
    pub fn settings_saved(&mut self, settings: Settings)
        requires
            old(self).wf(),
        ensures
            final(self)@ == with_settings(old(self)@, settings@),
            final(self).wf(),
    {
        proof {
            reveal(popup_wf);
        }
        self.settings = settings;
        self.popup = None;
    }

    /// The settings could not be saved: the popup stays open and says why.
    pub fn settings_not_saved(&mut self, error: &str)
        requires
            old(self).wf(),
        ensures
            final(self)@ == (AppModel {
                popup: match old(self)@.popup {
                    Some(PopupModel::EditSettings(p)) => Some(
                        PopupModel::EditSettings(
                            EditSettingsModel {
                                error: Some("Could not save settings: "@ + error@),
                                ..p
                            },
                        ),
                    ),
                    other => other,
                },
                ..old(self)@
            }),
            final(self).wf(),
    {
        proof {
            reveal(popup_wf);
        }
        match self.popup.take() {
            Some(Popup::EditSettings(mut p)) => {
                let mut message = "Could not save settings: ".to_owned();
                message.append(error);
                p.error = Some(message);
                self.popup = Some(Popup::EditSettings(p));
            },
            other => {
                self.popup = other;
            },
        }
    }

    /// A capture file is open.
    pub fn capture_opened(&mut self, file: CaptureFile)
        requires
            old(self).wf(),
        ensures
            final(self)@ == (AppModel {
                capture: Some(file@),
                status: "Capture started → "@ + file@.path,
                ..old(self)@
            }),
            final(self).wf(),
    {
        let mut status = "Capture started → ".to_owned();
        status.append(file.path());
        self.status_message = status;
        self.capture = Some(file);
    }

    /// No capture file could be opened.
    pub fn capture_not_opened(&mut self, error: &str)
        requires
            old(self).wf(),
        ensures
            final(self)@ == (AppModel { status: "Capture failed: "@ + error@, ..old(self)@ }),
            final(self).wf(),
    {
        let mut status = "Capture failed: ".to_owned();
        status.append(error);
        self.status_message = status;
    }

    /// Data went into the capture file.
    pub fn capture_written(&mut self, data: &[u8])
        requires
            old(self).wf(),
            old(self)@.capture is Some ==> old(self)@.capture->0.bytes_written + data@.len()
                <= u64::MAX,
        ensures
            final(self)@ == (AppModel {
                capture: match old(self)@.capture {
                    Some(cap) => Some(
                        CaptureModel {
                            bytes_written: (cap.bytes_written + data@.len()) as u64,
                            ..cap
                        },
                    ),
                    None => None,
                },
                ..old(self)@
            }),
            final(self).wf(),
    {
        match self.capture.take() {
            Some(mut cap) => {
                cap.write(data);
                self.capture = Some(cap);
            },
            None => {},
        }
    }

    /// Data did not go into the capture file: capturing ends, and the user hears of
    /// it.
    pub fn capture_write_failed(&mut self, error: &str)
        requires
            old(self).wf(),
        ensures
            final(self)@ == (match old(self)@.capture {
                Some(cap) => AppModel {
                    capture: None,
                    status: "Capture failed: "@ + error@ + "; "@ + saved_bytes(cap),
                    ..old(self)@
                },
                None => old(self)@,
            }),
            final(self).wf(),
    {
        match self.capture.take() {
            Some(cap) => {
                let mut status = "Capture failed: ".to_owned();
                status.append(error);
                status.append("; ");
                push_saved_bytes(&mut status, &cap);
                self.status_message = status;
            },
            None => {},
        }
    }
}

} // verus!
