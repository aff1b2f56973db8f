//! Keys while a popup is open.

use super::model::{
    delete_key, deleted, form_key, form_saved, form_typed, host_key_trust_key, password_key,
    popup_key, popup_wf, settings_key, settings_typed, text_typed, AppModel,
};
use super::App;
use crate::events::{effect_models, Effect, EffectModel};
use crate::keys::{Key, KeyCode};
use crate::popup::{
    cycling_comes_round, form_wf, settings_form_wf, EditSettingsPopup, FormMode, FormPopup, Popup,
    PopupField, SettingsField,
};
use vstd::prelude::*;
use vstd::string::*;

verus! {

/// A key in a form that neither saves nor closes it.
fn type_into_form(form: &mut FormPopup, code: KeyCode)
    requires
        form_wf(old(form)@),
    ensures
        final(form)@ == form_typed(old(form)@, code),
        form_wf(final(form)@),
        final(form)@.mode == old(form)@.mode,
{
    proof {
        cycling_comes_round(form@.terminal_type, form@.terminal_types.len());
        cycling_comes_round(form@.input_mode, 3);
    }
    let ghost count = form.terminal_type_options.len();
    match code {
        KeyCode::Tab | KeyCode::Down => form.next_field(),
        KeyCode::BackTab | KeyCode::Up => form.prev_field(),
        KeyCode::Char(c) => {
            if c == ' ' && form.focused == PopupField::Protocol {
                form.toggle_protocol();
            } else if c == ' ' && form.focused == PopupField::TerminalType {
                form.cycle_terminal_type();
            } else if c == ' ' && form.focused == PopupField::InputMode {
                form.cycle_input_mode();
            } else {
                form.type_char(c);
            }
        },
        KeyCode::Backspace => form.backspace(),
        _ => {},
    }
}

/// A key in the settings popup that neither saves nor closes it.
fn type_into_settings(p: &mut EditSettingsPopup, key: Key)
    requires
        settings_form_wf(old(p)@),
    ensures
        final(p)@ == settings_typed(old(p)@, key),
        settings_form_wf(final(p)@),
{
    proof {
        cycling_comes_round(p@.terminal_type, p@.terminal_types.len());
    }
    let ghost count = p.terminal_type_options.len();
    match key.code {
        KeyCode::Tab => {
            if key.modifiers.shift {
                p.prev_field();
            } else {
                p.next_field();
            }
        },
        KeyCode::BackTab => p.prev_field(),
        KeyCode::Char(c) => match p.focused {
            SettingsField::Scrollback => p.scrollback_input.push(c),
            SettingsField::Mode => {
                if c == ' ' {
                    p.toggle_mode();
                }
            },
            SettingsField::TerminalType => {
                if c == ' ' {
                    p.cycle_terminal_type();
                }
            },
        },
        KeyCode::Backspace => {
            if p.focused == SettingsField::Scrollback {
                p.scrollback_input.pop();
            }
        },
        _ => {},
    }
}

/// A key that is typed into a text.
fn type_into_text(text: &mut String, code: KeyCode)
    ensures
        final(text)@ == text_typed(old(text)@, code),
{
    match code {
        KeyCode::Char(c) => text.push(c),
        KeyCode::Backspace => {
            text.pop();
        },
        _ => {},
    }
}

/// What a key says to the question whether a host key is trusted.
fn trust_answer(key: Key) -> (answer: Option<bool>)
    ensures
        answer == super::model::trust_answer(key),
{
    match key.code {
        KeyCode::Char('y') | KeyCode::Char('Y') => Some(true),
        KeyCode::Char('n') | KeyCode::Char('N') | KeyCode::Esc => Some(false),
        _ => None,
    }
}

impl App {
    fn handle_key_host_key_trust_popup(&mut self, key: Key) -> (effects: Vec<Effect>)
        requires
            old(self).wf(),
        ensures
            final(self)@ == host_key_trust_key(old(self)@, key).app,
            effect_models(effects@) == host_key_trust_key(old(self)@, key).effects,
            final(self).wf(),
    {
        proof {
            reveal(popup_wf);
        }
        match trust_answer(key) {
            Some(trusted) => {
                self.popup = None;
                return self.link.answer_host_key(trusted);
            },
            None => {
                return Vec::new();
            },
        }
    }

    /// A key in the password popup, which has been taken off the screen; it is put
    /// back unless the key ends it.
    fn handle_key_password_popup(&mut self, mut pw: String, key: Key) -> (effects: Vec<Effect>)
        requires
            old(self).wf(),
            old(self)@.popup is None,
        ensures
            final(self)@ == password_key(old(self)@, pw@, key).app,
            effect_models(effects@) == password_key(old(self)@, pw@, key).effects,
            final(self).wf(),
    {
        proof {
            reveal(popup_wf);
        }
        match key.code {
            KeyCode::Enter => {
                return self.link.answer_password(pw);
            },
            KeyCode::Esc => {
                return self.link.drop_password();
            },
            _ => {
                type_into_text(&mut pw, key.code);
                self.popup = Some(Popup::Password(pw));
                return Vec::new();
            },
        }
    }

    /// Removes the selected entry, and its session if it has one.
    fn delete_selected(&mut self) -> (effects: Vec<Effect>)
        requires
            old(self).wf(),
            old(self)@.popup is None,
            old(self)@.book.entries.len() > 0,
        ensures
            final(self)@ == deleted(old(self)@).app,
            effect_models(effects@) == deleted(old(self)@).effects,
            final(self).wf(),
    {
        proof {
            reveal(popup_wf);
        }
        let ends = self.book.on_session();
        let gone = self.book.remove_selected();
        let mut status = "Deleted '".to_owned();
        status.append(&gone.name);
        status.append("'");
        self.status_message = status;
        if !ends {
            return vec![Effect::SaveEntries];
        }
        let mut effects = self.link.teardown();
        let ghost before = effects@;
        self.link.telnet_flags = None;
        // Any event still in flight is stale from here on.
        self.link.bump();
        effects.push(Effect::SaveEntries);
        assert(effect_models(effects@) =~= effect_models(before).push(EffectModel::SaveEntries));
        effects
    }

    /// A key in the question whether to delete, which has been taken off the screen.
    fn handle_key_delete_popup(&mut self, key: Key) -> (effects: Vec<Effect>)
        requires
            old(self).wf(),
            old(self)@.popup is None,
        ensures
            final(self)@ == delete_key(old(self)@, key).app,
            effect_models(effects@) == delete_key(old(self)@, key).effects,
            final(self).wf(),
    {
        if (key.code == KeyCode::Char('y') || key.code == KeyCode::Char('Y'))
            && self.book.entries.len() > 0 {
            return self.delete_selected();
        }
        Vec::new()
    }

    /// Saves the form's entry, if it describes one; otherwise the form goes back on
    /// the screen.
    fn save_form(&mut self, form: FormPopup) -> (effects: Vec<Effect>)
        requires
            old(self).wf(),
            old(self)@.popup is None,
            form_wf(form@),
            form@.mode == FormMode::Edit ==> old(self)@.book.selected
                < old(self)@.book.entries.len(),
        ensures
            final(self)@ == form_saved(old(self)@, form@).app,
            effect_models(effects@) == form_saved(old(self)@, form@).effects,
            final(self).wf(),
    {
        proof {
            reveal(popup_wf);
        }
        let entry = match form.to_entry() {
            Some(entry) => entry,
            None => {
                self.status_message =
                "Invalid entry (name, host required; port must be a number)".to_owned();
                self.popup = Some(Popup::Form(form));
                return Vec::new();
            },
        };
        match form.mode {
            FormMode::Add => {
                let mut status = "Added '".to_owned();
                status.append(&entry.name);
                status.append("'");
                self.status_message = status;
                self.book.push(entry);
                return vec![Effect::SaveEntries];
            },
            FormMode::Edit => {
                let mut status = "Updated '".to_owned();
                status.append(&entry.name);
                status.append("'");
                self.status_message = status;
                self.book.replace_selected(entry);
                return vec![Effect::SaveEntries];
            },
        }
    }

    /// A key in a form, which has been taken off the screen; it is put back unless
    /// the key ends it.
    fn handle_key_form_popup(&mut self, mut form: FormPopup, key: Key) -> (effects: Vec<Effect>)
        requires
            old(self).wf(),
            old(self)@.popup is None,
            form_wf(form@),
            form@.mode == FormMode::Edit ==> old(self)@.book.selected
                < old(self)@.book.entries.len(),
        ensures
            final(self)@ == form_key(old(self)@, form@, key).app,
            effect_models(effects@) == form_key(old(self)@, form@, key).effects,
            final(self).wf(),
    {
        proof {
            reveal(popup_wf);
        }
        match key.code {
            KeyCode::Esc => {
                return Vec::new();
            },
            KeyCode::Enter => {
                return self.save_form(form);
            },
            _ => {
                type_into_form(&mut form, key.code);
                self.popup = Some(Popup::Form(form));
                return Vec::new();
            },
        }
    }

    /// A key in the settings popup, which has been taken off the screen; it is put
    /// back unless the key ends it.
    fn handle_key_edit_settings_popup(&mut self, mut p: EditSettingsPopup, key: Key) -> (effects:
        Vec<Effect>)
        requires
            old(self).wf(),
            old(self)@.popup is None,
            settings_form_wf(p@),
        ensures
            final(self)@ == settings_key(old(self)@, p@, key).app,
            effect_models(effects@) == settings_key(old(self)@, p@, key).effects,
            final(self).wf(),
    {
        proof {
            reveal(popup_wf);
        }
        match key.code {
            KeyCode::Esc => {
                return Vec::new();
            },
            KeyCode::Enter => {
                let settings = p.validate();
                self.popup = Some(Popup::EditSettings(p));
                match settings {
                    Some(s) => {
                        return vec![Effect::SaveSettings(s)];
                    },
                    None => {
                        return Vec::new();
                    },
                }
            },
            _ => {
                type_into_settings(&mut p, key);
                self.popup = Some(Popup::EditSettings(p));
                return Vec::new();
            },
        }
    }

    pub fn handle_key_popup(&mut self, key: Key) -> (effects: Vec<Effect>)
        requires
            old(self).wf(),
        ensures
            final(self)@ == popup_key(old(self)@, key).app,
            effect_models(effects@) == popup_key(old(self)@, key).effects,
            final(self).wf(),
    {
        proof {
            reveal(popup_wf);
        }
        let ghost closed = AppModel { popup: None, ..self@ };
        match self.popup.take() {
            None => {
                return Vec::new();
            },
            Some(Popup::Form(form)) => {
                assert(self@ == closed);
                return self.handle_key_form_popup(form, key);
            },
            Some(Popup::EditSettings(p)) => {
                assert(self@ == closed);
                return self.handle_key_edit_settings_popup(p, key);
            },
            Some(Popup::DeleteConfirm) => {
                assert(self@ == closed);
                return self.handle_key_delete_popup(key);
            },
            Some(Popup::Password(pw)) => {
                assert(self@ == closed);
                return self.handle_key_password_popup(pw, key);
            },
            Some(Popup::HostKeyTrust(p)) => {
                self.popup = Some(Popup::HostKeyTrust(p));
                assert(self@ == old(self)@);
                return self.handle_key_host_key_trust_popup(key);
            },
            Some(Popup::ChordHelp) => {
                assert(self@ == closed);
                return Vec::new();
            },
        }
    }
}

} // verus!
