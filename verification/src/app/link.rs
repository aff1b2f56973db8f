//! The connection, as far as the application keeps track of it.

use crate::events::{effect_models, CommandModel, ConnectionCommand, Effect, EffectModel};
use crate::network::telnet::{reads_bool, TelnetFlags};
use std::sync::Arc;
use vstd::prelude::*;

verus! {

/// The current connection, or the one that is being made.
pub struct Link {
    /// Tells its events from those of connections that were given up.
    pub id: u64,
    /// Whether there is a channel for commands to the connection.
    pub open: bool,
    /// Whether the connection has tasks to be stopped.
    pub tasks_running: bool,
    /// Shared with a telnet connection.
    pub telnet_flags: Option<Arc<TelnetFlags>>,
    /// Whether the connection waits for a password.
    pub password_pending: bool,
    /// Whether the connection waits for a word on its host key.
    pub host_key_pending: bool,
}

/// What is kept of a connection.
pub ghost struct LinkModel {
    pub id: u64,
    pub open: bool,
    pub tasks_running: bool,
    /// What is shared with a telnet connection.
    pub telnet: Option<Arc<TelnetFlags>>,
    pub password_pending: bool,
    pub host_key_pending: bool,
}

/// The id after `id`.
pub open spec fn bumped(id: u64) -> u64 {
    if id == u64::MAX {
        0
    } else {
        (id + 1) as u64
    }
}

/// No connection.
pub open spec fn no_link() -> LinkModel {
    LinkModel {
        id: 0,
        open: false,
        tasks_running: false,
        telnet: None,
        password_pending: false,
        host_key_pending: false,
    }
}

/// A connection that is cut.
pub open spec fn cut(l: LinkModel) -> LinkModel {
    LinkModel { open: false, tasks_running: false, ..l }
}

/// What it takes to cut a connection without a word to the peer.
pub open spec fn teardown_effects(l: LinkModel) -> Seq<EffectModel> {
    if l.open || l.tasks_running {
        seq![EffectModel::StopTasks]
    } else {
        seq![]
    }
}

/// What it takes to cancel a connection; the peer is told where there is one.
pub open spec fn cancel_effects(l: LinkModel) -> Seq<EffectModel> {
    if l.open {
        seq![EffectModel::Send(CommandModel::Disconnect), EffectModel::StopTasks]
    } else {
        teardown_effects(l)
    }
}

/// Whether a look at the connection can say `echo` of whether the server echoes what is
/// typed. Connections without telnet flags do not say.
pub open spec fn echo_read(l: LinkModel, echo: bool) -> bool {
    match l.telnet {
        Some(flags) => reads_bool(flags.server_echo, echo),
        None => !echo,
    }
}

impl Link {
    /// What it holds.
    pub open spec fn view(&self) -> LinkModel {
        LinkModel {
            id: self.id,
            open: self.open,
            tasks_running: self.tasks_running,
            telnet: self.telnet_flags,
            password_pending: self.password_pending,
            host_key_pending: self.host_key_pending,
        }
    }

    pub fn new() -> (link: Self)
        ensures
            link@ == no_link(),
    {
        Link {
            id: 0,
            open: false,
            tasks_running: false,
            telnet_flags: None,
            password_pending: false,
            host_key_pending: false,
        }
    }

    /// Cuts the connection without a word to the peer.
    pub fn teardown(&mut self) -> (effects: Vec<Effect>)
        ensures
            final(self)@ == cut(old(self)@),
            effect_models(effects@) == teardown_effects(old(self)@),
    {
        let stop = self.open || self.tasks_running;
        self.open = false;
        self.tasks_running = false;
        if stop {
            vec![Effect::StopTasks]
        } else {
            Vec::new()
        }
    }

    /// Cancels the connection. A graceful Disconnect goes first, so that the peer
    /// sees EOF when possible.
    pub fn cancel(&mut self) -> (effects: Vec<Effect>)
        ensures
            final(self)@ == cut(old(self)@),
            effect_models(effects@) == cancel_effects(old(self)@),
    {
        if self.open {
            self.open = false;
            self.tasks_running = false;
            return vec![Effect::Send(ConnectionCommand::Disconnect), Effect::StopTasks];
        }
        self.teardown()
    }

    /// Events that are still under way are stale from here on.
    pub fn bump(&mut self)
        ensures
            final(self)@ == (LinkModel { id: bumped(old(self)@.id), ..old(self)@ }),
    {
        self.id = self.id.wrapping_add(1);
    }

    /// Whether a telnet server echoes what is typed, as of now. Connections without
    /// telnet flags do not say.
    pub fn server_echo(&self) -> (echo: bool)
        ensures
            echo_read(self@, echo),
    {
        match &self.telnet_flags {
            Some(flags) => flags.echoes(),
            None => false,
        }
    }

    /// A command to the peer, where there is one.
    pub fn command(&self, command: ConnectionCommand) -> (effects: Vec<Effect>)
        ensures
            effect_models(effects@) == to_peer(self@, command@),
    {
        if self.open {
            vec![Effect::Send(command)]
        } else {
            Vec::new()
        }
    }

    /// Hands over the password, if it is waited for.
    pub fn answer_password(&mut self, password: String) -> (effects: Vec<Effect>)
        ensures
            final(self)@ == (LinkModel { password_pending: false, ..old(self)@ }),
            effect_models(effects@) == (if old(self)@.password_pending {
                seq![EffectModel::AnswerPassword(password@)]
            } else {
                seq![]
            }),
    {
        let pending = self.password_pending;
        self.password_pending = false;
        if pending {
            vec![Effect::AnswerPassword(password)]
        } else {
            Vec::new()
        }
    }

    /// Withholds the password, if it is waited for. The connection will see the
    /// question closed.
    pub fn drop_password(&mut self) -> (effects: Vec<Effect>)
        ensures
            final(self)@ == (LinkModel { password_pending: false, ..old(self)@ }),
            effect_models(effects@) == (if old(self)@.password_pending {
                seq![EffectModel::DropPassword]
            } else {
                seq![]
            }),
    {
        let pending = self.password_pending;
        self.password_pending = false;
        if pending {
            vec![Effect::DropPassword]
        } else {
            Vec::new()
        }
    }

    /// Tells whether the host key is trusted, if that is waited for.
    pub fn answer_host_key(&mut self, trusted: bool) -> (effects: Vec<Effect>)
        ensures
            final(self)@ == (LinkModel { host_key_pending: false, ..old(self)@ }),
            effect_models(effects@) == (if old(self)@.host_key_pending {
                seq![EffectModel::AnswerHostKey(trusted)]
            } else {
                seq![]
            }),
    {
        let pending = self.host_key_pending;
        self.host_key_pending = false;
        if pending {
            vec![Effect::AnswerHostKey(trusted)]
        } else {
            Vec::new()
        }
    }
}

/// A command to the peer, where there is one.
pub open spec fn to_peer(l: LinkModel, command: CommandModel) -> Seq<EffectModel> {
    if l.open {
        seq![EffectModel::Send(command)]
    } else {
        seq![]
    }
}

} // verus!
