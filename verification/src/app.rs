//! The interactive loop's state and its dispatch decisions: what each key
//! press and each listener message does to the monitor's state. The loop
//! itself — rendering, the bounded input poll, the non-blocking channel
//! check — lives with the caller; this module holds every decision it takes.

use vstd::prelude::*;

use crate::cli::Args;
use crate::listener::ListenerMessage;
use crate::log::{LogEntry, LogView, StatefulLog};

verus! {

/// Whether the interactive loop keeps running. Starts at `Running`; once set
/// to `Exiting` it never reverts, and the loop returns to its caller.
#[derive(Clone, Copy, Debug, PartialEq, Eq, Structural)]
pub enum RunningState {
    Running,
    Exiting,
}

/// A key press, reduced to what the dispatch reads: a character, or one of
/// the special keys bound to a command. Key releases and repeats are the
/// caller's concern and never reach the dispatch.
#[derive(Clone, Copy, Debug)]
pub enum KeyInput {
    Char(char),
    Esc,
    Left,
    Down,
    Up,
    Other,
}

/// What one key press does: the quit keys end the loop, the navigation keys
/// step the log cursor, and every other key is a no-op.
pub open spec fn key_spec(log: LogView, running: RunningState, key: KeyInput) -> (LogView,
    RunningState) {
    match key {
        KeyInput::Char(c) => if c == 'q' {
            (log, RunningState::Exiting)
        } else if c == 'h' {
            (log.unselect_spec(), running)
        } else if c == 'j' {
            (log.next_spec(), running)
        } else if c == 'k' {
            (log.previous_spec(), running)
        } else if c == 'g' {
            (log.select_first_spec(), running)
        } else if c == 'G' {
            (log.select_last_spec(), running)
        } else {
            (log, running)
        },
        KeyInput::Esc => (log, RunningState::Exiting),
        KeyInput::Left => (log.unselect_spec(), running),
        KeyInput::Down => (log.next_spec(), running),
        KeyInput::Up => (log.previous_spec(), running),
        KeyInput::Other => (log, running),
    }
}

/// Law: the running state never reverts — once it is `Exiting`, no key press
/// brings it back to `Running`. (Of the message dispatch the same holds by
/// its contract: a packet keeps the state, an error only moves it toward
/// `Exiting`.)
pub proof fn lemma_exiting_is_permanent(log: LogView, key: KeyInput)
    ensures
        key_spec(log, RunningState::Exiting, key).1 == RunningState::Exiting,
{
}

/// Relies on chrono::Local::now for the wall-clock entry timestamp; the
/// value depends on the clock, so nothing is promised of it.
#[verifier::external_body]
fn now_timestamp() -> i64 {
    chrono::Local::now().timestamp_millis()
}

/// The monitor's interactive state: its configuration, the entry log with
/// its cursor, the loop's running state, and the fatal error, if one has
/// been reported.
pub struct App {
    pub args: Args,
    pub log: StatefulLog,
    pub running_state: RunningState,
    pub last_error: Option<String>,
}

impl App {
    /// A fresh monitor: an empty log, nothing selected, loop running.
    pub fn new(args: Args) -> (r: App)
        ensures
            r.args == args,
            r.log@.items.len() == 0,
            r.log@.selected is None,
            r.log@.last_selected is None,
            r.log@.offset == 0,
            r.log.wf(),
            r.running_state == RunningState::Running,
            r.last_error is None,
    {
        App {
            args,
            log: StatefulLog::default(),
            running_state: RunningState::Running,
            last_error: None,
        }
    }

    /// Whether the loop should take another tick.
    pub fn is_running(&self) -> (r: bool)
        ensures
            r == (self.running_state == RunningState::Running),
    {
        self.running_state == RunningState::Running
    }

    /// Dispatches one key press as `key_spec` says; nothing else changes.
    pub fn handle_key_event(&mut self, key: KeyInput)
        requires
            old(self).log.wf(),
        ensures
            final(self).log.wf(),
            (final(self).log@, final(self).running_state) == key_spec(
                old(self).log@,
                old(self).running_state,
                key,
            ),
            final(self).args == old(self).args,
            final(self).last_error == old(self).last_error,
    {
        match key {
            KeyInput::Char('q') | KeyInput::Esc => self.exit(),
            KeyInput::Char('h') | KeyInput::Left => self.log.unselect(),
            KeyInput::Char('j') | KeyInput::Down => self.log.next(),
            KeyInput::Char('k') | KeyInput::Up => self.log.previous(),
            KeyInput::Char('g') => self.go_top(),
            KeyInput::Char('G') => self.go_bottom(),
            _ => {},
        }
    }

    /// Dispatches one drained listener message. A received packet is
    /// appended to the log as a timestamped entry and moves no cursor. A
    /// listener-side decode failure is fatal to the loop — deliberately so,
    /// fail-fast being this monitor's error design — but it is surfaced as
    /// recorded state and an `Exiting` transition, never as a panic.
    pub fn handle_channel_event(&mut self, message: ListenerMessage)
        requires
            old(self).log.wf(),
        ensures
            final(self).log.wf(),
            final(self).args == old(self).args,
            message matches ListenerMessage::PacketReceived(p, a) ==> {
                &&& final(self).log@.items.len() == old(self).log@.items.len() + 1
                &&& final(self).log@.items.last().packet == p
                &&& final(self).log@.items.last().source == a
                &&& final(self).log@.items.drop_last() == old(self).log@.items
                &&& final(self).log@.selected == old(self).log@.selected
                &&& final(self).log@.last_selected == old(self).log@.last_selected
                &&& final(self).log@.offset == old(self).log@.offset
                &&& final(self).running_state == old(self).running_state
                &&& final(self).last_error == old(self).last_error
            },
            message matches ListenerMessage::Error(e) ==> {
                &&& final(self).log == old(self).log
                &&& final(self).running_state == RunningState::Exiting
                &&& final(self).last_error == Some(e)
            },
    {
        match message {
            ListenerMessage::PacketReceived(packet, source) => {
                let timestamp = now_timestamp();
                self.log.append(LogEntry { timestamp, packet, source });
                proof {
                    assert(self.log@.items.drop_last() =~= old(self).log@.items);
                }
            },
            ListenerMessage::Error(err) => {
                self.last_error = Some(err);
                self.running_state = RunningState::Exiting;
            },
        }
    }

    /// Jumps the selection to the first entry, if there is one.
    pub fn go_top(&mut self)
        requires
            old(self).log.wf(),
        ensures
            final(self).log.wf(),
            final(self).log@ == old(self).log@.select_first_spec(),
            final(self).args == old(self).args,
            final(self).running_state == old(self).running_state,
            final(self).last_error == old(self).last_error,
    {
        self.log.select_first();
    }

    /// Jumps the selection to the last entry, if there is one.
    pub fn go_bottom(&mut self)
        requires
            old(self).log.wf(),
        ensures
            final(self).log.wf(),
            final(self).log@ == old(self).log@.select_last_spec(),
            final(self).args == old(self).args,
            final(self).running_state == old(self).running_state,
            final(self).last_error == old(self).last_error,
    {
        self.log.select_last();
    }

    /// Ends the loop: the running state moves to `Exiting` and stays there.
    pub fn exit(&mut self)
        ensures
            final(self).running_state == RunningState::Exiting,
            final(self).log == old(self).log,
            final(self).args == old(self).args,
            final(self).last_error == old(self).last_error,
    {
        self.running_state = RunningState::Exiting;
    }
}

} // verus!
