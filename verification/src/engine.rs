//! The rule engine: focus state, rule resolution, and the driver-write
//! gate.
//!
//! The engine owns the single authoritative notion of "what is focused and
//! is its cursor hidden". Focus-change and cursor-visibility notifications
//! arrive as calls on [`State`] (reached through the process-wide
//! [`Registry`]); each call updates the state and resolves the rule for the
//! new state. Resolution yields an [`Action`]: either a sensitivity to
//! apply directly, or a request to query the live cursor visibility first —
//! the query is performed lazily, only when a matching entry is gated on it
//! and the tri-state is still unknown.
//!
//! The platform layer carries an `Action` out: it performs the cursor query
//! if asked, funnels the chosen sensitivity through [`Driver`] (which
//! suppresses writes of the value already written), and does the device
//! write itself.

use vstd::prelude::*;

use crate::config::{lookup_spec, Config};

verus! {

/// A focused process as the engine tracks it: its executable path and the
/// tri-state cursor visibility. `cursor_hidden` is meaningful only relative
/// to this process; it starts unknown and stays unknown until a visibility
/// notification arrives while this process is focused.
#[derive(Debug)]
pub struct Process {
    pub path: Vec<u8>,
    pub cursor_hidden: Option<bool>,
}

impl Process {
    /// A freshly focused process: its cursor visibility is not yet known,
    /// because visibility notifications are independent events that may
    /// not have fired yet for it.
    pub fn new(path: Vec<u8>) -> (p: Process)
        ensures
            p.path == path,
            p.cursor_hidden is None,
    {
        Process { path, cursor_hidden: None }
    }

    /// The executable path of the process.
    pub fn exe(&self) -> (r: &Vec<u8>)
        ensures
            r == &self.path,
    {
        &self.path
    }
}

/// What an event resolves to: either a sensitivity to apply, or — when the
/// matching entry is gated on a hidden cursor and the tri-state is unknown
/// — a request to query the live cursor visibility and pick accordingly.
#[derive(Debug, Copy, Clone, PartialEq, Eq, Structural)]
pub enum Action {
    Apply { sensitivity: u64 },
    QueryCursor { if_hidden: u64, if_visible: u64 },
}

/// The rule resolved for a focus and cursor tri-state: the matching
/// entry's sensitivity if its cursor condition is settled, the default if
/// no entry matches or the condition fails, and a cursor query if the
/// condition cannot be settled without one.
pub open spec fn resolve_spec(c: Config, path: Seq<u8>, cursor: Option<bool>) -> Action {
    match lookup_spec(c, path) {
        None => Action::Apply { sensitivity: c.default_sensitivity },
        Some(e) => if !e.only_if_cursor_hidden {
            Action::Apply { sensitivity: e.sensitivity }
        } else {
            match cursor {
                Some(true) => Action::Apply { sensitivity: e.sensitivity },
                Some(false) => Action::Apply { sensitivity: c.default_sensitivity },
                None => Action::QueryCursor {
                    if_hidden: e.sensitivity,
                    if_visible: c.default_sensitivity,
                },
            }
        },
    }
}

impl Action {
    /// The sensitivity an action settles on once the cursor visibility is
    /// known (the query's answer is ignored when none was requested).
    pub open spec fn chosen_spec(self, cursor_hidden_now: bool) -> u64 {
        match self {
            Action::Apply { sensitivity } => sensitivity,
            Action::QueryCursor { if_hidden, if_visible } => if cursor_hidden_now {
                if_hidden
            } else {
                if_visible
            },
        }
    }

    /// Whether carrying the action out requires querying the live cursor
    /// visibility first.
    pub fn needs_query(&self) -> (r: bool)
        ensures
            r == (self matches Action::QueryCursor { .. }),
    {
        match self {
            Action::QueryCursor { .. } => true,
            Action::Apply { .. } => false,
        }
    }

    /// The sensitivity to apply, given the queried cursor visibility.
    pub fn chosen(&self, cursor_hidden_now: bool) -> (s: u64)
        ensures
            s == self.chosen_spec(cursor_hidden_now),
    {
        match self {
            Action::Apply { sensitivity } => *sensitivity,
            Action::QueryCursor { if_hidden, if_visible } => if cursor_hidden_now {
                *if_hidden
            } else {
                *if_visible
            },
        }
    }
}

/// Resolves the rule for a tracked process under a configuration.
pub fn resolve(config: &Config, process: &Process) -> (a: Action)
    ensures
        a == resolve_spec(*config, process.path@, process.cursor_hidden),
{
    match config.lookup(&process.path) {
        None => Action::Apply { sensitivity: config.default_sensitivity },
        Some(e) => {
            if !e.only_if_cursor_hidden {
                Action::Apply { sensitivity: e.sensitivity }
            } else {
                match process.cursor_hidden {
                    Some(true) => Action::Apply { sensitivity: e.sensitivity },
                    Some(false) => Action::Apply { sensitivity: config.default_sensitivity },
                    None => Action::QueryCursor {
                        if_hidden: e.sensitivity,
                        if_visible: config.default_sensitivity,
                    },
                }
            }
        },
    }
}

/// The focus state, abstracted to what resolution depends on.
pub struct FocusView {
    pub path: Seq<u8>,
    pub cursor_hidden: Option<bool>,
}

/// A notification delivered to the engine.
pub enum EventView {
    /// Input focus moved to the process with this executable path.
    Focus(Seq<u8>),
    /// The pointer cursor was hidden (`true`) or shown (`false`).
    Cursor(bool),
}

/// How one notification transforms the focus state: a focus change
/// replaces the process and resets the cursor tri-state to unknown; a
/// visibility change settles the tri-state for the focused process and is
/// discarded when nothing is focused.
pub open spec fn step_focus(f: Option<FocusView>, e: EventView) -> Option<FocusView> {
    match e {
        EventView::Focus(path) => Some(FocusView { path, cursor_hidden: None }),
        EventView::Cursor(hidden) => match f {
            None => None,
            Some(fv) => Some(FocusView { path: fv.path, cursor_hidden: Some(hidden) }),
        },
    }
}

/// The action a notification produces: the resolution of the state it
/// leads to, or nothing when a visibility change arrives with no focus.
pub open spec fn event_action(c: Config, f: Option<FocusView>, e: EventView) -> Option<Action> {
    match e {
        EventView::Focus(path) => Some(resolve_spec(c, path, None)),
        EventView::Cursor(hidden) => match f {
            None => None,
            Some(fv) => Some(resolve_spec(c, fv.path, Some(hidden))),
        },
    }
}

/// The focus state after a whole event log.
pub open spec fn replay(f: Option<FocusView>, log: Seq<EventView>) -> Option<FocusView>
    decreases log.len(),
{
    if log.len() == 0 {
        f
    } else {
        replay(step_focus(f, log[0]), log.drop_first())
    }
}

/// The action produced by an event is exactly the resolution of the state
/// the event leads to: it depends only on the resulting focus identity and
/// cursor tri-state (and the fixed configuration), not on how the engine
/// got there.
pub proof fn lemma_action_matches_state(c: Config, f: Option<FocusView>, e: EventView)
    ensures
        event_action(c, f, e) == (match step_focus(f, e) {
            None => None::<Action>,
            Some(fv) => Some(resolve_spec(c, fv.path, fv.cursor_hidden)),
        }),
{
}

/// Replaying any event log that ends in a given state — in particular a
/// shorter log than the one actually delivered — yields the same resolved
/// action for the next event.
pub proof fn lemma_replay_resolves_alike(
    c: Config,
    f0: Option<FocusView>,
    log1: Seq<EventView>,
    log2: Seq<EventView>,
    e: EventView,
)
    requires
        replay(f0, log1) == replay(f0, log2),
    ensures
        event_action(c, replay(f0, log1), e) == event_action(c, replay(f0, log2), e),
{
}

/// The engine state: the active configuration and the tracked focus.
pub struct State {
    pub config: Config,
    pub focus: Option<Process>,
}

/// The tracked focus, abstracted to what resolution depends on.
pub open spec fn focus_view(f: Option<Process>) -> Option<FocusView> {
    match f {
        None => None,
        Some(p) => Some(FocusView { path: p.path@, cursor_hidden: p.cursor_hidden }),
    }
}

impl State {
    /// A fresh engine: nothing focused yet.
    pub fn new(config: Config) -> (s: State)
        ensures
            s.config == config,
            s.focus is None,
    {
        State { config, focus: None }
    }

    /// Input focus moved to `path`: replace the tracked process, reset the
    /// cursor tri-state to unknown, and resolve the rule for the new
    /// focus.
    pub fn set_focus(&mut self, path: Vec<u8>) -> (a: Action)
        ensures
            final(self).config == old(self).config,
            focus_view(final(self).focus) == step_focus(
                focus_view(old(self).focus),
                EventView::Focus(path@),
            ),
            Some(a) == event_action(
                old(self).config,
                focus_view(old(self).focus),
                EventView::Focus(path@),
            ),
    {
        let process = Process::new(path);
        let a = resolve(&self.config, &process);
        self.focus = Some(process);
        a
    }

    /// The cursor was hidden or shown: if a process is focused, settle its
    /// cursor tri-state and resolve the rule again; with nothing focused
    /// the notification is discarded.
    pub fn set_cursor_hidden(&mut self, hidden: bool) -> (a: Option<Action>)
        ensures
            final(self).config == old(self).config,
            focus_view(final(self).focus) == step_focus(
                focus_view(old(self).focus),
                EventView::Cursor(hidden),
            ),
            a == event_action(
                old(self).config,
                focus_view(old(self).focus),
                EventView::Cursor(hidden),
            ),
    {
        match &mut self.focus {
            None => None,
            Some(p) => {
                p.cursor_hidden = Some(hidden);
                let a = resolve(&self.config, p);
                Some(a)
            },
        }
    }

    /// Swaps in a reloaded configuration. By design this does not resolve
    /// anything by itself: the new rules take effect on the next
    /// focus or visibility event.
    pub fn set_config(&mut self, config: Config)
        ensures
            final(self).config == config,
            final(self).focus == old(self).focus,
    {
        self.config = config;
    }
}

/// Suppression of redundant device writes: remembers the last sensitivity
/// and lets a value through only when it differs from the previous one.
/// Values are compared as bit patterns, which is the exact (epsilon-free)
/// comparison the suppression is meant to make: it only ever skips a write
/// of the very value already written.
pub struct Driver {
    pub last_sensitivity: Option<u64>,
}

impl Driver {
    /// A fresh gate: nothing written yet, so the first value always goes
    /// through.
    pub fn new() -> (d: Driver)
        ensures
            d.last_sensitivity is None,
    {
        Driver { last_sensitivity: None }
    }

    /// Records `sensitivity` as current and says whether the device write
    /// must actually happen: only when the value differs from the last one
    /// handed over.
    pub fn set_sens(&mut self, sensitivity: u64) -> (write: bool)
        ensures
            final(self).last_sensitivity == Some(sensitivity),
            write == (old(self).last_sensitivity != Some(sensitivity)),
    {
        let write = match self.last_sensitivity {
            Some(last) => last != sensitivity,
            None => true,
        };
        self.last_sensitivity = Some(sensitivity);
        write
    }
}

/// The process-wide singleton slot for the engine. At most one engine may
/// be installed at a time — exactly one set of notification subscriptions
/// may exist — so installing over a live engine fails and leaves the live
/// engine untouched.
pub struct Registry {
    pub state: Option<State>,
}

impl Registry {
    /// An empty slot.
    pub fn new() -> (r: Registry)
        ensures
            r.state is None,
    {
        Registry { state: None }
    }

    /// Whether an engine is currently installed.
    pub fn is_installed(&self) -> (r: bool)
        ensures
            r == (self.state matches Some(_)),
    {
        match &self.state {
            Some(_) => true,
            None => false,
        }
    }

    /// Installs a fresh engine with `config`. Fails — returning `false`
    /// and changing nothing — when an engine is already installed: the
    /// first engine remains active.
    pub fn install(&mut self, config: Config) -> (ok: bool)
        ensures
            match old(self).state {
                Some(_) => !ok && *final(self) == *old(self),
                None => ok && (final(self).state matches Some(st) && st.config == config
                    && st.focus is None),
            },
    {
        match &self.state {
            Some(_) => false,
            None => {
                self.state = Some(State::new(config));
                true
            },
        }
    }

    /// Removes and returns the installed engine, leaving the slot empty;
    /// the platform layer does this when the notification subscriptions
    /// are torn down.
    pub fn uninstall(&mut self) -> (s: Option<State>)
        ensures
            final(self).state is None,
            s == old(self).state,
    {
        self.state.take()
    }

    /// Swaps the installed engine's configuration; no-op when none is
    /// installed. Returns whether an engine was there.
    pub fn set_config(&mut self, config: Config) -> (ok: bool)
        ensures
            match old(self).state {
                None => !ok && *final(self) == *old(self),
                Some(st) => ok && (final(self).state matches Some(st2) && st2.config == config
                    && st2.focus == st.focus),
            },
    {
        match &mut self.state {
            None => false,
            Some(st) => {
                st.set_config(config);
                true
            },
        }
    }

    /// Routes a focus-change notification to the installed engine, if any.
    pub fn on_focus_changed(&mut self, path: Vec<u8>) -> (a: Option<Action>)
        ensures
            match old(self).state {
                None => a is None && *final(self) == *old(self),
                Some(st) => final(self).state matches Some(st2) && st2.config == st.config
                    && focus_view(st2.focus) == step_focus(
                    focus_view(st.focus),
                    EventView::Focus(path@),
                ) && a == event_action(st.config, focus_view(st.focus), EventView::Focus(path@)),
            },
    {
        match &mut self.state {
            None => None,
            Some(st) => Some(st.set_focus(path)),
        }
    }

    /// Routes a cursor-visibility notification to the installed engine, if
    /// any.
    pub fn on_cursor_visibility_changed(&mut self, hidden: bool) -> (a: Option<Action>)
        ensures
            match old(self).state {
                None => a is None && *final(self) == *old(self),
                Some(st) => final(self).state matches Some(st2) && st2.config == st.config
                    && focus_view(st2.focus) == step_focus(
                    focus_view(st.focus),
                    EventView::Cursor(hidden),
                ) && a == event_action(st.config, focus_view(st.focus), EventView::Cursor(hidden)),
            },
    {
        match &mut self.state {
            None => None,
            Some(st) => st.set_cursor_hidden(hidden),
        }
    }
}

} // verus!
