//! Plugin-side state: the queue of controls awaiting execution, the active
//! character, supervisor messages, and the persisted configuration shape.

use vstd::prelude::*;

use crate::bindings::KeyBind;
use crate::key_control::KeyControl;

verus! {

/// Minimal reactor-owned state: the combat flag and the controls queued for
/// execution, oldest first.
pub struct PluginState {
    pub in_combat: bool,
    pub pending_execs: Vec<KeyControl>,
}

impl PluginState {
    pub fn new() -> (r: Self)
        ensures
            !r.in_combat,
            r.pending_execs@.len() == 0,
    {
        PluginState { in_combat: false, pending_execs: Vec::new() }
    }

    /// Queue a control for execution.
    pub fn queue_exec(&mut self, kc: KeyControl)
        ensures
            final(self).pending_execs@ == old(self).pending_execs@.push(kc),
            final(self).in_combat == old(self).in_combat,
    {
        self.pending_execs.push(kc);
    }

    /// Take all queued controls, oldest first, leaving the queue empty.
    pub fn drain_pending(&mut self) -> (r: Vec<KeyControl>)
        ensures
            r@ == old(self).pending_execs@,
            final(self).pending_execs@.len() == 0,
            final(self).in_combat == old(self).in_combat,
    {
        let mut out: Vec<KeyControl> = Vec::new();
        let n = self.pending_execs.len();
        let mut i: usize = 0;
        while i < n
            invariant
                n == self.pending_execs@.len(),
                self.pending_execs@ == old(self).pending_execs@,
                self.in_combat == old(self).in_combat,
                0 <= i <= n,
                out@ == self.pending_execs@.take(i as int),
            decreases n - i,
        {
            out.push(self.pending_execs[i]);
            proof {
                assert(out@ =~= self.pending_execs@.take(i as int + 1));
            }
            i = i + 1;
        }
        proof {
            assert(self.pending_execs@.take(n as int) =~= self.pending_execs@);
        }
        self.pending_execs = Vec::new();
        out
    }

    /// Whether any control awaits execution.
    pub fn has_pending(&self) -> (r: bool)
        ensures
            r == (self.pending_execs@.len() > 0),
    {
        self.pending_execs.len() > 0
    }
}

/// A queued action: the numeric control identifier and whether it may run
/// while the character is in combat.
#[derive(Debug, Clone, Copy, PartialEq, Eq, Structural)]
pub struct QueuedAction {
    pub action: i32,
    pub allow_in_combat: bool,
}

/// The currently played character's name, if one is known.
pub struct ActiveChar {
    pub name: Option<String>,
}

impl ActiveChar {
    pub fn new() -> (r: Self)
        ensures
            r.name is None,
    {
        ActiveChar { name: None }
    }

    /// A copy of the active character's name.
    pub fn get(&self) -> (r: Option<String>)
        ensures
            r is Some <==> self.name is Some,
            r matches Some(n) ==> (self.name matches Some(m) && n@ == m@),
    {
        match &self.name {
            Some(n) => Some(n.clone()),
            None => None,
        }
    }

    /// Replace the active character's name.
    pub fn set(&mut self, v: Option<String>)
        ensures
            final(self).name == v,
    {
        self.name = v;
    }
}

/// Whether the supervised workers are running.
#[derive(Debug, Clone, Copy, PartialEq, Eq, Structural)]
pub enum RunState {
    Stopped,
    Running,
}

/// Commands the supervisor loop reacts to.
#[derive(Debug)]
pub enum SupervisorMsg {
    AppLaunched,
    AppTerminated,
    SetApiKey(Option<String>),
    SetBindingsFile(Option<String>),
    SetBindings(Vec<(KeyControl, KeyBind)>),
    QueueAction(QueuedAction),
}

/// Broadcast notes the deck-key actions react to.
#[derive(Debug, Clone, PartialEq, Eq)]
pub enum Note {
    TemplatesUpdated,
    ActiveCharacterChanged { name: String },
}

/// The persisted plugin configuration.
pub struct Config {
    pub api_key: Option<String>,
    /// Optional path to a user-exported XML binding file.
    pub bindings_file: Option<String>,
    /// Parsed bindings, cached from the file.
    pub bindings_cache: Option<Vec<(KeyControl, KeyBind)>>,
}

impl Config {
    pub fn new() -> (r: Self)
        ensures
            r.api_key is None,
            r.bindings_file is None,
            r.bindings_cache is None,
    {
        Config { api_key: None, bindings_file: None, bindings_cache: None }
    }
}

impl Default for Config {
    fn default() -> (r: Self)
        ensures
            r.api_key is None,
            r.bindings_file is None,
            r.bindings_cache is None,
    {
        Config::new()
    }
}

/// Why the plugin's run loop ended.
#[derive(Debug, Clone, Copy, PartialEq, Eq, Structural)]
pub enum PluginRunError {
    WebSocketError,
    RegistrationError,
}

/// A sink for human-readable log lines; the embedding program supplies the
/// implementation.
pub trait ActionLog {
    fn log(&self, message: &str);
}

} // verus!
