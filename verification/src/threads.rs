//! Role identities and the thread registry.
//!
//! Each connection runs four cooperating roles. The registry tracks which
//! roles currently have a live task and enforces at most one live task per
//! role: a duplicate spawn attempt is reported as a conflict and ignored,
//! never an error and never a silent replacement.

use vstd::prelude::*;

verus! {

broadcast use vstd::string::group_string_axioms;

/// The deadman interval in milliseconds: every role re-evaluates its loop
/// condition at least this often, which bounds shutdown latency once the
/// liveness flag is cleared.
pub const DEADMAN_INTERVAL_MS: u64 = 500;

/// The closed set of cooperating roles of one connection.
#[derive(Debug, Clone, Copy, Hash, PartialEq, Eq, Structural)]
pub enum ConnectionThread {
    Ping,
    Output,
    Input,
    Main,
}

impl ConnectionThread {
    /// The display name of the role.
    pub open spec fn spec_name(&self) -> Seq<char> {
        match self {
            ConnectionThread::Ping => "PingThread"@,
            ConnectionThread::Output => "OutputThread"@,
            ConnectionThread::Input => "InputThread"@,
            ConnectionThread::Main => "MainThread"@,
        }
    }

    pub fn to_string(&self) -> (r: String)
        ensures
            r@ == self.spec_name(),
    {
        match self {
            ConnectionThread::Ping => "PingThread".to_string(),
            ConnectionThread::Output => "OutputThread".to_string(),
            ConnectionThread::Input => "InputThread".to_string(),
            ConnectionThread::Main => "MainThread".to_string(),
        }
    }
}

/// Stands for one spawned task in the registry. The runtime that actually
/// spawns tasks keys its join handles by the same id, so holding the entry
/// here is holding the task.
#[derive(Debug, Clone, Copy, PartialEq, Eq, Structural)]
pub struct TaskHandle {
    pub task_id: u64,
}

/// The role-to-task map of one connection: at most one live entry per role.
pub struct ThreadRegistry<H> {
    ping: Option<H>,
    output: Option<H>,
    input: Option<H>,
    main: Option<H>,
}

impl<H> ThreadRegistry<H> {
    /// The entry currently held for `role`.
    pub closed spec fn spec_get(&self, role: ConnectionThread) -> Option<H> {
        match role {
            ConnectionThread::Ping => self.ping,
            ConnectionThread::Output => self.output,
            ConnectionThread::Input => self.input,
            ConnectionThread::Main => self.main,
        }
    }

    /// The registry with `role` mapped to `h` and every other role unchanged.
    pub closed spec fn spec_insert(self, role: ConnectionThread, h: H) -> Self {
        match role {
            ConnectionThread::Ping => ThreadRegistry {
                ping: Some(h),
                output: self.output,
                input: self.input,
                main: self.main,
            },
            ConnectionThread::Output => ThreadRegistry {
                ping: self.ping,
                output: Some(h),
                input: self.input,
                main: self.main,
            },
            ConnectionThread::Input => ThreadRegistry {
                ping: self.ping,
                output: self.output,
                input: Some(h),
                main: self.main,
            },
            ConnectionThread::Main => ThreadRegistry {
                ping: self.ping,
                output: self.output,
                input: self.input,
                main: Some(h),
            },
        }
    }

    /// The registry with the entry for `role` removed.
    pub closed spec fn spec_remove(self, role: ConnectionThread) -> Self {
        match role {
            ConnectionThread::Ping => ThreadRegistry {
                ping: None,
                output: self.output,
                input: self.input,
                main: self.main,
            },
            ConnectionThread::Output => ThreadRegistry {
                ping: self.ping,
                output: None,
                input: self.input,
                main: self.main,
            },
            ConnectionThread::Input => ThreadRegistry {
                ping: self.ping,
                output: self.output,
                input: None,
                main: self.main,
            },
            ConnectionThread::Main => ThreadRegistry {
                ping: self.ping,
                output: self.output,
                input: self.input,
                main: None,
            },
        }
    }

    /// An empty registry: no role is running.
    pub fn new() -> (r: Self)
        ensures
            forall|role: ConnectionThread| r.spec_get(role) is None,
    {
        ThreadRegistry { ping: None, output: None, input: None, main: None }
    }

    /// The entry currently held for `role`.
    pub fn get(&self, role: ConnectionThread) -> (r: Option<&H>)
        ensures
            r is Some <==> self.spec_get(role) is Some,
            r matches Some(h) ==> self.spec_get(role) == Some(*h),
    {
        match role {
            ConnectionThread::Ping => self.ping.as_ref(),
            ConnectionThread::Output => self.output.as_ref(),
            ConnectionThread::Input => self.input.as_ref(),
            ConnectionThread::Main => self.main.as_ref(),
        }
    }

    /// Whether a live entry exists for `role`.
    pub fn contains(&self, role: ConnectionThread) -> (r: bool)
        ensures
            r == (self.spec_get(role) is Some),
    {
        match role {
            ConnectionThread::Ping => self.ping.is_some(),
            ConnectionThread::Output => self.output.is_some(),
            ConnectionThread::Input => self.input.is_some(),
            ConnectionThread::Main => self.main.is_some(),
        }
    }

    /// Store the entry for a vacant `role`.
    pub fn insert(&mut self, role: ConnectionThread, h: H)
        requires
            old(self).spec_get(role) is None,
        ensures
            *final(self) == old(self).spec_insert(role, h),
    {
        match role {
            ConnectionThread::Ping => {
                self.ping = Some(h);
            },
            ConnectionThread::Output => {
                self.output = Some(h);
            },
            ConnectionThread::Input => {
                self.input = Some(h);
            },
            ConnectionThread::Main => {
                self.main = Some(h);
            },
        }
    }

    /// Take the entry for `role` out, e.g. to join the task on teardown.
    pub fn remove(&mut self, role: ConnectionThread) -> (r: Option<H>)
        ensures
            r == old(self).spec_get(role),
            *final(self) == old(self).spec_remove(role),
    {
        match role {
            ConnectionThread::Ping => self.ping.take(),
            ConnectionThread::Output => self.output.take(),
            ConnectionThread::Input => self.input.take(),
            ConnectionThread::Main => self.main.take(),
        }
    }

    /// The spawn guard: when a live entry already exists for `role`, the
    /// factory is not invoked, the registry is left unchanged and the
    /// conflict is reported by returning false. Otherwise the factory runs
    /// and its task is stored under `role`.
    pub fn try_spawn<F: FnOnce() -> H>(&mut self, role: ConnectionThread, factory: F) -> (spawned:
        bool)
        requires
            call_requires(factory, ()),
        ensures
            spawned == (old(self).spec_get(role) is None),
            !spawned ==> *final(self) == *old(self),
            spawned ==> (exists|h: H|
                #[trigger] call_ensures(factory, (), h) && *final(self) == old(self).spec_insert(
                    role,
                    h,
                )),
    {
        if self.contains(role) {
            false
        } else {
            let h = factory();
            self.insert(role, h);
            true
        }
    }
}

/// The at-most-one-task law behind the spawn guard: after a spawn stored a
/// task for a role, the registry reports that role occupied — so, by the
/// contract of `try_spawn`, a second spawn attempt for the same role with no
/// intervening removal returns false, leaves the whole registry and hence
/// the originally stored task unchanged, and does not invoke its factory.
pub proof fn lemma_second_spawn_conflicts<H>(reg: ThreadRegistry<H>, role: ConnectionThread, h: H)
    ensures
        reg.spec_insert(role, h).spec_get(role) == Some(h),
        forall|other: ConnectionThread|
            other != role ==> #[trigger] reg.spec_insert(role, h).spec_get(other) == reg.spec_get(
                other,
            ),
{
}

/// Removing a role frees that role and no other: after it, a new spawn for
/// the role succeeds again while every other role's entry is untouched.
pub proof fn lemma_remove_frees_role<H>(reg: ThreadRegistry<H>, role: ConnectionThread)
    ensures
        reg.spec_remove(role).spec_get(role) is None,
        forall|other: ConnectionThread|
            other != role ==> #[trigger] reg.spec_remove(role).spec_get(other) == reg.spec_get(
                other,
            ),
{
}

/// Registering the three worker roles, each once, yields exactly one live
/// entry per worker role, and leaves the Main entry as it was.
pub proof fn lemma_worker_roles_registered<H>(reg: ThreadRegistry<H>, hp: H, ho: H, hi: H)
    ensures
        ({
            let r3 = reg.spec_insert(ConnectionThread::Ping, hp).spec_insert(
                ConnectionThread::Output,
                ho,
            ).spec_insert(ConnectionThread::Input, hi);
            &&& r3.spec_get(ConnectionThread::Ping) == Some(hp)
            &&& r3.spec_get(ConnectionThread::Output) == Some(ho)
            &&& r3.spec_get(ConnectionThread::Input) == Some(hi)
            &&& r3.spec_get(ConnectionThread::Main) == reg.spec_get(ConnectionThread::Main)
        }),
{
}

/// The role whose task periodically emits keepalive frames.
pub trait PingThread {
    fn spawn_ping_thread(&mut self, handle: TaskHandle) -> bool;
}

/// The role whose task drains the application-message channel, frames each
/// message and forwards it to the outbound byte channel.
pub trait OutputThread {
    fn spawn_output_thread(&mut self, handle: TaskHandle) -> bool;
}

/// The role whose task reads raw bytes off the stream, decodes frames and
/// dispatches decoded messages.
pub trait InputThread {
    fn spawn_input_thread(&mut self, handle: TaskHandle) -> bool;
}

} // verus!
