//! The supervisor of the secure-shell tunnel.
//!
//! The tunnel is an `ssh` process that forwards the client port to the server
//! port and launches the server on the remote host. A monitoring task keeps
//! it alive: it spawns the process, polls it, restarts it when it exits and
//! kills it on shutdown. The task itself only performs what it is told and
//! reports what it saw; every decision is taken here, by a state machine
//! that takes an event and answers with the next action.

use vstd::prelude::*;
use vstd::string::StringExecFns;

use crate::error::ErrorKind;
use crate::utils::decimal::{decimal, to_decimal};

verus! {

/// How many failed exits in a row are answered with a restart.
pub const MAX_RETRIES: u32 = 5;

/// Seconds between the launch of the process and its first poll.
pub const GRACE_SECS: u64 = 2;

/// Seconds between two polls of a process that is alive.
pub const POLL_SECS: u64 = 1;

/// Where the supervisor stands.
#[derive(Clone, Copy, Debug, PartialEq, Eq, Structural)]
pub enum TunnelState {
    /// No monitoring task has been launched.
    Idle,
    /// A launch of the tunnel process is owed or under way.
    Starting,
    /// The tunnel process was launched and is being polled.
    Running,
    /// Shutdown was seen with the process alive; its kill is owed.
    Stopping,
    /// The monitoring task has ended.
    Stopped,
}

/// What the monitoring task has to do next.
#[derive(Clone, Copy, Debug, PartialEq, Eq, Structural)]
pub enum TunnelAction {
    /// Launch the tunnel process, then report `Spawned` or `SpawnFailed`.
    Spawn,
    /// Wait for so many seconds, poll the process, then report what the poll
    /// saw.
    Poll { delay_secs: u64 },
    /// Kill the process, then report `Killed`.
    Kill,
}

/// What the monitoring task reports.
#[derive(Clone, Copy, Debug, PartialEq, Eq, Structural)]
pub enum TunnelEvent {
    /// The process was launched.
    Spawned,
    /// The process could not be launched.
    SpawnFailed,
    /// The poll found that the process had exited with success.
    ExitedSuccess,
    /// The poll found that the process had exited with failure.
    ExitedFailure,
    /// The poll found the process alive.
    Alive,
    /// The poll itself failed.
    PollFailed,
    /// The kill was carried out.
    Killed,
}

/// Why the monitoring task ended.
#[derive(Clone, Copy, Debug, PartialEq, Eq, Structural)]
pub enum TunnelExit {
    /// Shutdown was requested.
    Shutdown,
    /// The process could not be launched.
    SpawnFailure,
    /// The process failed more often in a row than `MAX_RETRIES`.
    RetryExhausted,
    /// The process could not be polled.
    PollFailure,
}

impl TunnelExit {
    /// The error kind of this ending.
    pub open spec fn spec_error(self) -> Option<ErrorKind> {
        match self {
            TunnelExit::SpawnFailure => Some(ErrorKind::TunnelSpawnFailure),
            TunnelExit::RetryExhausted => Some(ErrorKind::TunnelRetryExhausted),
            TunnelExit::Shutdown => None,
            TunnelExit::PollFailure => None,
        }
    }

    /// The error kind of this ending. A shutdown is no error, and a failed
    /// poll has no kind of its own.
    #[verifier::when_used_as_spec(spec_error)]
    pub fn error(self) -> (e: Option<ErrorKind>)
        ensures
            e == self.spec_error(),
    {
        match self {
            TunnelExit::SpawnFailure => Some(ErrorKind::TunnelSpawnFailure),
            TunnelExit::RetryExhausted => Some(ErrorKind::TunnelRetryExhausted),
            TunnelExit::Shutdown => None,
            TunnelExit::PollFailure => None,
        }
    }
}

/// The state machine of the supervisor.
#[derive(Clone, Copy, Debug, PartialEq, Eq, Structural)]
pub struct Monitor {
    /// The flag that the owner clears to request shutdown.
    pub keep_running: bool,
    /// Whether a monitoring task has been launched.
    pub started: bool,
    /// The action that the monitoring task owes, if it owes one.
    pub pending: Option<TunnelAction>,
    /// The number of failed exits since the process was last seen alive.
    pub retries: u32,
    /// Why the monitoring task ended, once it has.
    pub exit: Option<TunnelExit>,
}

impl Monitor {
    /// The machine before any task is launched.
    pub open spec fn idle() -> Monitor {
        Monitor { keep_running: true, started: false, pending: None, retries: 0, exit: None }
    }

    /// What holds of every machine that the supervisor can be in.
    pub open spec fn wf(self) -> bool {
        &&& self.retries <= MAX_RETRIES + 1
        &&& self.pending is Some ==> self.retries <= MAX_RETRIES
        &&& !self.started ==> self.pending is None && self.exit is None && self.retries == 0
        &&& self.started ==> (self.pending is None <==> self.exit is Some)
    }

    pub open spec fn state(self) -> TunnelState {
        match self.pending {
            Some(TunnelAction::Spawn) => TunnelState::Starting,
            Some(TunnelAction::Poll { .. }) => TunnelState::Running,
            Some(TunnelAction::Kill) => TunnelState::Stopping,
            None => if self.started {
                TunnelState::Stopped
            } else {
                TunnelState::Idle
            },
        }
    }

    /// The machine with the monitoring task ended.
    pub open spec fn ended(self, exit: TunnelExit) -> Monitor {
        Monitor { pending: None, exit: Some(exit), ..self }
    }

    /// The machine with a new action owed.
    pub open spec fn owing(self, action: TunnelAction) -> Monitor {
        Monitor { pending: Some(action), ..self }
    }

    /// The machine before each launch: the flag decides between a launch and
    /// the end of the task.
    pub open spec fn respawn(self) -> Monitor {
        if self.keep_running {
            self.owing(TunnelAction::Spawn)
        } else {
            self.ended(TunnelExit::Shutdown)
        }
    }

    /// Launching the monitoring task; nothing happens if one was launched
    /// before.
    pub open spec fn start(self) -> Monitor {
        if self.started {
            self
        } else {
            Monitor { started: true, ..self }.respawn()
        }
    }

    /// Requesting shutdown.
    pub open spec fn shutdown(self) -> Monitor {
        Monitor { keep_running: false, ..self }
    }

    /// Whether `event` answers the action that is owed.
    pub open spec fn accepts(self, event: TunnelEvent) -> bool {
        match self.pending {
            Some(TunnelAction::Spawn) => event is Spawned || event is SpawnFailed,
            Some(TunnelAction::Poll { .. }) => event is ExitedSuccess || event is ExitedFailure
                || event is Alive || event is PollFailed,
            Some(TunnelAction::Kill) => event is Killed,
            None => false,
        }
    }

    /// The machine after `event`. An event that does not answer the owed
    /// action changes nothing.
    pub open spec fn step(self, event: TunnelEvent) -> Monitor {
        if !self.accepts(event) {
            self
        } else {
            match event {
                TunnelEvent::Spawned => self.owing(TunnelAction::Poll { delay_secs: GRACE_SECS }),
                TunnelEvent::SpawnFailed => self.ended(TunnelExit::SpawnFailure),
                TunnelEvent::ExitedSuccess => self.respawn(),
                TunnelEvent::ExitedFailure => {
                    let counted = Monitor { retries: (self.retries + 1) as u32, ..self };
                    if counted.retries > MAX_RETRIES {
                        counted.ended(TunnelExit::RetryExhausted)
                    } else {
                        counted.respawn()
                    }
                },
                TunnelEvent::Alive => {
                    let reset = Monitor { retries: 0, ..self };
                    if self.keep_running {
                        reset.owing(TunnelAction::Poll { delay_secs: POLL_SECS })
                    } else {
                        reset.owing(TunnelAction::Kill)
                    }
                },
                TunnelEvent::PollFailed => self.ended(TunnelExit::PollFailure),
                TunnelEvent::Killed => self.ended(TunnelExit::Shutdown),
            }
        }
    }

    /// The action that the machine issues in answer to `event`.
    pub open spec fn answer(self, event: TunnelEvent) -> Option<TunnelAction> {
        if self.accepts(event) {
            self.step(event).pending
        } else {
            None
        }
    }

    /// The machine after a sequence of events.
    pub open spec fn run(self, events: Seq<TunnelEvent>) -> Monitor
        decreases events.len(),
    {
        if events.len() == 0 {
            self
        } else {
            self.step(events[0]).run(events.skip(1))
        }
    }

    /// The number of launches that the machine orders along a sequence of
    /// events.
    pub open spec fn spawns(self, events: Seq<TunnelEvent>) -> nat
        decreases events.len(),
    {
        if events.len() == 0 {
            0
        } else {
            let ordered: nat = if self.answer(events[0]) == Some(TunnelAction::Spawn) {
                1
            } else {
                0
            };
            ordered + self.step(events[0]).spawns(events.skip(1))
        }
    }

    fn respawned(self) -> (next: Monitor)
        ensures
            next == self.respawn(),
    {
        if self.keep_running {
            Monitor { pending: Some(TunnelAction::Spawn), ..self }
        } else {
            Monitor { pending: None, exit: Some(TunnelExit::Shutdown), ..self }
        }
    }

    fn advanced(self, event: TunnelEvent) -> (out: (Monitor, Option<TunnelAction>))
        requires
            self.wf(),
        ensures
            out.0 == self.step(event),
            out.1 == self.answer(event),
            out.0.wf(),
    {
        let next = match (self.pending, event) {
            (Some(TunnelAction::Spawn), TunnelEvent::Spawned) => Monitor {
                pending: Some(TunnelAction::Poll { delay_secs: GRACE_SECS }),
                ..self
            },
            (Some(TunnelAction::Spawn), TunnelEvent::SpawnFailed) => Monitor {
                pending: None,
                exit: Some(TunnelExit::SpawnFailure),
                ..self
            },
            (Some(TunnelAction::Poll { .. }), TunnelEvent::ExitedSuccess) => self.respawned(),
            (Some(TunnelAction::Poll { .. }), TunnelEvent::ExitedFailure) => {
                let counted = Monitor { retries: self.retries + 1, ..self };
                if counted.retries > MAX_RETRIES {
                    Monitor { pending: None, exit: Some(TunnelExit::RetryExhausted), ..counted }
                } else {
                    counted.respawned()
                }
            },
            (Some(TunnelAction::Poll { .. }), TunnelEvent::Alive) => {
                if self.keep_running {
                    Monitor {
                        retries: 0,
                        pending: Some(TunnelAction::Poll { delay_secs: POLL_SECS }),
                        ..self
                    }
                } else {
                    Monitor { retries: 0, pending: Some(TunnelAction::Kill), ..self }
                }
            },
            (Some(TunnelAction::Poll { .. }), TunnelEvent::PollFailed) => Monitor {
                pending: None,
                exit: Some(TunnelExit::PollFailure),
                ..self
            },
            (Some(TunnelAction::Kill), TunnelEvent::Killed) => Monitor {
                pending: None,
                exit: Some(TunnelExit::Shutdown),
                ..self
            },
            _ => {
                return (self, None);
            },
        };
        (next, next.pending)
    }
}

/// The argument that forwards the client port to the server port.
pub open spec fn forward_arg(client_port: u32, server_port: u32) -> Seq<char> {
    decimal(client_port as nat) + ":localhost:"@ + decimal(server_port as nat)
}

/// The command line that launches the server on the remote host.
pub open spec fn remote_command(workspace: Seq<char>, server_port: u32) -> Seq<char> {
    "~/.emacs_remote/bin/emacs-remote-server -w "@ + workspace + " -p "@ + decimal(
        server_port as nat,
    )
}

/// The supervisor of one tunnel.
pub struct STCPSession {
    host: String,
    server_port: u32,
    client_port: u32,
    workspace: String,
    monitor: Monitor,
}

/// What a supervisor was made with.
pub struct TunnelConfig {
    /// The remote host by the name that the ssh configuration knows it under.
    pub host: Seq<char>,
    pub server_port: u32,
    pub client_port: u32,
    /// The workspace that the remote server is launched on.
    pub workspace: Seq<char>,
}

impl STCPSession {
    #[verifier::type_invariant]
    spec fn well_formed(self) -> bool {
        self.monitor().wf()
    }

    /// The state machine of this supervisor.
    pub closed spec fn monitor(&self) -> Monitor {
        self.monitor
    }

    /// What this supervisor was made with.
    pub closed spec fn config(&self) -> TunnelConfig {
        TunnelConfig {
            host: self.host@,
            server_port: self.server_port,
            client_port: self.client_port,
            workspace: self.workspace@,
        }
    }

    /// Makes a supervisor and launches its monitoring task at once: the
    /// supervisor comes back in `Starting`, owing the first launch of the
    /// tunnel process.
    pub fn new(host: String, server_port: u32, client_port: u32, workspace: String) -> (session:
        STCPSession)
        ensures
            session.config() == (TunnelConfig {
                host: host@,
                server_port,
                client_port,
                workspace: workspace@,
            }),
            session.monitor() == Monitor::idle().start(),
            session.monitor().state() == TunnelState::Starting,
            session.monitor().wf(),
    {
        let mut session = STCPSession {
            host,
            server_port,
            client_port,
            workspace,
            monitor: Monitor {
                keep_running: true,
                started: false,
                pending: None,
                retries: 0,
                exit: None,
            },
        };
        session.start_ssh();
        session
    }

    /// Launches the monitoring task unless one was launched before. Returns
    /// whether it did.
    pub fn start_ssh(&mut self) -> (launched: bool)
        ensures
            final(self).monitor() == old(self).monitor().start(),
            final(self).config() == old(self).config(),
            launched == !old(self).monitor().started,
            final(self).monitor().wf(),
    {
        proof {
            use_type_invariant(&*self);
        }
        if self.monitor.started {
            return false;
        }
        self.monitor = Monitor { started: true, ..self.monitor }.respawned();
        true
    }

    /// Takes a report of the monitoring task and answers with the action that
    /// the task owes next. `None` means that the task has nothing more to do:
    /// either it has ended, or the event did not answer the action that was
    /// owed and was ignored.
    pub fn step(&mut self, event: TunnelEvent) -> (action: Option<TunnelAction>)
        ensures
            final(self).monitor() == old(self).monitor().step(event),
            final(self).config() == old(self).config(),
            action == old(self).monitor().answer(event),
            final(self).monitor().wf(),
    {
        proof {
            use_type_invariant(&*self);
        }
        let (next, action) = self.monitor.advanced(event);
        self.monitor = next;
        action
    }

    /// Requests shutdown by clearing the flag that the monitoring task looks
    /// at before each launch and at each poll of a live process. Returns
    /// whether a monitoring task is still at work and has to be waited for.
    pub fn shutdown(&mut self) -> (wait: bool)
        ensures
            final(self).monitor() == old(self).monitor().shutdown(),
            final(self).config() == old(self).config(),
            wait == old(self).monitor().pending is Some,
            final(self).monitor().wf(),
    {
        proof {
            use_type_invariant(&*self);
        }
        self.monitor = Monitor { keep_running: false, ..self.monitor };
        self.monitor.pending.is_some()
    }

    pub fn state(&self) -> (state: TunnelState)
        ensures
            state == self.monitor().state(),
    {
        match self.monitor.pending {
            Some(TunnelAction::Spawn) => TunnelState::Starting,
            Some(TunnelAction::Poll { .. }) => TunnelState::Running,
            Some(TunnelAction::Kill) => TunnelState::Stopping,
            None => if self.monitor.started {
                TunnelState::Stopped
            } else {
                TunnelState::Idle
            },
        }
    }

    /// The action that the monitoring task owes.
    pub fn pending(&self) -> (action: Option<TunnelAction>)
        ensures
            action == self.monitor().pending,
    {
        self.monitor.pending
    }

    pub fn retries(&self) -> (retries: u32)
        ensures
            retries == self.monitor().retries,
            retries <= MAX_RETRIES + 1,
    {
        proof {
            use_type_invariant(self);
        }
        self.monitor.retries
    }

    pub fn keep_running(&self) -> (flag: bool)
        ensures
            flag == self.monitor().keep_running,
    {
        self.monitor.keep_running
    }

    /// Why the monitoring task ended, once it has.
    pub fn exit(&self) -> (exit: Option<TunnelExit>)
        ensures
            exit == self.monitor().exit,
    {
        self.monitor.exit
    }

    /// The arguments of the `ssh` command that is the tunnel: the port
    /// forwarding, the host, and the command line that launches the server
    /// on the remote host.
    pub fn ssh_args(&self) -> (args: Vec<String>)
        ensures
            args@.len() == 4,
            args@[0]@ == "-L"@,
            args@[1]@ == forward_arg(self.config().client_port, self.config().server_port),
            args@[2]@ == self.config().host,
            args@[3]@ == remote_command(self.config().workspace, self.config().server_port),
    {
        let mut forward = to_decimal(self.client_port);
        forward.append(":localhost:");
        let server_port = to_decimal(self.server_port);
        forward.append(server_port.as_str());

        let mut command = String::from_str("~/.emacs_remote/bin/emacs-remote-server -w ");
        command.append(self.workspace.as_str());
        command.append(" -p ");
        command.append(server_port.as_str());

        let mut args: Vec<String> = Vec::new();
        args.push(String::from_str("-L"));
        args.push(forward);
        args.push(self.host.clone());
        args.push(command);
        args
    }
}

/// Every step leaves the machine well formed, and so do launching the
/// monitoring task and requesting shutdown.
pub proof fn lemma_wf_preserved(m: Monitor, event: TunnelEvent)
    requires
        m.wf(),
    ensures
        m.step(event).wf(),
        m.start().wf(),
        m.shutdown().wf(),
        Monitor::idle().wf(),
{
}

/// Restart bound: while the process does nothing but fail, a machine that
/// has counted `retries` failures orders at most `MAX_RETRIES - retries`
/// further launches. A fresh supervisor therefore sees the launch that it
/// starts with and five restarts, and never orders a seventh launch.
pub proof fn lemma_restart_bound(m: Monitor, events: Seq<TunnelEvent>)
    requires
        m.wf(),
        forall|i: int|
            0 <= i < events.len() ==> !(#[trigger] events[i] is Alive) && !(events[i]
                is ExitedSuccess),
    ensures
        m.pending is Some ==> m.spawns(events) + m.retries <= MAX_RETRIES,
        m.pending is None ==> m.spawns(events) == 0,
    decreases events.len(),
{
    if events.len() > 0 {
        let rest = events.skip(1);
        assert forall|i: int| 0 <= i < rest.len() implies !(#[trigger] rest[i] is Alive) && !(
        rest[i] is ExitedSuccess) by {
            assert(rest[i] == events[i + 1]);
        }
        lemma_restart_bound(m.step(events[0]), rest);
    }
}

/// The failure that is one too many ends the monitoring task for good with
/// `RetryExhausted`; every failure before it is answered with a restart as
/// long as the flag is set.
pub proof fn lemma_failure_counts(m: Monitor)
    requires
        m.wf(),
        m.state() == TunnelState::Running,
    ensures
        m.step(TunnelEvent::ExitedFailure).retries == m.retries + 1,
        m.retries == MAX_RETRIES ==> m.step(TunnelEvent::ExitedFailure).state()
            == TunnelState::Stopped && m.step(TunnelEvent::ExitedFailure).exit == Some(
            TunnelExit::RetryExhausted,
        ) && m.answer(TunnelEvent::ExitedFailure) is None,
        m.retries < MAX_RETRIES && m.keep_running ==> m.answer(TunnelEvent::ExitedFailure)
            == Some(TunnelAction::Spawn),
{
}

/// Restart on success: a process that exits with success is launched again
/// while the flag is set, and the failure count stays as it was.
pub proof fn lemma_success_respawns(m: Monitor)
    requires
        m.wf(),
        m.state() == TunnelState::Running,
        m.keep_running,
    ensures
        m.answer(TunnelEvent::ExitedSuccess) == Some(TunnelAction::Spawn),
        m.step(TunnelEvent::ExitedSuccess).state() == TunnelState::Starting,
        m.step(TunnelEvent::ExitedSuccess).retries == m.retries,
{
}

/// A process that is seen alive clears the failure count.
pub proof fn lemma_alive_resets(m: Monitor)
    requires
        m.state() == TunnelState::Running,
    ensures
        m.step(TunnelEvent::Alive).retries == 0,
        m.keep_running ==> m.answer(TunnelEvent::Alive) == Some(
            TunnelAction::Poll { delay_secs: POLL_SECS },
        ),
{
}

/// Clean teardown: once shutdown is requested, the next poll ends the
/// monitoring task, and a process that this poll finds alive is killed
/// before the task ends.
pub proof fn lemma_shutdown_by_next_poll(m: Monitor, event: TunnelEvent)
    requires
        m.wf(),
        !m.keep_running,
        m.state() == TunnelState::Running,
        m.accepts(event),
    ensures
        event is Alive ==> m.answer(event) == Some(TunnelAction::Kill) && m.step(event).step(
            TunnelEvent::Killed,
        ).state() == TunnelState::Stopped,
        !(event is Alive) ==> m.answer(event) is None && m.step(event).state()
            == TunnelState::Stopped,
{
}

/// Once shutdown is requested the flag stays cleared and no launch is ever
/// ordered again.
pub proof fn lemma_no_spawn_after_shutdown(m: Monitor, events: Seq<TunnelEvent>)
    requires
        !m.keep_running,
    ensures
        m.spawns(events) == 0,
        !m.run(events).keep_running,
    decreases events.len(),
{
    if events.len() > 0 {
        lemma_no_spawn_after_shutdown(m.step(events[0]), events.skip(1));
    }
}

/// At most one live process: a launch is ordered only when the monitoring
/// task starts or in answer to a poll that saw the previous process exited.
pub proof fn lemma_spawn_follows_exit(m: Monitor, event: TunnelEvent)
    requires
        m.answer(event) == Some(TunnelAction::Spawn),
    ensures
        m.state() == TunnelState::Running,
        event is ExitedSuccess || event is ExitedFailure,
{
}

/// A monitoring task that has ended stays ended: no event moves the machine
/// and no action is issued.
pub proof fn lemma_stopped_is_final(m: Monitor, events: Seq<TunnelEvent>)
    requires
        m.state() == TunnelState::Stopped,
    ensures
        m.run(events) == m,
        m.spawns(events) == 0,
        forall|event: TunnelEvent| #[trigger] m.answer(event) is None,
    decreases events.len(),
{
    if events.len() > 0 {
        lemma_stopped_is_final(m, events.skip(1));
    }
}

} // verus!
