//! The fixed order in which a node process starts up: privileged
//! initialization, then the drop of privileges, then detaching, then the
//! unprivileged serve loops, then the wait for the configured lifetime.

use vstd::prelude::*;

verus! {

/// One of the two services that the process runs.
#[derive(Clone, Copy, Debug, PartialEq, Eq, Structural)]
pub enum Service {
    DnsSocketServer,
    Bootstrapper,
}

/// What the caller has to do next.
#[derive(Clone, Copy, Debug, PartialEq, Eq, Structural)]
pub enum Action {
    /// Configure logging from the argument list.
    InitLogger,
    /// Let the service do its privileged setup, on the calling thread.
    InitializeAsRoot(Service),
    /// Give up elevated permissions.
    DropPrivileges,
    /// Detach from the controlling session.
    Daemonize,
    /// Start the service's serve loop on a thread of its own.
    Serve(Service),
    /// Block the calling thread for this many seconds.
    Sleep(u64),
    /// Return this exit code.
    Exit(u8),
}

/// How far a run has come: each stage is named after the last thing done.
#[derive(Clone, Copy, Debug, PartialEq, Eq, Structural)]
pub enum Stage {
    Idle,
    LoggerInitialized,
    DnsInitialized,
    BootstrapperInitialized,
    PrivilegesDropped,
    Daemonized,
    DnsServing,
    BothServing,
    Slept,
}

/// Why a run cannot go on.
#[derive(Clone, Copy, Debug, PartialEq, Eq, Structural)]
pub enum SequenceError {
    /// The first service was already handed out and not supplied again.
    DnsSocketServerMissing,
    /// The second service was already handed out and not supplied again.
    BootstrapperMissing,
}

/// The state of the startup sequencer. A service that is marked as held can
/// be handed out once; after that a run that needs it fails.
#[derive(Clone, Copy, Debug, PartialEq, Eq, Structural)]
pub struct ServerInitializer {
    pub dns_socket_server: bool,
    pub bootstrapper: bool,
    pub lifetime_secs: u64,
    pub stage: Stage,
}

/// The lifetime of a production process: in practice without end.
pub const UNBOUNDED_LIFETIME_SECS: u64 = 0xFFFF_FFFF_FFFF_FFFF;

/// The exit code of a run that reached its end.
pub const EXIT_CODE_DONE: u8 = 0;

/// The actions of a complete run, in the order in which they are handed out.
pub open spec fn run_order(lifetime_secs: u64) -> Seq<Action> {
    seq![
        Action::InitLogger,
        Action::InitializeAsRoot(Service::DnsSocketServer),
        Action::InitializeAsRoot(Service::Bootstrapper),
        Action::DropPrivileges,
        Action::Daemonize,
        Action::Serve(Service::DnsSocketServer),
        Action::Serve(Service::Bootstrapper),
        Action::Sleep(lifetime_secs),
        Action::Exit(EXIT_CODE_DONE),
    ]
}

/// How far some steps of the sequencer have led.
pub ghost struct Progress {
    pub state: ServerInitializer,
    pub actions: Seq<Action>,
    pub stopped: Option<SequenceError>,
}

/// A run as its caller sees it: the actions to perform, in order, and then
/// the exit code to return or the error that stopped the run.
#[derive(Debug, PartialEq, Eq)]
pub struct Run {
    pub actions: Vec<Action>,
    pub outcome: Result<u8, SequenceError>,
}

impl Stage {
    /// The number of actions handed out in the run so far.
    pub open spec fn index(self) -> int {
        match self {
            Stage::Idle => 0,
            Stage::LoggerInitialized => 1,
            Stage::DnsInitialized => 2,
            Stage::BootstrapperInitialized => 3,
            Stage::PrivilegesDropped => 4,
            Stage::Daemonized => 5,
            Stage::DnsServing => 6,
            Stage::BothServing => 7,
            Stage::Slept => 8,
        }
    }

    /// The stage that follows; a finished run is idle again.
    pub open spec fn next(self) -> Stage {
        match self {
            Stage::Idle => Stage::LoggerInitialized,
            Stage::LoggerInitialized => Stage::DnsInitialized,
            Stage::DnsInitialized => Stage::BootstrapperInitialized,
            Stage::BootstrapperInitialized => Stage::PrivilegesDropped,
            Stage::PrivilegesDropped => Stage::Daemonized,
            Stage::Daemonized => Stage::DnsServing,
            Stage::DnsServing => Stage::BothServing,
            Stage::BothServing => Stage::Slept,
            Stage::Slept => Stage::Idle,
        }
    }
}

impl ServerInitializer {
    /// The sequencer before its first run, with both services held.
    pub open spec fn fresh(lifetime_secs: u64) -> ServerInitializer {
        ServerInitializer {
            dns_socket_server: true,
            bootstrapper: true,
            lifetime_secs,
            stage: Stage::Idle,
        }
    }

    /// The sequencer after a complete run: idle, with both services gone.
    pub open spec fn spent(lifetime_secs: u64) -> ServerInitializer {
        ServerInitializer {
            dns_socket_server: false,
            bootstrapper: false,
            lifetime_secs,
            stage: Stage::Idle,
        }
    }

    /// The error that stops the run at this state, if there is one: the
    /// service that is due for its privileged setup is no longer held.
    pub open spec fn blocked(self) -> Option<SequenceError> {
        if self.stage == Stage::LoggerInitialized && !self.dns_socket_server {
            Some(SequenceError::DnsSocketServerMissing)
        } else if self.stage == Stage::DnsInitialized && !self.bootstrapper {
            Some(SequenceError::BootstrapperMissing)
        } else {
            None
        }
    }

    /// One step of the sequencer: the state that follows and the action
    /// handed out, or the error that stops the run.
    pub open spec fn step(self) -> Result<(ServerInitializer, Action), SequenceError> {
        match self.blocked() {
            Some(e) => Err(e),
            None => Ok(
                (
                    ServerInitializer {
                        dns_socket_server: self.dns_socket_server && self.stage
                            != Stage::LoggerInitialized,
                        bootstrapper: self.bootstrapper && self.stage != Stage::DnsInitialized,
                        lifetime_secs: self.lifetime_secs,
                        stage: self.stage.next(),
                    },
                    run_order(self.lifetime_secs)[self.stage.index()],
                ),
            ),
        }
    }

    /// The first `n` steps from this state: the state reached, the actions
    /// handed out on the way, and the error that stopped the run, if one did.
    /// A run that is stopped stays where it is.
    pub open spec fn steps(self, n: nat) -> Progress
        decreases n,
    {
        if n == 0 {
            Progress { state: self, actions: Seq::empty(), stopped: None }
        } else {
            let before = self.steps((n - 1) as nat);
            if before.stopped.is_some() {
                before
            } else {
                match before.state.step() {
                    Err(e) => Progress {
                        state: before.state,
                        actions: before.actions,
                        stopped: Some(e),
                    },
                    Ok((next, action)) => Progress {
                        state: next,
                        actions: before.actions.push(action),
                        stopped: None,
                    },
                }
            }
        }
    }

    /// The rest of the run from this state: the steps up to the exit.
    pub open spec fn rest_of_run(self) -> Progress {
        self.steps((run_order(self.lifetime_secs).len() - self.stage.index()) as nat)
    }

    /// The sequencer of a production process: both services held, and a
    /// lifetime that in practice never ends.
    pub fn new() -> (initializer: ServerInitializer)
        ensures
            initializer == ServerInitializer::fresh(UNBOUNDED_LIFETIME_SECS),
    {
        ServerInitializer {
            dns_socket_server: true,
            bootstrapper: true,
            lifetime_secs: UNBOUNDED_LIFETIME_SECS,
            stage: Stage::Idle,
        }
    }

    /// Hands out the next action of the run and moves on, or reports that a
    /// service is missing and stays where it is. The caller performs the
    /// action before it asks again.
    pub fn next_action(&mut self) -> (result: Result<Action, SequenceError>)
        ensures
            match old(self).step() {
                Ok((next, action)) => result == Ok::<Action, SequenceError>(action) && *final(self)
                    == next,
                Err(e) => result == Err::<Action, SequenceError>(e) && *final(self) == *old(self),
            },
    {
        let action = match self.stage {
            Stage::Idle => {
                self.stage = Stage::LoggerInitialized;
                Action::InitLogger
            },
            Stage::LoggerInitialized => {
                if !self.dns_socket_server {
                    return Err(SequenceError::DnsSocketServerMissing);
                }
                self.dns_socket_server = false;
                self.stage = Stage::DnsInitialized;
                Action::InitializeAsRoot(Service::DnsSocketServer)
            },
            Stage::DnsInitialized => {
                if !self.bootstrapper {
                    return Err(SequenceError::BootstrapperMissing);
                }
                self.bootstrapper = false;
                self.stage = Stage::BootstrapperInitialized;
                Action::InitializeAsRoot(Service::Bootstrapper)
            },
            Stage::BootstrapperInitialized => {
                self.stage = Stage::PrivilegesDropped;
                Action::DropPrivileges
            },
            Stage::PrivilegesDropped => {
                self.stage = Stage::Daemonized;
                Action::Daemonize
            },
            Stage::Daemonized => {
                self.stage = Stage::DnsServing;
                Action::Serve(Service::DnsSocketServer)
            },
            Stage::DnsServing => {
                self.stage = Stage::BothServing;
                Action::Serve(Service::Bootstrapper)
            },
            Stage::BothServing => {
                self.stage = Stage::Slept;
                Action::Sleep(self.lifetime_secs)
            },
            Stage::Slept => {
                self.stage = Stage::Idle;
                Action::Exit(EXIT_CODE_DONE)
            },
        };
        Ok(action)
    }

    /// Goes through the rest of the run at once and returns its actions in
    /// the order in which `next_action` hands them out, the exit included.
    pub fn go(&mut self) -> (run: Run)
        ensures
            run.actions@ == old(self).rest_of_run().actions,
            *final(self) == old(self).rest_of_run().state,
            run.outcome == match old(self).rest_of_run().stopped {
                Some(e) => Err::<u8, SequenceError>(e),
                None => Ok::<u8, SequenceError>(EXIT_CODE_DONE),
            },
    {
        let ghost start = *self;
        let ghost total = (run_order(self.lifetime_secs).len() - self.stage.index()) as nat;
        let ghost mut n: nat = 0;
        let mut actions: Vec<Action> = Vec::new();
        loop
            invariant
                start == *old(self),
                self.lifetime_secs == start.lifetime_secs,
                n < total,
                total == 9 - start.stage.index(),
                start.stage.index() + n == self.stage.index(),
                start.steps(n) == (Progress { state: *self, actions: actions@, stopped: None }),
            decreases 9 - self.stage.index(),
        {
            let ghost before = *self;
            let ghost handed_out = actions@;
            proof {
                reveal_with_fuel(ServerInitializer::steps, 2);
                assert(start.steps(n) == (Progress {
                    state: before,
                    actions: handed_out,
                    stopped: None,
                }));
            }
            match self.next_action() {
                Err(e) => {
                    proof {
                        assert(start.steps((n + 1) as nat) == (Progress {
                            state: *self,
                            actions: actions@,
                            stopped: Some(e),
                        }));
                        lemma_stopped_run_stays(start, (n + 1) as nat, total);
                    }
                    return Run { actions, outcome: Err(e) };
                },
                Ok(Action::Exit(code)) => {
                    actions.push(Action::Exit(code));
                    proof {
                        assert(before.stage == Stage::Slept);
                        assert(n + 1 == total);
                        assert(start.steps((n + 1) as nat) == (Progress {
                            state: *self,
                            actions: actions@,
                            stopped: None,
                        }));
                    }
                    return Run { actions, outcome: Ok(code) };
                },
                Ok(action) => {
                    actions.push(action);
                    proof {
                        assert(before.stage != Stage::Slept);
                        assert(start.steps((n + 1) as nat) == (Progress {
                            state: *self,
                            actions: actions@,
                            stopped: None,
                        }));
                        n = n + 1;
                    }
                },
            }
        }
    }
}

/// Once an error has stopped a run, further steps change nothing.
pub proof fn lemma_stopped_run_stays(start: ServerInitializer, n: nat, m: nat)
    requires
        n <= m,
        start.steps(n).stopped.is_some(),
    ensures
        start.steps(m) == start.steps(n),
    decreases m,
{
    if n < m {
        lemma_stopped_run_stays(start, n, (m - 1) as nat);
    }
}

/// A step never brings a service back, and a service is handed out for its
/// privileged setup only while it is held, and is gone right after: each
/// service is used at most once.
pub proof fn lemma_service_is_used_at_most_once(state: ServerInitializer)
    ensures
        match state.step() {
            Ok((next, action)) => {
                &&& next.dns_socket_server ==> state.dns_socket_server
                &&& next.bootstrapper ==> state.bootstrapper
                &&& action == Action::InitializeAsRoot(Service::DnsSocketServer)
                    ==> state.dns_socket_server && !next.dns_socket_server
                &&& action == Action::InitializeAsRoot(Service::Bootstrapper) ==> state.bootstrapper
                    && !next.bootstrapper
            },
            Err(_) => true,
        },
{
}

/// From any state, the actions of the steps up to the exit are a stretch of
/// the fixed order that begins where the run stands: nothing is skipped,
/// repeated or handed out of turn, and only a missing service ends the
/// stretch early.
pub proof fn lemma_steps_follow_run_order(start: ServerInitializer, n: nat)
    requires
        start.stage.index() + n <= run_order(start.lifetime_secs).len(),
    ensures
        ({
            let progress = start.steps(n);
            let from = start.stage.index();
            let to = from + progress.actions.len();
            &&& progress.actions.len() <= n
            &&& progress.stopped.is_none() ==> progress.actions.len() == n
            &&& progress.actions == run_order(start.lifetime_secs).subrange(from, to)
            &&& progress.state.lifetime_secs == start.lifetime_secs
            &&& progress.state.stage.index() == if to == 9 {
                0
            } else {
                to
            }
        }),
    decreases n,
{
    let order = run_order(start.lifetime_secs);
    let from = start.stage.index();
    if n == 0 {
        assert(start.steps(0).actions =~= order.subrange(from, from));
    } else {
        lemma_steps_follow_run_order(start, (n - 1) as nat);
        let before = start.steps((n - 1) as nat);
        let progress = start.steps(n);
        if before.stopped.is_none() && before.state.step().is_ok() {
            let to = from + before.actions.len();
            assert(before.state.stage.index() == to);
            assert(progress.actions =~= order.subrange(from, to + 1));
        }
    }
}

/// A run of the sequencer with both services held hands out exactly the
/// fixed order: logger, privileged setup of the first and of the second
/// service, drop of privileges, detaching, the first and the second serve
/// loop, the wait for the lifetime, and the exit with code 0. It leaves the
/// sequencer idle, with both services gone.
pub proof fn lemma_complete_run(lifetime_secs: u64)
    ensures
        ServerInitializer::fresh(lifetime_secs).rest_of_run() == (Progress {
            state: ServerInitializer::spent(lifetime_secs),
            actions: run_order(lifetime_secs),
            stopped: None,
        }),
{
    reveal_with_fuel(ServerInitializer::steps, 10);
    let progress = ServerInitializer::fresh(lifetime_secs).steps(9);
    assert(progress.actions =~= run_order(lifetime_secs));
}

/// A second run without new services configures logging and then stops,
/// because the first service is missing.
pub proof fn lemma_second_run_stops(lifetime_secs: u64)
    ensures
        ServerInitializer::spent(lifetime_secs).rest_of_run() == (Progress {
            state: ServerInitializer {
                stage: Stage::LoggerInitialized,
                ..ServerInitializer::spent(lifetime_secs)
            },
            actions: seq![Action::InitLogger],
            stopped: Some(SequenceError::DnsSocketServerMissing),
        }),
{
    reveal_with_fuel(ServerInitializer::steps, 3);
    let start = ServerInitializer::spent(lifetime_secs);
    assert(start.steps(2).actions =~= seq![Action::InitLogger]);
    lemma_stopped_run_stays(start, 2, 9);
}

/// In the fixed order every privileged setup comes before the drop of
/// privileges, the drop before detaching, and detaching before every serve
/// loop; and no action occurs twice, so that logging is configured once,
/// privileges are dropped once and the process is detached once.
pub proof fn lemma_privileged_work_comes_first(lifetime_secs: u64, i: int, j: int)
    requires
        0 <= i < run_order(lifetime_secs).len(),
        0 <= j < run_order(lifetime_secs).len(),
    ensures
        run_order(lifetime_secs)[i] is InitializeAsRoot && run_order(lifetime_secs)[j]
            == Action::DropPrivileges ==> i < j,
        run_order(lifetime_secs)[i] == Action::DropPrivileges && run_order(lifetime_secs)[j]
            == Action::Daemonize ==> i < j,
        run_order(lifetime_secs)[i] == Action::Daemonize && run_order(lifetime_secs)[j] is Serve
            ==> i < j,
        run_order(lifetime_secs)[i] == run_order(lifetime_secs)[j] ==> i == j,
{
}

} // verus!
