//! The decisions of a running daemon: it watches the server it started,
//! answers heartbeats from clients, and shuts the server down when it is told
//! to, when the server dies, or when no client has been heard from for long
//! enough.
//!
//! The daemon's event loop waits on four things at once: a termination
//! signal, the server's exit, a client's heartbeat connection, and a timer of
//! `tick_secs` seconds that starts afresh on every turn of the loop. Whatever
//! comes first is handed to [`Supervisor::step`], which says whether to go on.

use vstd::prelude::*;
use crate::text::{has_prefix, starts_with};

verus! {

/// What woke the daemon's event loop.
#[derive(Clone, Copy, Debug, PartialEq, Eq, Structural)]
pub enum SupervisorEvent {
    /// The daemon received `SIGTERM`.
    Terminate,
    /// The server process ended.
    ServerExited,
    /// A client connected to the daemon's socket to say it is still there.
    Heartbeat,
    /// A full tick passed with none of the above.
    IdleTick,
}

/// Why the daemon stopped its server.
#[derive(Clone, Copy, Debug, PartialEq, Eq, Structural)]
pub enum ShutdownReason {
    Terminated,
    ServerExited,
    Idle,
}

/// What the event loop does next.
#[derive(Clone, Copy, Debug, PartialEq, Eq, Structural)]
pub enum SupervisorAction {
    KeepRunning,
    Shutdown(ShutdownReason),
}

/// How long a daemon waits without a heartbeat: the loop's timer runs
/// `tick_secs` seconds, and the daemon closes once the quiet time since the
/// last heartbeat reaches `close_after_secs`.
#[derive(Clone, Copy, Debug, PartialEq, Eq, Structural)]
pub struct IdlePolicy {
    pub tick_secs: u32,
    pub close_after_secs: u32,
}

impl IdlePolicy {
    /// Both times are positive and their sum fits in a `u32`.
    pub open spec fn wf(&self) -> bool {
        &&& 0 < self.tick_secs
        &&& 0 < self.close_after_secs
        &&& self.tick_secs + self.close_after_secs <= u32::MAX
    }
}

/// The state of a supervising daemon.
#[derive(Clone, Copy, Debug, PartialEq, Eq, Structural)]
pub enum SupervisorState {
    /// Serving; `idle_secs` seconds have passed since the last heartbeat.
    Running { idle_secs: u32 },
    /// The server has been shut down, for this reason.
    Stopped { reason: ShutdownReason },
}

/// One turn of the event loop: the state after `event` and what the loop does.
pub open spec fn next(policy: IdlePolicy, state: SupervisorState, event: SupervisorEvent) -> (
    SupervisorState,
    SupervisorAction,
) {
    match state {
        SupervisorState::Stopped { reason } => (state, SupervisorAction::Shutdown(reason)),
        SupervisorState::Running { idle_secs } => match event {
            SupervisorEvent::Terminate => (
                SupervisorState::Stopped { reason: ShutdownReason::Terminated },
                SupervisorAction::Shutdown(ShutdownReason::Terminated),
            ),
            SupervisorEvent::ServerExited => (
                SupervisorState::Stopped { reason: ShutdownReason::ServerExited },
                SupervisorAction::Shutdown(ShutdownReason::ServerExited),
            ),
            SupervisorEvent::Heartbeat => (
                SupervisorState::Running { idle_secs: 0 },
                SupervisorAction::KeepRunning,
            ),
            SupervisorEvent::IdleTick => if idle_secs + policy.tick_secs >= policy.close_after_secs {
                (
                    SupervisorState::Stopped { reason: ShutdownReason::Idle },
                    SupervisorAction::Shutdown(ShutdownReason::Idle),
                )
            } else {
                (
                    SupervisorState::Running { idle_secs: (idle_secs + policy.tick_secs) as u32 },
                    SupervisorAction::KeepRunning,
                )
            },
        },
    }
}

/// The state after a fresh daemon has seen `events`, in order.
pub open spec fn replay(policy: IdlePolicy, events: Seq<SupervisorEvent>) -> SupervisorState
    decreases events.len(),
{
    if events.len() == 0 {
        SupervisorState::Running { idle_secs: 0 }
    } else {
        next(policy, replay(policy, events.drop_last()), events.last()).0
    }
}

/// The number of idle ticks at the end of `events`, after the last heartbeat.
pub open spec fn quiet_ticks(events: Seq<SupervisorEvent>) -> nat
    decreases events.len(),
{
    if events.len() == 0 {
        0
    } else if events.last() == SupervisorEvent::IdleTick {
        quiet_ticks(events.drop_last()) + 1
    } else {
        0
    }
}

/// Whether every event in `events` is a heartbeat or an idle tick.
pub open spec fn only_heartbeats_and_ticks(events: Seq<SupervisorEvent>) -> bool {
    forall|i: int|
        0 <= i < events.len() ==> events[i] == SupervisorEvent::Heartbeat || events[i]
            == SupervisorEvent::IdleTick
}

/// Whether some prefix of `events` ends with a quiet stretch of at least
/// `close_after_secs` seconds.
pub open spec fn quiet_for_long_enough(policy: IdlePolicy, events: Seq<SupervisorEvent>) -> bool {
    exists|k: int|
        1 <= k <= events.len() && quiet_ticks(#[trigger] events.take(k)) * policy.tick_secs
            >= policy.close_after_secs
}

/// The daemon supervising one server.
pub struct Supervisor {
    policy: IdlePolicy,
    state: SupervisorState,
}

impl Supervisor {
    /// The idle policy it was made with.
    pub closed spec fn policy(&self) -> IdlePolicy {
        self.policy
    }

    /// Its current state.
    pub closed spec fn state(&self) -> SupervisorState {
        self.state
    }

    /// The policy is well formed, and a running daemon has been quiet for less
    /// than `close_after_secs` seconds.
    pub closed spec fn wf(&self) -> bool {
        &&& self.policy.wf()
        &&& (self.state matches SupervisorState::Running { idle_secs } ==> idle_secs
            < self.policy.close_after_secs)
    }

    /// A daemon that has just started its server.
    pub fn new(policy: IdlePolicy) -> (s: Self)
        requires
            policy.wf(),
        ensures
            s.wf(),
            s.policy() == policy,
            s.state() == (SupervisorState::Running { idle_secs: 0 }),
    {
        Supervisor { policy, state: SupervisorState::Running { idle_secs: 0 } }
    }

    /// Its current state.
    pub fn current(&self) -> (r: SupervisorState)
        ensures
            r == self.state(),
    {
        self.state
    }

    /// Takes in one event and says whether the loop goes on (see [`next`]).
    pub fn step(&mut self, event: SupervisorEvent) -> (action: SupervisorAction)
        requires
            old(self).wf(),
        ensures
            final(self).wf(),
            final(self).policy() == old(self).policy(),
            (final(self).state(), action) == next(old(self).policy(), old(self).state(), event),
    {
        match self.state {
            SupervisorState::Stopped { reason } => SupervisorAction::Shutdown(reason),
            SupervisorState::Running { idle_secs } => match event {
                SupervisorEvent::Terminate => {
                    self.state = SupervisorState::Stopped { reason: ShutdownReason::Terminated };
                    SupervisorAction::Shutdown(ShutdownReason::Terminated)
                },
                SupervisorEvent::ServerExited => {
                    self.state = SupervisorState::Stopped { reason: ShutdownReason::ServerExited };
                    SupervisorAction::Shutdown(ShutdownReason::ServerExited)
                },
                SupervisorEvent::Heartbeat => {
                    self.state = SupervisorState::Running { idle_secs: 0 };
                    SupervisorAction::KeepRunning
                },
                SupervisorEvent::IdleTick => {
                    let quiet = idle_secs + self.policy.tick_secs;
                    if quiet >= self.policy.close_after_secs {
                        self.state = SupervisorState::Stopped { reason: ShutdownReason::Idle };
                        SupervisorAction::Shutdown(ShutdownReason::Idle)
                    } else {
                        self.state = SupervisorState::Running { idle_secs: quiet };
                        SupervisorAction::KeepRunning
                    }
                },
            },
        }
    }
}

/// A heartbeat always keeps a running daemon alive and starts its quiet time
/// afresh.
pub proof fn law_heartbeat_resets_idle_time(policy: IdlePolicy, idle_secs: u32)
    ensures
        next(policy, SupervisorState::Running { idle_secs }, SupervisorEvent::Heartbeat) == (
            SupervisorState::Running { idle_secs: 0 },
            SupervisorAction::KeepRunning,
        ),
{
}

/// A termination signal or the end of the server always shuts a running daemon
/// down, for that reason.
pub proof fn law_signal_and_exit_shut_down(policy: IdlePolicy, idle_secs: u32)
    ensures
        next(policy, SupervisorState::Running { idle_secs }, SupervisorEvent::Terminate) == (
            SupervisorState::Stopped { reason: ShutdownReason::Terminated },
            SupervisorAction::Shutdown(ShutdownReason::Terminated),
        ),
        next(policy, SupervisorState::Running { idle_secs }, SupervisorEvent::ServerExited) == (
            SupervisorState::Stopped { reason: ShutdownReason::ServerExited },
            SupervisorAction::Shutdown(ShutdownReason::ServerExited),
        ),
{
}

/// Once a running daemon's server has exited, or the daemon has been sent
/// `SIGTERM`, the daemon is down for good: whatever events follow, its state
/// stays stopped for that reason and every further step answers shutdown.
pub proof fn law_exit_and_signal_are_final(
    policy: IdlePolicy,
    events: Seq<SupervisorEvent>,
    more: Seq<SupervisorEvent>,
    later: SupervisorEvent,
)
    requires
        replay(policy, events) is Running,
    ensures
        replay(policy, events.push(SupervisorEvent::ServerExited) + more) == (SupervisorState::Stopped {
            reason: ShutdownReason::ServerExited,
        }),
        next(policy, replay(policy, events.push(SupervisorEvent::ServerExited) + more), later).1
            == SupervisorAction::Shutdown(ShutdownReason::ServerExited),
        replay(policy, events.push(SupervisorEvent::Terminate) + more) == (SupervisorState::Stopped {
            reason: ShutdownReason::Terminated,
        }),
        next(policy, replay(policy, events.push(SupervisorEvent::Terminate) + more), later).1
            == SupervisorAction::Shutdown(ShutdownReason::Terminated),
{
    let exited = events.push(SupervisorEvent::ServerExited);
    let signalled = events.push(SupervisorEvent::Terminate);
    assert(exited.drop_last() =~= events);
    assert(signalled.drop_last() =~= events);
    law_signal_and_exit_shut_down(policy, replay(policy, events)->idle_secs);
    assert(replay(policy, exited) == (SupervisorState::Stopped { reason: ShutdownReason::ServerExited }));
    assert(replay(policy, signalled) == (SupervisorState::Stopped { reason: ShutdownReason::Terminated }));
    law_shutdown_is_final(policy, exited, more);
    law_shutdown_is_final(policy, signalled, more);
}

/// A daemon that has shut down stays down, whatever comes next, and keeps its
/// reason.
pub proof fn law_shutdown_is_final(policy: IdlePolicy, events: Seq<SupervisorEvent>, more: Seq<
    SupervisorEvent,
>)
    requires
        replay(policy, events) is Stopped,
    ensures
        replay(policy, events + more) == replay(policy, events),
    decreases more.len(),
{
    if more.len() > 0 {
        let shorter = more.drop_last();
        law_shutdown_is_final(policy, events, shorter);
        assert((events + more).drop_last() =~= events + shorter);
    }
}

/// A daemon is shut down for idleness only after a quiet stretch of at
/// least `close_after_secs` seconds (counted in whole ticks) with no
/// heartbeat, and such a stretch always brings it down; while it runs, its
/// quiet time is the ticks since the last heartbeat. Where only heartbeats and
/// idle ticks arrive, it shuts down exactly when that first happens, and for
/// no other reason.
pub proof fn law_closes_only_after_quiet_period(policy: IdlePolicy, events: Seq<SupervisorEvent>)
    requires
        policy.wf(),
    ensures
        quiet_for_long_enough(policy, events) ==> replay(policy, events) is Stopped,
        replay(policy, events) == (SupervisorState::Stopped { reason: ShutdownReason::Idle })
            ==> quiet_for_long_enough(policy, events),
        replay(policy, events) matches SupervisorState::Running { idle_secs } ==> idle_secs
            == quiet_ticks(events) * policy.tick_secs && idle_secs < policy.close_after_secs,
        only_heartbeats_and_ticks(events) ==> ((replay(policy, events) is Stopped)
            <==> quiet_for_long_enough(policy, events)),
        only_heartbeats_and_ticks(events) && replay(policy, events) is Stopped ==> replay(
            policy,
            events,
        )->reason == ShutdownReason::Idle,
    decreases events.len(),
{
    if events.len() == 0 {
        let z = quiet_ticks(events);
        assert(z * policy.tick_secs == 0) by (nonlinear_arith)
            requires
                z == 0,
        ;
    } else {
        let pre = events.drop_last();
        let e = events.last();
        let n = events.len() as int;
        if only_heartbeats_and_ticks(events) {
            assert forall|i: int| 0 <= i < pre.len() implies pre[i] == SupervisorEvent::Heartbeat
                || pre[i] == SupervisorEvent::IdleTick by {
                assert(pre[i] == events[i]);
            }
            assert(e == events[n - 1]);
        }
        law_closes_only_after_quiet_period(policy, pre);
        // Prefixes of `pre` are prefixes of `events`.
        assert forall|k: int| 1 <= k <= pre.len() implies #[trigger] pre.take(k) == events.take(
            k,
        ) by {
            assert(pre.take(k) =~= events.take(k));
        }
        assert(events.take(n) =~= events);
        let t = policy.tick_secs as int;
        let q = quiet_ticks(pre);
        if quiet_for_long_enough(policy, pre) {
            let k = choose|k: int|
                1 <= k <= pre.len() && quiet_ticks(#[trigger] pre.take(k)) * policy.tick_secs
                    >= policy.close_after_secs;
            assert(events.take(k) == pre.take(k));
            assert(quiet_for_long_enough(policy, events));
        } else if replay(policy, pre) is Stopped {
            // Stopped for another reason than idleness: nothing changes.
            assert(replay(policy, events) == replay(policy, pre));
        } else {
            let idle = replay(policy, pre)->idle_secs;
            assert(idle == q * t);
            if e == SupervisorEvent::IdleTick {
                assert(quiet_ticks(events) == q + 1);
                assert((q + 1) * t == q * t + t) by (nonlinear_arith);
                if (q + 1) * t >= policy.close_after_secs {
                    assert(quiet_ticks(events.take(n)) * policy.tick_secs
                        >= policy.close_after_secs);
                    assert(quiet_for_long_enough(policy, events));
                } else {
                    assert forall|k: int| 1 <= k <= n implies !(quiet_ticks(
                        #[trigger] events.take(k),
                    ) * policy.tick_secs >= policy.close_after_secs) by {
                        if k <= pre.len() {
                            assert(events.take(k) == pre.take(k));
                        }
                    }
                    assert(replay(policy, events) == (SupervisorState::Running {
                        idle_secs: (idle + policy.tick_secs) as u32,
                    }));
                }
            } else {
                let z = quiet_ticks(events);
                assert(z == 0);
                assert(z * policy.tick_secs == 0) by (nonlinear_arith)
                    requires
                        z == 0,
                ;
                assert forall|k: int| 1 <= k <= n implies !(quiet_ticks(#[trigger] events.take(k))
                    * policy.tick_secs >= policy.close_after_secs) by {
                    if k <= pre.len() {
                        assert(events.take(k) == pre.take(k));
                    } else {
                        assert(quiet_ticks(events.take(k)) == 0);
                    }
                }
            }
        }
    }
}

} // verus!

verus! {

/// What one read from a client's heartbeat connection gave.
#[derive(Clone, Copy, Debug, PartialEq, Eq, Structural)]
pub enum HeartbeatRead {
    /// This many bytes arrived; 0 means the client closed its end.
    Bytes(usize),
    /// The read failed.
    Failed,
}

/// Whether the daemon reads on from a heartbeat connection after `read`: a
/// failed read ends it, and so does the end of the stream where
/// `stop_at_end` holds.
pub fn keep_reading(stop_at_end: bool, read: HeartbeatRead) -> (r: bool)
    ensures
        r == match read {
            HeartbeatRead::Bytes(n) => !(stop_at_end && n == 0),
            HeartbeatRead::Failed => false,
        },
{
    match read {
        HeartbeatRead::Bytes(n) => !(stop_at_end && n == 0),
        HeartbeatRead::Failed => false,
    }
}

/// How a daemon opens its log files: never written over in place, but either
/// emptied or added to.
#[derive(Clone, Copy, Debug, PartialEq, Eq, Structural)]
pub enum LogMode {
    /// Emptied, so that they hold the latest run only.
    Truncate,
    /// Added to at their end, so that earlier runs stay before the latest.
    Append,
}

/// How a kind of daemon behaves: its idle policy and the details of its
/// housekeeping.
#[derive(Clone, Copy, Debug, PartialEq, Eq, Structural)]
pub struct DaemonProfile {
    /// When the daemon gives up on silent clients.
    pub idle: IdlePolicy,
    /// A heartbeat connection is read until the client closes it (otherwise
    /// until a read fails).
    pub stop_reading_at_end: bool,
    /// A failed start because another daemon holds the pid file is not
    /// reported.
    pub quiet_when_locked: bool,
    /// How the log files are opened when the daemon starts.
    pub log_mode: LogMode,
    /// A log file that cannot be opened stops the start with a panic
    /// (otherwise the daemon keeps the caller's stream in its place).
    pub log_open_failure_fatal: bool,
    /// The pid file is removed when the daemon ends (the socket always is).
    pub remove_pid_file: bool,
    /// Seconds between two heartbeats of a client.
    pub heartbeat_secs: u32,
    /// A heartbeat that cannot be written stops the client with a panic
    /// (otherwise it is logged and the client goes on).
    pub heartbeat_failure_fatal: bool,
}

/// The message with which `daemonize` reports that another process holds the
/// pid file.
pub open spec fn pid_file_locked_message() -> Seq<char> {
    "unable to lock pid file"@
}

/// The daemons of llama.cpp servers: closed after 30 quiet seconds, counted
/// in ticks of 10; clients beat every 5 seconds.
#[verifier::inline]
pub open spec fn llama_server_profile_spec() -> DaemonProfile {
    DaemonProfile {
        idle: IdlePolicy { tick_secs: 10, close_after_secs: 30 },
        stop_reading_at_end: true,
        quiet_when_locked: true,
        log_mode: LogMode::Append,
        log_open_failure_fatal: true,
        remove_pid_file: true,
        heartbeat_secs: 5,
        heartbeat_failure_fatal: true,
    }
}

/// The profile of the daemons of llama.cpp servers (see [`llama_server_profile_spec`]).
#[verifier::when_used_as_spec(llama_server_profile_spec)]
pub fn llama_server_profile() -> (p: DaemonProfile)
    ensures
        p == llama_server_profile_spec(),
        p.idle.wf(),
        p.heartbeat_secs < p.idle.tick_secs,
{
    DaemonProfile {
        idle: IdlePolicy { tick_secs: 10, close_after_secs: 30 },
        stop_reading_at_end: true,
        quiet_when_locked: true,
        log_mode: LogMode::Append,
        log_open_failure_fatal: true,
        remove_pid_file: true,
        heartbeat_secs: 5,
        heartbeat_failure_fatal: true,
    }
}

/// The daemon of a llamafile: closed after one quiet tick of 10 seconds;
/// clients beat every second.
#[verifier::inline]
pub open spec fn llamafile_profile_spec() -> DaemonProfile {
    DaemonProfile {
        idle: IdlePolicy { tick_secs: 10, close_after_secs: 10 },
        stop_reading_at_end: true,
        quiet_when_locked: false,
        log_mode: LogMode::Truncate,
        log_open_failure_fatal: false,
        remove_pid_file: false,
        heartbeat_secs: 1,
        heartbeat_failure_fatal: true,
    }
}

/// The profile of the daemon of a llamafile (see [`llamafile_profile_spec`]).
#[verifier::when_used_as_spec(llamafile_profile_spec)]
pub fn llamafile_profile() -> (p: DaemonProfile)
    ensures
        p == llamafile_profile_spec(),
        p.idle.wf(),
        p.heartbeat_secs < p.idle.tick_secs,
{
    DaemonProfile {
        idle: IdlePolicy { tick_secs: 10, close_after_secs: 10 },
        stop_reading_at_end: true,
        quiet_when_locked: false,
        log_mode: LogMode::Truncate,
        log_open_failure_fatal: false,
        remove_pid_file: false,
        heartbeat_secs: 1,
        heartbeat_failure_fatal: true,
    }
}

/// The daemon of an mlc-llm server: closed after one quiet tick of 10
/// seconds; clients beat every 5 seconds and shrug off failed beats.
#[verifier::inline]
pub open spec fn mlc_profile_spec() -> DaemonProfile {
    DaemonProfile {
        idle: IdlePolicy { tick_secs: 10, close_after_secs: 10 },
        stop_reading_at_end: false,
        quiet_when_locked: false,
        log_mode: LogMode::Truncate,
        log_open_failure_fatal: false,
        remove_pid_file: false,
        heartbeat_secs: 5,
        heartbeat_failure_fatal: false,
    }
}

/// The profile of the daemon of an mlc-llm server (see [`mlc_profile_spec`]).
#[verifier::when_used_as_spec(mlc_profile_spec)]
pub fn mlc_profile() -> (p: DaemonProfile)
    ensures
        p == mlc_profile_spec(),
        p.idle.wf(),
        p.heartbeat_secs < p.idle.tick_secs,
{
    DaemonProfile {
        idle: IdlePolicy { tick_secs: 10, close_after_secs: 10 },
        stop_reading_at_end: false,
        quiet_when_locked: false,
        log_mode: LogMode::Truncate,
        log_open_failure_fatal: false,
        remove_pid_file: false,
        heartbeat_secs: 5,
        heartbeat_failure_fatal: false,
    }
}

/// Whether the forked daemon reports the error `message` with which it
/// failed to start: always, unless the profile keeps quiet about a pid file
/// that another daemon already holds.
pub fn reports_start_error(profile: &DaemonProfile, message: &str) -> (r: bool)
    ensures
        r == !(profile.quiet_when_locked && has_prefix(message@, pid_file_locked_message())),
{
    !(profile.quiet_when_locked && starts_with(message, "unable to lock pid file"))
}

/// A llama.cpp daemon closes after 30 quiet seconds: fed heartbeats and idle
/// ticks, it is shut down exactly when some stretch of three ticks (of 10
/// seconds each) has passed without a heartbeat, and while it runs its quiet
/// time is ten seconds per tick since the last heartbeat.
pub proof fn law_llama_daemon_closes_after_thirty_quiet_seconds(events: Seq<SupervisorEvent>)
    requires
        only_heartbeats_and_ticks(events),
    ensures
        (replay(llama_server_profile_spec().idle, events) is Stopped) <==> exists|k: int|
            1 <= k <= events.len() && quiet_ticks(#[trigger] events.take(k)) >= 3,
        replay(llama_server_profile_spec().idle, events) matches SupervisorState::Running {
            idle_secs,
        } ==> idle_secs == 10 * quiet_ticks(events) && idle_secs < 30,
{
    let policy = llama_server_profile_spec().idle;
    law_closes_only_after_quiet_period(policy, events);
    assert forall|k: int| 1 <= k <= events.len() implies (quiet_ticks(#[trigger] events.take(k))
        * policy.tick_secs >= policy.close_after_secs <==> quiet_ticks(events.take(k)) >= 3) by {
        let q = quiet_ticks(events.take(k));
        assert(q * 10 >= 30 <==> q >= 3) by (nonlinear_arith);
    }
    let q = quiet_ticks(events);
    assert(q * 10 == 10 * q) by (nonlinear_arith);
}

/// A start refused because another daemon holds the pid file is recognised by
/// `daemonize`'s own message for it, `unable to lock pid file`, and a
/// llama.cpp daemon keeps quiet about exactly those.
pub proof fn law_locked_pid_file_message()
    ensures
        pid_file_locked_message() == "unable to lock pid file"@,
        llama_server_profile_spec().quiet_when_locked,
        !llamafile_profile_spec().quiet_when_locked,
        !mlc_profile_spec().quiet_when_locked,
{
}

} // verus!
