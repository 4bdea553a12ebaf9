//! The supervisor of the component connection: connect, run the message loop
//! until the connection is lost, wait, connect again, for ever.
//!
//! The supervisor decides; its caller acts. The caller reports what happened
//! as a [`SupervisorEvent`] and is told what to do next as a
//! [`SupervisorAction`].

use vstd::prelude::*;
use std::time::Duration;

verus! {

/// Where the supervisor stands.
#[derive(Clone, Copy, Debug, PartialEq, Eq, Structural)]
pub enum SupervisorState {
    /// Not started yet.
    Idle,
    /// A connection attempt is under way.
    Connecting,
    /// The connection stands and the message loop runs on it.
    Running,
    /// The last attempt or connection failed; the wait before the next
    /// attempt is under way.
    Backoff,
}

/// What the caller reports to the supervisor.
#[derive(Clone, Copy, Debug, PartialEq, Eq, Structural)]
pub enum SupervisorEvent {
    /// The service starts.
    Start,
    /// The connection attempt succeeded.
    Connected,
    /// The connection attempt failed.
    ConnectFailed,
    /// The message loop ended: the connection was lost, or the stream broke
    /// beyond repair.
    ConnectionLost,
    /// The wait is over.
    BackoffElapsed,
}

/// What the supervisor asks of the caller.
#[derive(Clone, Copy, Debug, PartialEq, Eq)]
pub enum SupervisorAction {
    /// Open a connection and perform the handshake.
    Connect,
    /// Run the message loop on the connection just made.
    RunMessageLoop,
    /// Wait for this long, then report [`SupervisorEvent::BackoffElapsed`].
    Sleep(Duration),
}

/// The state that follows `state` on `event` and the action to take, for a
/// supervisor that waits `backoff` between attempts; `None` where `event`
/// cannot occur in `state`.
pub open spec fn reaction(state: SupervisorState, event: SupervisorEvent, backoff: Duration) -> Option<
    (SupervisorState, SupervisorAction),
> {
    match (state, event) {
        (SupervisorState::Idle, SupervisorEvent::Start) => Some(
            (SupervisorState::Connecting, SupervisorAction::Connect),
        ),
        (SupervisorState::Connecting, SupervisorEvent::Connected) => Some(
            (SupervisorState::Running, SupervisorAction::RunMessageLoop),
        ),
        (SupervisorState::Connecting, SupervisorEvent::ConnectFailed) => Some(
            (SupervisorState::Backoff, SupervisorAction::Sleep(backoff)),
        ),
        (SupervisorState::Running, SupervisorEvent::ConnectionLost) => Some(
            (SupervisorState::Backoff, SupervisorAction::Sleep(backoff)),
        ),
        (SupervisorState::Backoff, SupervisorEvent::BackoffElapsed) => Some(
            (SupervisorState::Connecting, SupervisorAction::Connect),
        ),
        _ => None,
    }
}

/// The state of a supervisor that started in `state` and was told `events`
/// in turn, and the actions it asked for. An event that cannot occur in the
/// state it meets changes nothing and asks for nothing.
pub open spec fn run(state: SupervisorState, backoff: Duration, events: Seq<SupervisorEvent>) -> (
    SupervisorState,
    Seq<SupervisorAction>,
)
    decreases events.len(),
{
    if events.len() == 0 {
        (state, Seq::empty())
    } else {
        let before = run(state, backoff, events.drop_last());
        match reaction(before.0, events.last(), backoff) {
            Some((next, action)) => (next, before.1.push(action)),
            None => before,
        }
    }
}

/// The events of `rounds` connection attempts that all fail, each followed
/// by the end of its wait.
pub open spec fn failed_attempts(rounds: nat) -> Seq<SupervisorEvent>
    decreases rounds,
{
    if rounds == 0 {
        Seq::empty()
    } else {
        failed_attempts((rounds - 1) as nat).push(SupervisorEvent::ConnectFailed).push(
            SupervisorEvent::BackoffElapsed,
        )
    }
}

/// `rounds` times: wait for `backoff`, then connect.
pub open spec fn retries(backoff: Duration, rounds: nat) -> Seq<SupervisorAction>
    decreases rounds,
{
    if rounds == 0 {
        Seq::empty()
    } else {
        retries(backoff, (rounds - 1) as nat).push(SupervisorAction::Sleep(backoff)).push(
            SupervisorAction::Connect,
        )
    }
}

/// Owns the life of the component connection.
#[derive(Debug)]
pub struct ConnectionSupervisor {
    state: SupervisorState,
    backoff: Duration,
}

impl ConnectionSupervisor {
    /// Where the supervisor stands.
    pub closed spec fn spec_state(&self) -> SupervisorState {
        self.state
    }

    /// How long the supervisor waits between attempts.
    pub closed spec fn spec_backoff(&self) -> Duration {
        self.backoff
    }

    /// A supervisor that has not started and will wait `backoff` after each
    /// failure.
    pub fn new(backoff: Duration) -> (supervisor: Self)
        ensures
            supervisor.spec_state() == SupervisorState::Idle,
            supervisor.spec_backoff() == backoff,
    {
        Self { state: SupervisorState::Idle, backoff }
    }

    /// Where the supervisor stands.
    pub fn state(&self) -> (state: SupervisorState)
        ensures
            state == self.spec_state(),
    {
        self.state
    }

    /// How long the supervisor waits between attempts.
    pub fn backoff(&self) -> (backoff: Duration)
        ensures
            backoff == self.spec_backoff(),
    {
        self.backoff
    }

    /// Takes note of `event` and says what to do next. An event that cannot
    /// occur in the present state changes nothing and gives `None`.
    pub fn handle(&mut self, event: SupervisorEvent) -> (action: Option<SupervisorAction>)
        ensures
            final(self).spec_backoff() == old(self).spec_backoff(),
            match reaction(old(self).spec_state(), event, old(self).spec_backoff()) {
                Some((next, wanted)) => final(self).spec_state() == next && action == Some(wanted),
                None => final(self).spec_state() == old(self).spec_state() && action is None,
            },
    {
        let (next, action) = match (self.state, event) {
            (SupervisorState::Idle, SupervisorEvent::Start) => (
                SupervisorState::Connecting,
                SupervisorAction::Connect,
            ),
            (SupervisorState::Connecting, SupervisorEvent::Connected) => (
                SupervisorState::Running,
                SupervisorAction::RunMessageLoop,
            ),
            (SupervisorState::Connecting, SupervisorEvent::ConnectFailed)
            | (SupervisorState::Running, SupervisorEvent::ConnectionLost) => (
                SupervisorState::Backoff,
                SupervisorAction::Sleep(self.backoff),
            ),
            (SupervisorState::Backoff, SupervisorEvent::BackoffElapsed) => (
                SupervisorState::Connecting,
                SupervisorAction::Connect,
            ),
            _ => {
                return None;
            },
        };
        self.state = next;
        Some(action)
    }
}

/// No state is final: in every state some event leads on.
pub proof fn lemma_no_state_is_final(state: SupervisorState, backoff: Duration)
    ensures
        exists|event: SupervisorEvent| reaction(state, event, backoff) is Some,
{
    match state {
        SupervisorState::Idle => {
            assert(reaction(state, SupervisorEvent::Start, backoff) is Some);
        },
        SupervisorState::Connecting => {
            assert(reaction(state, SupervisorEvent::ConnectFailed, backoff) is Some);
        },
        SupervisorState::Running => {
            assert(reaction(state, SupervisorEvent::ConnectionLost, backoff) is Some);
        },
        SupervisorState::Backoff => {
            assert(reaction(state, SupervisorEvent::BackoffElapsed, backoff) is Some);
        },
    }
}

/// A failure never ends the service: a failed attempt and a lost connection
/// both lead to the wait, for exactly the configured time, and the end of
/// the wait leads to the next attempt.
pub proof fn lemma_failure_leads_to_retry(backoff: Duration)
    ensures
        reaction(SupervisorState::Connecting, SupervisorEvent::ConnectFailed, backoff) == Some(
            (SupervisorState::Backoff, SupervisorAction::Sleep(backoff)),
        ),
        reaction(SupervisorState::Running, SupervisorEvent::ConnectionLost, backoff) == Some(
            (SupervisorState::Backoff, SupervisorAction::Sleep(backoff)),
        ),
        reaction(SupervisorState::Backoff, SupervisorEvent::BackoffElapsed, backoff) == Some(
            (SupervisorState::Connecting, SupervisorAction::Connect),
        ),
{
}

/// While every attempt fails the supervisor goes on trying: after the start
/// and any number of failed attempts it is connecting again, and between two
/// attempts it has asked for one wait of exactly the configured time.
pub proof fn lemma_retries_while_connect_fails(backoff: Duration, rounds: nat)
    ensures
        run(SupervisorState::Connecting, backoff, failed_attempts(rounds)) == (
            SupervisorState::Connecting,
            retries(backoff, rounds),
        ),
        run(
            SupervisorState::Idle,
            backoff,
            seq![SupervisorEvent::Start] + failed_attempts(rounds),
        ) == (SupervisorState::Connecting, seq![SupervisorAction::Connect] + retries(backoff, rounds)),
    decreases rounds,
{
    let start = seq![SupervisorEvent::Start];
    let connect = seq![SupervisorAction::Connect];
    if rounds == 0 {
        assert(failed_attempts(0) =~= Seq::empty());
        assert(start + failed_attempts(0) =~= start);
        assert(start.drop_last() =~= Seq::empty());
        assert(run(SupervisorState::Idle, backoff, start.drop_last()) == (
            SupervisorState::Idle,
            Seq::<SupervisorAction>::empty(),
        ));
        assert(run(SupervisorState::Idle, backoff, start).1 =~= connect);
        assert(connect + retries(backoff, 0) =~= connect);
    } else {
        let fewer = failed_attempts((rounds - 1) as nat);
        let failed = fewer.push(SupervisorEvent::ConnectFailed);
        let all = failed.push(SupervisorEvent::BackoffElapsed);
        lemma_retries_while_connect_fails(backoff, (rounds - 1) as nat);
        assert(all.drop_last() =~= failed);
        assert(failed.drop_last() =~= fewer);
        assert(run(SupervisorState::Connecting, backoff, failed).0 == SupervisorState::Backoff);

        let events = start + all;
        assert(events.drop_last() =~= start + failed);
        assert((start + failed).drop_last() =~= start + fewer);
        assert(events.last() == SupervisorEvent::BackoffElapsed);
        assert((start + failed).last() == SupervisorEvent::ConnectFailed);
        assert(run(SupervisorState::Idle, backoff, start + failed).0 == SupervisorState::Backoff);
        assert(run(SupervisorState::Idle, backoff, events).1 =~= connect + retries(backoff, rounds));
    }
}

/// Whatever is reported to it, the supervisor asks for no wait but the
/// configured one.
pub proof fn lemma_every_wait_is_the_backoff(
    state: SupervisorState,
    backoff: Duration,
    events: Seq<SupervisorEvent>,
    i: int,
)
    requires
        0 <= i < run(state, backoff, events).1.len(),
        run(state, backoff, events).1[i] is Sleep,
    ensures
        run(state, backoff, events).1[i] == SupervisorAction::Sleep(backoff),
    decreases events.len(),
{
    if events.len() > 0 {
        let before = run(state, backoff, events.drop_last());
        if i < before.1.len() {
            lemma_every_wait_is_the_backoff(state, backoff, events.drop_last(), i);
        }
    }
}

/// Whether `event` reports what came of carrying out `action`: a connection
/// attempt succeeds or fails, a message loop ends with the loss of its
/// connection, and a wait ends.
pub open spec fn answers(action: SupervisorAction, event: SupervisorEvent) -> bool {
    match action {
        SupervisorAction::Connect => event == SupervisorEvent::Connected || event
            == SupervisorEvent::ConnectFailed,
        SupervisorAction::RunMessageLoop => event == SupervisorEvent::ConnectionLost,
        SupervisorAction::Sleep(_) => event == SupervisorEvent::BackoffElapsed,
    }
}

/// The supervisor never comes to a stop: whatever comes of the action it
/// asked for, it knows what to ask for next.
pub proof fn lemma_supervisor_goes_on(
    state: SupervisorState,
    event: SupervisorEvent,
    backoff: Duration,
    answer: SupervisorEvent,
)
    requires
        reaction(state, event, backoff) matches Some((next, action)) && answers(action, answer),
    ensures
        reaction(state, event, backoff) matches Some((next, action)) && reaction(
            next,
            answer,
            backoff,
        ) is Some,
{
}

/// One connection at a time: while the message loop runs, the supervisor
/// takes note of nothing but the loss of the connection, and it asks for a
/// new connection only at the start and after a wait.
pub proof fn lemma_one_connection_at_a_time(
    state: SupervisorState,
    event: SupervisorEvent,
    backoff: Duration,
)
    ensures
        state == SupervisorState::Running && event != SupervisorEvent::ConnectionLost ==> reaction(
            state,
            event,
            backoff,
        ) is None,
        reaction(state, event, backoff) matches Some((next, action)) ==> {
            &&& action == SupervisorAction::Connect <==> next == SupervisorState::Connecting
            &&& action == SupervisorAction::Connect ==> state == SupervisorState::Idle || state
                == SupervisorState::Backoff
            &&& action == SupervisorAction::RunMessageLoop <==> next == SupervisorState::Running
            &&& action == SupervisorAction::RunMessageLoop ==> state == SupervisorState::Connecting
            &&& action is Sleep <==> next == SupervisorState::Backoff
            &&& next != SupervisorState::Idle
        },
{
}

} // verus!
