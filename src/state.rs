//! The run-state machine: how each message moves the runner's state, and which
//! notification each move publishes.
use crate::config::GbaConfig;
use crate::message::{Key, Message};
use crate::notification::Notification;
use vstd::prelude::*;

verus! {

/// The run state of the engine, owned by the runner.
#[derive(Copy, Clone, Debug, PartialEq, Eq, Structural)]
pub enum RunState {
    /// No configuration has been loaded yet.
    Uninitialized,
    /// Loaded, not advancing.
    Paused,
    /// Advancing one frame per pass of the runner loop.
    Running,
    /// Terminal: the runner loop has returned.
    Exited,
}

/// The state after `message` is applied in state `s`. A reset loads the engine:
/// from `Uninitialized` it leaves it paused, and otherwise keeps the run state
/// until a `Run` or `Pause` settles it. Nothing leaves `Exited`.
pub open spec fn next_state(s: RunState, message: Message) -> RunState {
    if s is Exited {
        RunState::Exited
    } else {
        match message {
            Message::Exit => RunState::Exited,
            Message::Reset(_) => if s is Uninitialized {
                RunState::Paused
            } else {
                s
            },
            Message::Run => RunState::Running,
            Message::Pause => RunState::Paused,
            Message::Key { .. } => s,
        }
    }
}

/// The notification published when `message` is applied in state `s`: one per
/// reset, and one per actual change into or out of `Running`.
pub open spec fn notification_for(s: RunState, message: Message) -> Option<Notification> {
    if s is Exited {
        None
    } else {
        match message {
            Message::Reset(_) => Some(Notification::Reset),
            Message::Run => if s is Running {
                None
            } else {
                Some(Notification::Run)
            },
            Message::Pause => if s is Paused {
                None
            } else {
                Some(Notification::Pause)
            },
            _ => None,
        }
    }
}

/// A call the runner makes into the engine.
pub ghost enum EngineCall {
    Reset(GbaConfig),
    Advance(u64),
    SetKey(Key, bool),
}

/// The engine calls made when `message` is applied in state `s`: a reset hands
/// over its configuration and a key its edge, in any live state.
pub open spec fn engine_calls_for(s: RunState, message: Message) -> Seq<EngineCall> {
    if s is Exited {
        Seq::empty()
    } else {
        match message {
            Message::Reset(config) => seq![EngineCall::Reset(config)],
            Message::Key { key, pressed } => seq![EngineCall::SetKey(key, pressed)],
            _ => Seq::empty(),
        }
    }
}

/// The engine calls made while the messages `ms` are applied, starting in `s`.
pub open spec fn engine_calls_after(s: RunState, ms: Seq<Message>) -> Seq<EngineCall>
    decreases ms.len(),
{
    if ms.len() == 0 {
        Seq::empty()
    } else {
        engine_calls_for(s, ms[0]) + engine_calls_after(next_state(s, ms[0]), ms.drop_first())
    }
}

/// The notification, if any, as a sequence of zero or one.
pub open spec fn option_seq(n: Option<Notification>) -> Seq<Notification> {
    match n {
        Some(n) => seq![n],
        None => Seq::empty(),
    }
}

/// The state after the messages `ms` are applied in order, starting in `s`.
pub open spec fn state_after(s: RunState, ms: Seq<Message>) -> RunState
    decreases ms.len(),
{
    if ms.len() == 0 {
        s
    } else {
        state_after(next_state(s, ms[0]), ms.drop_first())
    }
}

/// The notifications published while the messages `ms` are applied, starting in `s`.
pub open spec fn notifications_after(s: RunState, ms: Seq<Message>) -> Seq<Notification>
    decreases ms.len(),
{
    if ms.len() == 0 {
        Seq::empty()
    } else {
        option_seq(notification_for(s, ms[0])) + notifications_after(
            next_state(s, ms[0]),
            ms.drop_first(),
        )
    }
}

/// The state after `message` in state `s`, with the notification to publish.
pub fn transition(s: RunState, message: &Message) -> (r: (RunState, Option<Notification>))
    ensures
        r.0 == next_state(s, *message),
        r.1 == notification_for(s, *message),
{
    if let RunState::Exited = s {
        return (RunState::Exited, None);
    }
    match message {
        Message::Exit => (RunState::Exited, None),
        Message::Reset(_) => {
            let next = if let RunState::Uninitialized = s {
                RunState::Paused
            } else {
                s
            };
            (next, Some(Notification::Reset))
        },
        Message::Run => {
            if let RunState::Running = s {
                (s, None)
            } else {
                (RunState::Running, Some(Notification::Run))
            }
        },
        Message::Pause => {
            if let RunState::Paused = s {
                (s, None)
            } else {
                (RunState::Paused, Some(Notification::Pause))
            }
        },
        Message::Key { .. } => (s, None),
    }
}

/// Applying a single message is one step of the machine.
pub proof fn lemma_single_message(s: RunState, m: Message)
    ensures
        state_after(s, seq![m]) == next_state(s, m),
        notifications_after(s, seq![m]) == option_seq(notification_for(s, m)),
        engine_calls_after(s, seq![m]) == engine_calls_for(s, m),
{
    reveal_with_fuel(state_after, 2);
    reveal_with_fuel(notifications_after, 2);
    reveal_with_fuel(engine_calls_after, 2);
    let ms = seq![m];
    assert(ms.drop_first() =~= Seq::<Message>::empty());
    assert(engine_calls_for(s, m) + Seq::<EngineCall>::empty() =~= engine_calls_for(s, m));
    assert(option_seq(notification_for(s, m)) + Seq::<Notification>::empty() =~= option_seq(
        notification_for(s, m),
    ));
}

/// Applying two runs of messages one after the other is applying them joined.
pub proof fn lemma_messages_append(s: RunState, a: Seq<Message>, b: Seq<Message>)
    ensures
        state_after(s, a + b) == state_after(state_after(s, a), b),
        notifications_after(s, a + b) == notifications_after(s, a) + notifications_after(
            state_after(s, a),
            b,
        ),
        engine_calls_after(s, a + b) == engine_calls_after(s, a) + engine_calls_after(
            state_after(s, a),
            b,
        ),
    decreases a.len(),
{
    if a.len() == 0 {
        assert(a + b =~= b);
        assert(Seq::<EngineCall>::empty() + engine_calls_after(s, b) =~= engine_calls_after(s, b));
        assert(Seq::<Notification>::empty() + notifications_after(s, b) =~= notifications_after(
            s,
            b,
        ));
    } else {
        assert((a + b).drop_first() =~= a.drop_first() + b);
        lemma_messages_append(next_state(s, a[0]), a.drop_first(), b);
        let head = option_seq(notification_for(s, a[0]));
        let t = next_state(s, a[0]);
        let calls = engine_calls_for(s, a[0]);
        assert(calls + (engine_calls_after(t, a.drop_first()) + engine_calls_after(
            state_after(t, a.drop_first()),
            b,
        )) =~= calls + engine_calls_after(t, a.drop_first()) + engine_calls_after(
            state_after(t, a.drop_first()),
            b,
        ));
        assert(head + (notifications_after(t, a.drop_first()) + notifications_after(
            state_after(t, a.drop_first()),
            b,
        )) =~= head + notifications_after(t, a.drop_first()) + notifications_after(
            state_after(t, a.drop_first()),
            b,
        ));
    }
}

/// `Exited` is terminal: no message leaves it, and none publishes anything or
/// reaches the engine there.
pub proof fn lemma_exited_is_terminal(ms: Seq<Message>)
    ensures
        state_after(RunState::Exited, ms) == RunState::Exited,
        notifications_after(RunState::Exited, ms) == Seq::<Notification>::empty(),
        engine_calls_after(RunState::Exited, ms) == Seq::<EngineCall>::empty(),
    decreases ms.len(),
{
    if ms.len() > 0 {
        lemma_exited_is_terminal(ms.drop_first());
        assert(Seq::<EngineCall>::empty() + Seq::<EngineCall>::empty() =~= Seq::<
            EngineCall,
        >::empty());
        assert(Seq::<Notification>::empty() + Seq::<Notification>::empty() =~= Seq::<
            Notification,
        >::empty());
    }
}

/// A second `Run` right after a first publishes nothing and changes nothing:
/// whatever came before, `Run` twice in a row has the effect of `Run` once.
pub proof fn lemma_run_is_idempotent(s: RunState, before: Seq<Message>)
    ensures
        state_after(s, before.push(Message::Run).push(Message::Run)) == state_after(
            s,
            before.push(Message::Run),
        ),
        notifications_after(s, before.push(Message::Run).push(Message::Run))
            == notifications_after(s, before.push(Message::Run)),
{
    let once = before.push(Message::Run);
    let run = seq![Message::Run];
    assert(once.push(Message::Run) =~= once + run);
    lemma_messages_append(s, once, run);
    let t = state_after(s, once);
    assert(once =~= before + run);
    lemma_messages_append(s, before, run);
    lemma_single_message(state_after(s, before), Message::Run);
    lemma_single_message(t, Message::Run);
    assert(t is Running || t is Exited);
    assert(notifications_after(t, run) =~= Seq::<Notification>::empty());
    assert(notifications_after(s, once) + Seq::<Notification>::empty() =~= notifications_after(
        s,
        once,
    ));
}

/// A reset followed by a run, from the start, loads the configuration, publishes
/// `Reset` then `Run` once each, and leaves the engine running.
pub proof fn lemma_reset_then_run(s: RunState, config: crate::config::GbaConfig)
    requires
        s is Uninitialized || s is Paused,
    ensures
        state_after(s, seq![Message::Reset(config), Message::Run]) == RunState::Running,
        notifications_after(s, seq![Message::Reset(config), Message::Run]) == seq![
            Notification::Reset,
            Notification::Run,
        ],
{
    let ms = seq![Message::Reset(config), Message::Run];
    assert(ms =~= seq![Message::Reset(config)] + seq![Message::Run]);
    lemma_messages_append(s, seq![Message::Reset(config)], seq![Message::Run]);
    lemma_single_message(s, Message::Reset(config));
    lemma_single_message(RunState::Paused, Message::Run);
    assert(seq![Notification::Reset] + seq![Notification::Run] =~= seq![
        Notification::Reset,
        Notification::Run,
    ]);
}

impl RunState {
    /// Whether the runner loop still has work to do.
    pub fn is_live(&self) -> (r: bool)
        ensures
            r == !(*self is Exited),
    {
        !matches!(self, RunState::Exited)
    }
}

} // verus!
