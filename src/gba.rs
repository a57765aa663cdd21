//! The emulation session and its runner loop.
use crate::engine::Engine;
use crate::config::GbaConfig;
use crate::message::{any_steers, steers, CommandQueue, Message, MessageChannel};
use crate::notification::{EventLog, Notification, NotificationChannel};
use crate::shared::{Frame, GbaSharedData};
use crate::state::{
    engine_calls_after, engine_calls_for, lemma_exited_is_terminal, lemma_messages_append,
    lemma_reset_then_run, lemma_single_message, next_state, notification_for, notifications_after,
    option_seq, state_after, transition, EngineCall, RunState,
};
use crate::sync::{lock, replace_locked, wait_while};
use crate::CYCLES_PER_FRAME;
use std::sync::atomic::{AtomicBool, Ordering};
use std::sync::{Condvar, Mutex};
use vstd::prelude::*;

verus! {

/// One emulation session: the message queue, the notification log, the published
/// frame and the pause request flag. Foreground threads reach them through the
/// handles this hands out; a single runner, on a thread of its own, consumes the
/// messages and drives the engine. Each of the three locks is only ever held for
/// one enqueue, pop or copy, and never while another is taken.
pub struct Gba {
    pub(crate) commands: Mutex<CommandQueue>,
    pub(crate) command_ready: Condvar,
    pub(crate) events: Mutex<EventLog>,
    pub(crate) event_ready: Condvar,
    pub(crate) framebuffer: Mutex<Frame>,
    pub(crate) request_pause: AtomicBool,
}

/// What one pass of the runner loop did.
#[derive(Copy, Clone, Debug, PartialEq, Eq, Structural)]
pub enum Pass {
    /// The runner exited: the loop is over.
    Exited,
    /// The engine is not running: the next pass sleeps until a message arrives.
    Idle,
    /// A pause was requested through the flag and applied.
    PauseRequested,
    /// The engine advanced by one frame and the frame was published.
    Advanced,
}

impl Gba {
    /// A session with empty queues, a blank frame and no pause request.
    pub fn new() -> Self {
        Gba {
            commands: Mutex::new(CommandQueue::new()),
            command_ready: Condvar::new(),
            events: Mutex::new(EventLog::new()),
            event_ready: Condvar::new(),
            framebuffer: Mutex::new(Frame::blank()),
            request_pause: AtomicBool::new(false),
        }
    }

    /// A producer handle on the message queue and a reader of the notifications.
    pub fn channels(&self) -> (MessageChannel<'_>, NotificationChannel<'_>) {
        (MessageChannel::from(self), NotificationChannel::from(self))
    }

    /// A reader of the published frame.
    pub fn shared_data(&self) -> GbaSharedData<'_> {
        GbaSharedData::from(self)
    }

    /// The runner of this session, driving `engine`. Messages are meant for a
    /// single consumer: make one runner per session.
    pub fn runner<E: Engine>(&self, engine: E) -> (r: GbaRunner<'_, E>)
        ensures
            r@ == (RunnerView {
                state: RunState::Uninitialized,
                engine_calls: engine.calls(),
                published: Seq::empty(),
            }),
    {
        GbaRunner {
            engine,
            state: RunState::Uninitialized,
            published: Ghost(Seq::empty()),
            gba: self,
            notifications: NotificationChannel::from(self),
            frame: GbaSharedData::from(self),
        }
    }

    /// Asks the runner to pause, without taking any lock or allocating, so that
    /// a signal handler may call it. The runner sees it at its next pass.
    pub fn request_pause(&self) {
        self.request_pause.store(true, Ordering::SeqCst);
    }

    /// Clears the pause request flag, and tells whether it was set.
    fn take_pause_request(&self) -> bool {
        self.request_pause.swap(false, Ordering::SeqCst)
    }

    /// Takes every queued message out of the queue, oldest first.
    fn take_messages(&self) -> CommandQueue {
        let mut guard = lock(&self.commands);
        replace_locked(&mut guard, CommandQueue::new())
    }

    /// Blocks until the queue holds a message.
    fn wait_for_message(&self) {
        let guard = lock(&self.commands);
        let _guard = wait_while(
            &self.command_ready,
            guard,
            |queue: &mut CommandQueue| queue.is_empty(),
        );
    }
}

/// The runner as mathematical values: its run state, every call it has made
/// into the engine, and every notification it has published, oldest first.
pub ghost struct RunnerView {
    pub state: RunState,
    pub engine_calls: Seq<EngineCall>,
    pub published: Seq<Notification>,
}

/// What one pass of the runner does, when it starts as `v`, applies the
/// messages `ms` it found queued, reads `flag` from the pause request flag
/// (false where the pass does not read it), and returns `r`, leaving the runner
/// as `w`. A running pass pauses exactly when the flag was set and no `Run` or
/// `Pause` was queued; otherwise it advances one frame.
pub open spec fn pass_effect(
    v: RunnerView,
    ms: Seq<Message>,
    flag: bool,
    r: Pass,
    w: RunnerView,
) -> bool {
    let t = state_after(v.state, ms);
    let calls = v.engine_calls + engine_calls_after(v.state, ms);
    let published = v.published + notifications_after(v.state, ms);
    match r {
        Pass::Exited => t is Exited && w == RunnerView { state: t, engine_calls: calls, published },
        Pass::Idle => (t is Paused || t is Uninitialized) && w == RunnerView {
            state: t,
            engine_calls: calls,
            published,
        },
        Pass::PauseRequested => flag && !any_steers(ms) && t is Running && w == RunnerView {
            state: RunState::Paused,
            engine_calls: calls,
            published: published.push(Notification::Pause),
        },
        Pass::Advanced => !(flag && !any_steers(ms)) && t is Running && w == RunnerView {
            state: t,
            engine_calls: calls.push(EngineCall::Advance(CYCLES_PER_FRAME as u64)),
            published,
        },
    }
}

/// A pass that finds an `Exit` among the queued messages ends the loop, and
/// the engine does not advance in it.
pub proof fn lemma_exit_stops_the_engine(
    v: RunnerView,
    ms: Seq<Message>,
    i: int,
    flag: bool,
    r: Pass,
    w: RunnerView,
)
    requires
        0 <= i < ms.len(),
        ms[i] is Exit,
        pass_effect(v, ms, flag, r, w),
    ensures
        r is Exited,
        w.state is Exited,
        w.engine_calls == v.engine_calls + engine_calls_after(v.state, ms),
{
    let head = ms.subrange(0, i);
    let tail = ms.subrange(i, ms.len() as int);
    assert(ms =~= head + tail);
    lemma_messages_append(v.state, head, tail);
    assert(tail =~= seq![ms[i]] + tail.drop_first());
    lemma_messages_append(state_after(v.state, head), seq![ms[i]], tail.drop_first());
    lemma_single_message(state_after(v.state, head), ms[i]);
    lemma_exited_is_terminal(tail.drop_first());
}

/// A pass that finds a reset then a run queued, with the engine not yet
/// running, hands the configuration to the engine before it advances: the
/// engine calls of the pass are the reset, then one frame, and it publishes
/// `Reset` then `Run`, once each.
pub proof fn lemma_reset_applies_before_advance(
    v: RunnerView,
    config: GbaConfig,
    flag: bool,
    r: Pass,
    w: RunnerView,
)
    requires
        v.state is Uninitialized || v.state is Paused,
        pass_effect(v, seq![Message::Reset(config), Message::Run], flag, r, w),
    ensures
        r is Advanced,
        w.state is Running,
        w.engine_calls == v.engine_calls + seq![
            EngineCall::Reset(config),
            EngineCall::Advance(CYCLES_PER_FRAME as u64),
        ],
        w.published == v.published + seq![Notification::Reset, Notification::Run],
{
    let ms = seq![Message::Reset(config), Message::Run];
    lemma_reset_then_run(v.state, config);
    assert(ms =~= seq![Message::Reset(config)] + seq![Message::Run]);
    lemma_messages_append(v.state, seq![Message::Reset(config)], seq![Message::Run]);
    lemma_single_message(v.state, Message::Reset(config));
    lemma_single_message(RunState::Paused, Message::Run);
    assert(seq![EngineCall::Reset(config)] + Seq::<EngineCall>::empty() =~= seq![
        EngineCall::Reset(config),
    ]);
    assert((v.engine_calls + seq![EngineCall::Reset(config)]).push(
        EngineCall::Advance(CYCLES_PER_FRAME as u64),
    ) =~= v.engine_calls + seq![
        EngineCall::Reset(config),
        EngineCall::Advance(CYCLES_PER_FRAME as u64),
    ]);
}

/// A pause asked of a running engine, by a queued `Pause` or by the pause
/// request flag in a pass with nothing queued, takes one pass: the pass does
/// not advance, leaves the engine paused, and publishes exactly one `Pause` and
/// nothing else.
pub proof fn lemma_pause_takes_one_pass(
    v: RunnerView,
    ms: Seq<Message>,
    flag: bool,
    r: Pass,
    w: RunnerView,
)
    requires
        v.state is Running,
        ms == seq![Message::Pause] || (ms.len() == 0 && flag),
        pass_effect(v, ms, flag, r, w),
    ensures
        r is Idle || r is PauseRequested,
        ms.len() == 0 ==> r is PauseRequested,
        w.state is Paused,
        w.published == v.published.push(Notification::Pause),
        w.engine_calls == v.engine_calls,
{
    if ms.len() > 0 {
        lemma_single_message(v.state, Message::Pause);
        assert(steers(ms[0]));
        assert(v.published + seq![Notification::Pause] =~= v.published.push(Notification::Pause));
    } else {
        assert(!any_steers(ms));
        assert(v.published + Seq::<Notification>::empty() =~= v.published);
    }
    assert(v.engine_calls + Seq::<EngineCall>::empty() =~= v.engine_calls);
}

/// The runner loop: owns the engine, applies messages, paces the engine one
/// frame per pass, and publishes notifications and frames.
pub struct GbaRunner<'a, E: Engine> {
    engine: E,
    state: RunState,
    published: Ghost<Seq<Notification>>,
    gba: &'a Gba,
    notifications: NotificationChannel<'a>,
    frame: GbaSharedData<'a>,
}

impl<'a, E: Engine> View for GbaRunner<'a, E> {
    type V = RunnerView;

    closed spec fn view(&self) -> RunnerView {
        RunnerView { state: self.state, engine_calls: self.engine.calls(), published: self.published@ }
    }
}

impl<'a, E: Engine> GbaRunner<'a, E> {
    pub fn state(&self) -> (r: RunState)
        ensures
            r == self@.state,
    {
        self.state
    }

    /// Whether the runner has not exited yet.
    pub fn is_running(&self) -> (r: bool)
        ensures
            r == !(self@.state is Exited),
    {
        self.state.is_live()
    }

    /// The engine the runner drives.
    pub fn engine(&self) -> &E {
        &self.engine
    }

    /// Applies one message: a reset or a key goes to the engine, the run state
    /// moves, and the notification for the move, if any, is published and returned.
    /// Once exited, the runner ignores every message.
    pub fn process_event(&mut self, msg: Message) -> (r: Option<Notification>)
        ensures
            r == notification_for(old(self)@.state, msg),
            final(self)@ == (RunnerView {
                state: next_state(old(self)@.state, msg),
                engine_calls: old(self)@.engine_calls + engine_calls_for(old(self)@.state, msg),
                published: old(self)@.published + option_seq(r),
            }),
    {
        let ghost calls0 = self.engine.calls();
        let (next, notification) = transition(self.state, &msg);
        self.published = Ghost(self.published@ + option_seq(notification));
        if self.state.is_live() {
            match msg {
                Message::Reset(config) => {
                    self.engine.reset(config);
                    assert(self.engine.calls() =~= calls0 + seq![EngineCall::Reset(config)]);
                },
                Message::Key { key, pressed } => {
                    self.engine.set_key(key, pressed);
                    assert(self.engine.calls() =~= calls0 + seq![EngineCall::SetKey(key, pressed)]);
                },
                _ => {
                    assert(self.engine.calls() =~= calls0 + Seq::<EngineCall>::empty());
                },
            }
        } else {
            assert(self.engine.calls() =~= calls0 + Seq::<EngineCall>::empty());
        }
        self.state = next;
        if let Some(n) = notification {
            self.notifications.send(n);
        }
        notification
    }

    /// Applies the queued messages in order, and returns what was published. The
    /// messages behind an `Exit` are dropped unapplied.
    pub fn process_all(&mut self, queue: CommandQueue) -> (r: Vec<Notification>)
        ensures
            r@ == notifications_after(old(self)@.state, queue@),
            final(self)@ == (RunnerView {
                state: state_after(old(self)@.state, queue@),
                engine_calls: old(self)@.engine_calls + engine_calls_after(old(self)@.state, queue@),
                published: old(self)@.published + r@,
            }),
    {
        let ghost s0 = self.state;
        let ghost calls0 = self.engine.calls();
        let ghost published0 = self.published@;
        let ghost all = queue@;
        let total = queue.len();
        let mut queue = queue;
        let mut published: Vec<Notification> = Vec::new();
        let mut done: usize = 0;
        while !queue.is_empty() && self.state.is_live()
            invariant
                total == all.len(),
                done <= all.len(),
                queue@ == all.subrange(done as int, all.len() as int),
                self.state == state_after(s0, all.subrange(0, done as int)),
                published@ == notifications_after(s0, all.subrange(0, done as int)),
                self.engine.calls() == calls0 + engine_calls_after(s0, all.subrange(0, done as int)),
                self.published@ == published0 + published@,
            decreases queue@.len(),
        {
            let ghost before = all.subrange(0, done as int);
            let ghost s = self.state;
            if let Some(msg) = queue.pop() {
                proof {
                    assert(msg == all[done as int]);
                    let one = seq![msg];
                    assert(all.subrange(0, done + 1) =~= before + one);
                    lemma_messages_append(s0, before, one);
                    lemma_single_message(s, msg);
                }
                let ghost calls1 = self.engine.calls();
                let ghost published1 = published@;
                if let Some(n) = self.process_event(msg) {
                    published.push(n);
                    proof {
                        assert(published0 + published1 + seq![n] =~= published0 + published@);
                    }
                } else {
                    proof {
                        assert(published@ + Seq::<Notification>::empty() =~= published@);
                        assert(published0 + published1 + Seq::<Notification>::empty() =~= published0
                            + published@);
                    }
                }
                done = done + 1;
                proof {
                    assert(queue@ =~= all.subrange(done as int, all.len() as int));
                    assert(calls1 + engine_calls_for(s, msg) =~= calls0 + engine_calls_after(
                        s0,
                        all.subrange(0, done as int),
                    ));
                }
            }
        }
        proof {
            let rest = all.subrange(done as int, all.len() as int);
            assert(all =~= all.subrange(0, done as int) + rest);
            lemma_messages_append(s0, all.subrange(0, done as int), rest);
            let done_calls = engine_calls_after(s0, all.subrange(0, done as int));
            if queue@.len() == 0 {
                assert(rest =~= Seq::<Message>::empty());
            } else {
                lemma_exited_is_terminal(rest);
            }
            assert(published@ + Seq::<Notification>::empty() =~= published@);
            assert(done_calls + Seq::<EngineCall>::empty() =~= done_calls);
        }
        published
    }

    /// Applies the pause request flag's value to a running runner: a set flag
    /// pauses it, publishing one `Pause`, with no engine call; a clear one
    /// changes nothing. Returns whether it paused.
    pub fn apply_pause_request(&mut self, pause_requested: bool) -> (r: bool)
        requires
            old(self)@.state is Running,
        ensures
            r == pause_requested,
            r ==> final(self)@ == (RunnerView {
                state: RunState::Paused,
                published: old(self)@.published.push(Notification::Pause),
                ..old(self)@
            }),
            !r ==> final(self)@ == old(self)@,
    {
        if pause_requested {
            let ghost before = self@;
            self.process_event(Message::Pause);
            proof {
                assert(before.engine_calls + Seq::<EngineCall>::empty() =~= before.engine_calls);
                assert(before.published + seq![Notification::Pause] =~= before.published.push(
                    Notification::Pause,
                ));
            }
        }
        pause_requested
    }

    /// One pass of the runner loop:
    /// 1. if the engine is not running, the pause request flag is cleared (the
    ///    engine is stopped already) and the pass sleeps until a message is queued;
    /// 2. every queued message is applied, in order; if the engine is then not
    ///    running, the pass ends;
    /// 3. if no `Run` or `Pause` came in this pass and the flag is set, it is
    ///    cleared and a pause is applied: an explicit `Run` or `Pause` takes
    ///    precedence, and the flag then waits for the next pass;
    /// 4. otherwise the engine advances by one frame's cycles and its frame is
    ///    published.
    ///
    /// The engine advances only when the pass returns `Advanced`, which it does
    /// only with the engine running: after an `Exit` it never advances again.
    pub fn run_once(&mut self) -> (r: Pass)
        ensures
            old(self)@.state is Exited ==> r is Exited && final(self)@ == old(self)@,
            r is Exited <==> final(self)@.state is Exited,
            exists|ms: Seq<Message>, flag: bool|
                #[trigger] pass_effect(old(self)@, ms, flag, r, final(self)@),
    {
        let ghost v0 = self@;
        match self.state {
            RunState::Exited => {
                proof {
                    assert(pass_effect(v0, Seq::empty(), false, Pass::Exited, self@));
                }
                return Pass::Exited;
            },
            RunState::Paused | RunState::Uninitialized => {
                let _ = self.gba.take_pause_request();
                self.gba.wait_for_message();
            },
            RunState::Running => {},
        }
        let queue = self.gba.take_messages();
        let ghost batch = queue@;
        let steered = queue.has_run_or_pause();
        self.process_all(queue);
        match self.state {
            RunState::Exited => {
                proof {
                    assert(pass_effect(v0, batch, false, Pass::Exited, self@));
                }
                return Pass::Exited;
            },
            RunState::Paused | RunState::Uninitialized => {
                proof {
                    assert(pass_effect(v0, batch, false, Pass::Idle, self@));
                }
                return Pass::Idle;
            },
            RunState::Running => {},
        }
        let requested = !steered && self.gba.take_pause_request();
        if self.apply_pause_request(requested) {
            proof {
                assert(pass_effect(v0, batch, requested, Pass::PauseRequested, self@));
            }
            return Pass::PauseRequested;
        }
        self.engine.advance(CYCLES_PER_FRAME as u64);
        proof {
            assert(pass_effect(v0, batch, requested, Pass::Advanced, self@));
        }
        let frame = self.engine.framebuffer();
        self.frame.publish(Frame::from_bytes(frame));
        Pass::Advanced
    }
}

} // verus!
