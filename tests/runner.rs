use hs_gba::state::EngineCall;
use hs_gba::{
    Debugger, Engine, Gba, GbaConfig, HeadlessEngine, Key, Message, Notification, Pass, ReplCommand, RunState,
    CYCLES_PER_FRAME, FRAMEBUFFER_LEN,
};

#[derive(Debug, Clone, PartialEq)]
enum Call {
    Reset(Vec<u8>),
    Advance(u64),
    Key(Key, bool),
}

/// An engine that logs its calls and fills each frame with its frame number.
/// Every operation is also handed to a headless engine, whose record of the
/// operations it received is the one this engine reports as its own.
struct LoggingEngine {
    inner: HeadlessEngine,
    calls: Vec<Call>,
    frames: u8,
}

impl Default for LoggingEngine {
    fn default() -> Self {
        LoggingEngine { inner: HeadlessEngine::new(), calls: Vec::new(), frames: 0 }
    }
}

impl LoggingEngine {
    fn advances(&self) -> usize {
        self.calls.iter().filter(|c| matches!(c, Call::Advance(_))).count()
    }
}

impl Engine for LoggingEngine {
    fn calls(&self) -> vstd::seq::Seq<EngineCall> {
        self.inner.calls()
    }

    fn reset(&mut self, config: GbaConfig) {
        self.calls.push(Call::Reset(config.rom().to_vec()));
        self.inner.reset(config);
    }

    fn advance(&mut self, cycles: u64) {
        self.calls.push(Call::Advance(cycles));
        self.frames = self.frames.wrapping_add(1);
        self.inner.advance(cycles);
    }

    fn set_key(&mut self, key: Key, pressed: bool) {
        self.calls.push(Call::Key(key, pressed));
        self.inner.set_key(key, pressed);
    }

    fn framebuffer(&self) -> Vec<u8> {
        vec![self.frames; FRAMEBUFFER_LEN]
    }
}

fn rom_config(rom: Vec<u8>) -> GbaConfig {
    let mut config = GbaConfig::new();
    config.with_rom(rom);
    config
}

#[test]
fn reset_then_run_applies_the_config_before_advancing() {
    let gba = Gba::new();
    let (messages, notifications) = gba.channels();
    let mut runner = gba.runner(LoggingEngine::default());
    assert_eq!(runner.state(), RunState::Uninitialized);

    messages.send(Message::Reset(rom_config(vec![7, 7])));
    messages.send(Message::Run);
    assert_eq!(runner.run_once(), Pass::Advanced);

    assert_eq!(
        runner.engine().calls,
        vec![Call::Reset(vec![7, 7]), Call::Advance(CYCLES_PER_FRAME as u64)]
    );
    notifications.wait();
    let popped = notifications.pop();
    assert_eq!(popped, vec![Notification::Reset, Notification::Run]);
    assert_eq!(popped.iter().filter(|n| **n == Notification::Run).count(), 1);
    assert_eq!(runner.state(), RunState::Running);
}

#[test]
fn exit_while_running_stops_before_the_next_advance() {
    let gba = Gba::new();
    let (messages, _notifications) = gba.channels();
    let mut runner = gba.runner(LoggingEngine::default());
    messages.send(Message::Reset(GbaConfig::new()));
    messages.send(Message::Run);
    assert_eq!(runner.run_once(), Pass::Advanced);
    assert_eq!(runner.run_once(), Pass::Advanced);
    let before = runner.engine().advances();
    assert_eq!(before, 2);

    messages.send(Message::Exit);
    assert_eq!(runner.run_once(), Pass::Exited);
    assert!(!runner.is_running());
    assert_eq!(runner.run_once(), Pass::Exited);
    assert_eq!(runner.engine().advances(), before);
}

#[test]
fn messages_behind_an_exit_are_dropped() {
    let gba = Gba::new();
    let (messages, notifications) = gba.channels();
    let mut runner = gba.runner(LoggingEngine::default());
    messages.send(Message::Run);
    messages.send(Message::Exit);
    messages.send(Message::Key { key: Key::A, pressed: true });
    messages.send(Message::Pause);
    assert_eq!(runner.run_once(), Pass::Exited);
    assert!(runner.engine().calls.is_empty());
    assert_eq!(notifications.pop(), vec![Notification::Run]);
    messages.send(Message::Run);
    assert_eq!(runner.run_once(), Pass::Exited);
}

#[test]
fn two_runs_in_a_row_publish_one_run() {
    let gba = Gba::new();
    let (messages, notifications) = gba.channels();
    let mut runner = gba.runner(LoggingEngine::default());
    messages.send(Message::Reset(GbaConfig::new()));
    messages.send(Message::Run);
    messages.send(Message::Run);
    assert_eq!(runner.run_once(), Pass::Advanced);
    messages.send(Message::Run);
    assert_eq!(runner.run_once(), Pass::Advanced);
    assert_eq!(notifications.pop(), vec![Notification::Reset, Notification::Run]);
}

#[test]
fn pause_message_publishes_one_pause() {
    let gba = Gba::new();
    let (messages, notifications) = gba.channels();
    let mut runner = gba.runner(LoggingEngine::default());
    messages.send(Message::Run);
    assert_eq!(runner.run_once(), Pass::Advanced);
    let _ = notifications.pop();

    messages.send(Message::Pause);
    messages.send(Message::Pause);
    messages.send(Message::Run);
    assert_eq!(runner.run_once(), Pass::Advanced);
    notifications.wait();
    assert_eq!(notifications.pop(), vec![Notification::Pause, Notification::Run]);
}

#[test]
fn pause_request_flag_pauses_at_the_next_pass() {
    let gba = Gba::new();
    let (messages, notifications) = gba.channels();
    let mut runner = gba.runner(LoggingEngine::default());
    messages.send(Message::Run);
    assert_eq!(runner.run_once(), Pass::Advanced);
    let _ = notifications.pop();

    gba.request_pause();
    assert_eq!(runner.run_once(), Pass::PauseRequested);
    assert_eq!(runner.state(), RunState::Paused);
    assert_eq!(runner.engine().advances(), 1);
    notifications.wait();
    assert_eq!(notifications.pop(), vec![Notification::Pause]);
}

#[test]
fn an_explicit_run_takes_precedence_over_the_flag() {
    let gba = Gba::new();
    let (messages, notifications) = gba.channels();
    let mut runner = gba.runner(LoggingEngine::default());
    messages.send(Message::Run);
    assert_eq!(runner.run_once(), Pass::Advanced);

    gba.request_pause();
    messages.send(Message::Run);
    assert_eq!(runner.run_once(), Pass::Advanced);
    assert_eq!(runner.run_once(), Pass::PauseRequested);
    assert_eq!(notifications.pop(), vec![Notification::Run, Notification::Pause]);
}

#[test]
fn key_messages_do_not_delay_a_requested_pause() {
    let gba = Gba::new();
    let (messages, notifications) = gba.channels();
    let mut runner = gba.runner(LoggingEngine::default());
    messages.send(Message::Run);
    assert_eq!(runner.run_once(), Pass::Advanced);
    let _ = notifications.pop();

    gba.request_pause();
    messages.send(Message::Key { key: Key::B, pressed: true });
    assert_eq!(runner.run_once(), Pass::PauseRequested);
    assert_eq!(runner.state(), RunState::Paused);
    assert_eq!(runner.engine().advances(), 1);
    assert_eq!(runner.engine().calls.last(), Some(&Call::Key(Key::B, true)));
    assert_eq!(notifications.pop(), vec![Notification::Pause]);
}

#[test]
fn a_pause_request_while_paused_is_absorbed() {
    let gba = Gba::new();
    let (messages, notifications) = gba.channels();
    let mut runner = gba.runner(LoggingEngine::default());
    messages.send(Message::Reset(GbaConfig::new()));
    messages.send(Message::Key { key: Key::L, pressed: true });
    gba.request_pause();
    assert_eq!(runner.run_once(), Pass::Idle);
    // Paused: the next pass clears the flag before it sleeps.
    messages.send(Message::Run);
    assert_eq!(runner.run_once(), Pass::Advanced);
    assert_eq!(runner.run_once(), Pass::Advanced);
    assert_eq!(notifications.pop(), vec![Notification::Reset, Notification::Run]);
}

#[test]
fn keys_reach_the_engine_in_any_state() {
    let gba = Gba::new();
    let (messages, _notifications) = gba.channels();
    let mut runner = gba.runner(LoggingEngine::default());
    messages.send(Message::Key { key: Key::Up, pressed: true });
    messages.send(Message::Reset(GbaConfig::new()));
    messages.send(Message::Key { key: Key::Up, pressed: false });
    messages.send(Message::Exit);
    assert_eq!(runner.run_once(), Pass::Exited);
    assert_eq!(
        runner.engine().calls,
        vec![Call::Key(Key::Up, true), Call::Reset(vec![]), Call::Key(Key::Up, false)]
    );
}

#[test]
fn pop_twice_hands_out_then_nothing() {
    let gba = Gba::new();
    let (messages, notifications) = gba.channels();
    let mut runner = gba.runner(LoggingEngine::default());
    messages.send(Message::Reset(GbaConfig::new()));
    messages.send(Message::Run);
    runner.run_once();
    assert!(!notifications.pop().is_empty());
    assert!(notifications.pop().is_empty());
}

#[test]
fn every_reader_sees_a_notification_until_it_is_popped() {
    let gba = Gba::new();
    let (messages, first) = gba.channels();
    let (_, second) = gba.channels();
    let mut runner = gba.runner(LoggingEngine::default());
    messages.send(Message::Run);
    runner.run_once();
    first.wait();
    second.wait();
    assert_eq!(second.pop(), vec![Notification::Run]);
    assert!(first.pop().is_empty());
}

#[test]
fn send_all_keeps_a_sequence_together() {
    let gba = Gba::new();
    let (messages, _notifications) = gba.channels();
    let mut runner = gba.runner(LoggingEngine::default());
    messages.send_all(vec![
        Message::Key { key: Key::A, pressed: true },
        Message::Key { key: Key::A, pressed: false },
    ]);
    messages.send(Message::Exit);
    assert_eq!(runner.run_once(), Pass::Exited);
    assert_eq!(runner.engine().calls, vec![Call::Key(Key::A, true), Call::Key(Key::A, false)]);
}

#[test]
fn frame_copy_is_one_whole_frame() {
    let gba = Gba::new();
    let (messages, _notifications) = gba.channels();
    let mut shared = gba.shared_data();
    let mut frame = vec![0xAAu8; FRAMEBUFFER_LEN];
    shared.copy_framebuffer_into(&mut frame);
    assert!(frame.iter().all(|b| *b == 0));

    let mut runner = gba.runner(LoggingEngine::default());
    messages.send(Message::Run);
    for expected in 1..=3u8 {
        assert_eq!(runner.run_once(), Pass::Advanced);
        shared.copy_framebuffer_into(&mut frame);
        assert!(frame.iter().all(|b| *b == expected));
    }
}

#[test]
fn producers_interleaved_keep_their_own_order() {
    let gba = Gba::new();
    let (first, _) = gba.channels();
    let (second, _) = gba.channels();
    let keys_a = [Key::A, Key::B, Key::L, Key::R, Key::Start];
    let keys_b = [Key::Up, Key::Down, Key::Left, Key::Right, Key::Select];
    let order = [true, false, false, true, true, false, true, false, false, true];
    let (mut i, mut j) = (0usize, 0usize);
    for from_first in order {
        if from_first {
            first.send(Message::Key { key: keys_a[i], pressed: true });
            i += 1;
        } else {
            second.send(Message::Key { key: keys_b[j], pressed: true });
            j += 1;
        }
    }
    first.send(Message::Exit);
    let mut runner = gba.runner(LoggingEngine::default());
    assert_eq!(runner.run_once(), Pass::Exited);
    let seen: Vec<Key> = runner
        .engine()
        .calls
        .iter()
        .filter_map(|c| if let Call::Key(k, _) = c { Some(*k) } else { None })
        .collect();
    assert_eq!(seen.len(), 10);
    let from_a: Vec<Key> = seen.iter().copied().filter(|k| keys_a.contains(k)).collect();
    let from_b: Vec<Key> = seen.iter().copied().filter(|k| keys_b.contains(k)).collect();
    assert_eq!(from_a, keys_a.to_vec());
    assert_eq!(from_b, keys_b.to_vec());
}

#[test]
fn frames_stay_whole_between_passes() {
    let gba = Gba::new();
    let (messages, _notifications) = gba.channels();
    let mut shared = gba.shared_data();
    let mut runner = gba.runner(LoggingEngine::default());
    messages.send(Message::Run);
    let mut frame = vec![0u8; FRAMEBUFFER_LEN];
    for pass in 0..300usize {
        assert_eq!(runner.run_once(), Pass::Advanced);
        shared.copy_framebuffer_into(&mut frame);
        let first = frame[0];
        assert_eq!(first, ((pass + 1) % 256) as u8);
        assert!(frame.iter().all(|b| *b == first));
    }
}

#[test]
fn debugger_wait_returns_on_a_published_pause() {
    let gba = Gba::new();
    let (messages, notifications) = gba.channels();
    let mut runner = gba.runner(LoggingEngine::default());
    let mut debugger = Debugger::from(&gba);
    messages.send(Message::Reset(GbaConfig::new()));
    messages.send(Message::Run);
    messages.send(Message::Pause);
    assert_eq!(runner.run_once(), Pass::Idle);
    debugger.wait_for_gba();
    assert!(notifications.pop().is_empty());
}

#[test]
fn debugger_commands() {
    let gba = Gba::new();
    let mut runner = gba.runner(LoggingEngine::default());
    let (messages, notifications) = gba.channels();
    messages.send(Message::Run);
    assert_eq!(runner.run_once(), Pass::Advanced);
    let _ = notifications.pop();

    let mut debugger = Debugger::from(&gba);
    assert_eq!(debugger.execute("bogus"), ReplCommand::Invalid);
    assert_eq!(debugger.execute("  "), ReplCommand::Empty);
    assert_eq!(runner.run_once(), Pass::Advanced);
    assert_eq!(debugger.execute(" pause"), ReplCommand::Pause);
    assert_eq!(runner.run_once(), Pass::Idle);
    assert_eq!(runner.state(), RunState::Paused);
    assert_eq!(notifications.pop(), vec![Notification::Pause]);
}

#[test]
fn headless_engine_counts_cycles_and_keeps_inputs() {
    let gba = Gba::new();
    let (messages, _notifications) = gba.channels();
    let mut runner = gba.runner(HeadlessEngine::new());
    assert_eq!(runner.engine().cycles(), 0);
    assert!(runner.engine().config().is_none());
    messages.send(Message::Reset(rom_config(vec![3, 1, 4])));
    messages.send(Message::Key { key: Key::Start, pressed: true });
    messages.send(Message::Run);
    assert_eq!(runner.run_once(), Pass::Advanced);
    assert_eq!(runner.run_once(), Pass::Advanced);
    assert_eq!(runner.engine().cycles(), 2 * CYCLES_PER_FRAME as u64);
    assert_eq!(runner.engine().config().as_ref().map(|c| c.rom().to_vec()), Some(vec![3, 1, 4]));
    assert_eq!(runner.engine().last_key(), Some((Key::Start, true)));
    let mut frame = vec![1u8; FRAMEBUFFER_LEN];
    gba.shared_data().copy_framebuffer_into(&mut frame);
    assert!(frame.iter().all(|b| *b == 0));
}

#[test]
fn two_pause_requests_make_one_pause() {
    let gba = Gba::new();
    let (messages, notifications) = gba.channels();
    let mut runner = gba.runner(LoggingEngine::default());
    messages.send(Message::Run);
    assert_eq!(runner.run_once(), Pass::Advanced);
    let _ = notifications.pop();

    gba.request_pause();
    gba.request_pause();
    assert_eq!(runner.run_once(), Pass::PauseRequested);
    assert_eq!(notifications.pop(), vec![Notification::Pause]);
    messages.send(Message::Run);
    assert_eq!(runner.run_once(), Pass::Advanced);
    assert_eq!(runner.run_once(), Pass::Advanced);
    assert_eq!(notifications.pop(), vec![Notification::Run]);
}

#[test]
fn apply_pause_request_follows_the_flag_value() {
    let gba = Gba::new();
    let (messages, notifications) = gba.channels();
    let mut runner = gba.runner(LoggingEngine::default());
    messages.send(Message::Run);
    assert_eq!(runner.run_once(), Pass::Advanced);
    let _ = notifications.pop();

    assert!(!runner.apply_pause_request(false));
    assert_eq!(runner.state(), RunState::Running);
    assert!(notifications.pop().is_empty());
    assert!(runner.apply_pause_request(true));
    assert_eq!(runner.state(), RunState::Paused);
    assert_eq!(notifications.pop(), vec![Notification::Pause]);
    assert_eq!(runner.engine().advances(), 1);
}

#[test]
fn debugger_reads_unicode_white_space() {
    let gba = Gba::new();
    let mut runner = gba.runner(LoggingEngine::default());
    let (messages, notifications) = gba.channels();
    messages.send(Message::Run);
    assert_eq!(runner.run_once(), Pass::Advanced);
    let _ = notifications.pop();

    let mut debugger = Debugger::from(&gba);
    assert_eq!(debugger.execute("\u{3000}pause\u{00A0}now"), ReplCommand::Pause);
    assert_eq!(runner.run_once(), Pass::Idle);
    assert_eq!(notifications.pop(), vec![Notification::Pause]);
}
