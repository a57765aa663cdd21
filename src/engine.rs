//! The emulation engine as the runner sees it.
use crate::config::GbaConfig;
use crate::message::Key;
use crate::state::EngineCall;
use crate::FRAMEBUFFER_LEN;
use vstd::prelude::*;

verus! {

/// An emulation engine. The runner owns it and is the only caller of these
/// operations; the engine needs no locking of its own.
///
/// An implementation keeps, as `calls`, the operations made on it so far; each
/// operation appends itself there, so the contracts of the runner speak of what
/// the engine actually received.
pub trait Engine {
    /// Every operation made on the engine so far, oldest first.
    spec fn calls(&self) -> Seq<EngineCall>;

    /// Replaces all of the engine's state with a fresh one built from `config`.
    fn reset(&mut self, config: GbaConfig)
        ensures
            final(self).calls() == old(self).calls().push(EngineCall::Reset(config)),
    ;

    /// Emulates `cycles` clock cycles.
    fn advance(&mut self, cycles: u64)
        ensures
            final(self).calls() == old(self).calls().push(EngineCall::Advance(cycles)),
    ;

    /// Presses or releases a button.
    fn set_key(&mut self, key: Key, pressed: bool)
        ensures
            final(self).calls() == old(self).calls().push(EngineCall::SetKey(key, pressed)),
    ;

    /// The frame drawn so far, as RGBA8 pixels row by row: one whole frame.
    fn framebuffer(&self) -> (r: Vec<u8>)
        ensures
            r@.len() == FRAMEBUFFER_LEN,
    ;
}

/// An engine with no emulation core: it keeps the configuration it was last
/// reset with and the last button edge, counts the cycles it was asked to
/// emulate (wrapping around), and shows a blank screen.
pub struct HeadlessEngine {
    config: Option<GbaConfig>,
    last_key: Option<(Key, bool)>,
    cycles: u64,
    calls: Ghost<Seq<EngineCall>>,
}

impl HeadlessEngine {
    pub closed spec fn spec_cycles(&self) -> u64 {
        self.cycles
    }

    pub closed spec fn spec_config(&self) -> Option<GbaConfig> {
        self.config
    }

    pub closed spec fn spec_last_key(&self) -> Option<(Key, bool)> {
        self.last_key
    }

    /// An engine that has not been reset yet.
    pub fn new() -> (r: Self)
        ensures
            r.calls() == Seq::<EngineCall>::empty(),
            r.spec_cycles() == 0,
            r.spec_config() is None,
            r.spec_last_key() is None,
    {
        HeadlessEngine { config: None, last_key: None, cycles: 0, calls: Ghost(Seq::empty()) }
    }

    /// The cycles emulated since the last reset, modulo 2^64.
    pub fn cycles(&self) -> (r: u64)
        ensures
            r == self.spec_cycles(),
    {
        self.cycles
    }

    /// The configuration of the last reset.
    pub fn config(&self) -> (r: &Option<GbaConfig>)
        ensures
            *r == self.spec_config(),
    {
        &self.config
    }

    /// The last button edge received.
    pub fn last_key(&self) -> (r: Option<(Key, bool)>)
        ensures
            r == self.spec_last_key(),
    {
        self.last_key
    }
}

impl Engine for HeadlessEngine {
    closed spec fn calls(&self) -> Seq<EngineCall> {
        self.calls@
    }

    fn reset(&mut self, config: GbaConfig) {
        self.calls = Ghost(self.calls@.push(EngineCall::Reset(config)));
        self.config = Some(config);
        self.cycles = 0;
    }

    fn advance(&mut self, cycles: u64) {
        self.calls = Ghost(self.calls@.push(EngineCall::Advance(cycles)));
        self.cycles = self.cycles.wrapping_add(cycles);
    }

    fn set_key(&mut self, key: Key, pressed: bool) {
        self.calls = Ghost(self.calls@.push(EngineCall::SetKey(key, pressed)));
        self.last_key = Some((key, pressed));
    }

    fn framebuffer(&self) -> Vec<u8> {
        vec![0u8; FRAMEBUFFER_LEN]
    }
}

} // verus!
