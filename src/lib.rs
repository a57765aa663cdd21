//! The control plane of a GameBoy Advance emulator: the messages that drive the
//! engine's runner thread, the notifications it publishes back, the frame it
//! shares, and the run-state machine that decides between them.
use vstd::prelude::*;

pub mod config;
pub mod debugger;
pub mod engine;
pub mod gba;
pub mod message;
pub mod notification;
pub mod shared;
pub mod state;
mod sync;

pub use config::{BackupStorageType, ConfigError, GbaConfig};
pub use debugger::{Debugger, ReplCommand};
pub use engine::{Engine, HeadlessEngine};
pub use gba::{Gba, GbaRunner, Pass};
pub use message::{CommandQueue, Key, Message, MessageChannel};
pub use notification::{EventLog, Notification, NotificationChannel};
pub use shared::{Frame, GbaSharedData};
pub use state::RunState;

verus! {

pub const GBA_SCREEN_WIDTH: u32 = 240;

pub const GBA_SCREEN_HEIGHT: u32 = 160;

/// Width of a scan line, horizontal blanking included.
pub const GBA_SCREEN_REAL_WIDTH: u32 = 308;

/// Number of scan lines, vertical blanking included.
pub const GBA_SCREEN_REAL_HEIGHT: u32 = 228;

pub const CYCLES_PER_PIXEL: u32 = 4;

/// The cycles the engine advances by in one pass of the runner loop: one frame.
pub const CYCLES_PER_FRAME: u32 = CYCLES_PER_PIXEL * GBA_SCREEN_REAL_WIDTH * GBA_SCREEN_REAL_HEIGHT;

pub const CYCLES_PER_SECOND: u32 = 16 * 1024 * 1024;

/// Bytes in one RGBA8 frame.
pub const FRAMEBUFFER_LEN: usize = 240 * 160 * 4;

pub const GBA_HEADER_LEN: usize = 0xC0;

pub const GBA_HEADER_GAME_CODE_OFFSET: usize = 0xAC;

pub const GBA_HEADER_GAME_CODE_LEN: usize = 3;

} // verus!
