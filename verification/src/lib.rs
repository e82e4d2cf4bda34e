//! System bus and clock-synchronisation layer of an 8-bit game console.
//!
//! The crate decodes memory accesses of the processor and of the picture unit,
//! combines the interrupt lines of the hardware blocks, and steps the processor,
//! the picture unit and the audio unit in their fixed cycle ratio while pacing
//! the emulation against wall-clock time.

pub mod bus;
pub mod clock;
pub mod color;
pub mod cpu_bus;
pub mod frame;
pub mod irq;
pub mod nes;
pub mod pacing;
pub mod ppu_bus;

pub use bus::Device;
pub use clock::{Action, Clock, Event, Stage, State};
pub use color::Color;
pub use cpu_bus::{CPUBus, CpuOwner, CpuRead, CpuTarget, CpuWrite};
pub use frame::{Frame, SharedFrameState, TV_HEIGHT, TV_PIXELS, TV_WIDTH};
pub use irq::{InterruptAggregator, InterruptSource, IrqLine};
pub use nes::NES;
pub use ppu_bus::{PPUBus, PpuOwner, PpuRead, PpuTarget, PpuWrite};
