pub mod cpu;
pub mod display;
pub mod instruction;
pub mod laws;
pub mod render;
pub mod state;
pub mod utility;

pub use display::{build_display, Display};
pub use utility::{lower_nibble, upper_nibble};
pub use instruction::{decode, Instruction};
pub use cpu::{build_cpu, build_cpu_with_quirks, Cpu, RomError, FONT_SET, MAX_ROM_SIZE, TIMER_INTERVAL_MICROS};
pub use render::{render_display, COLOR_OFF, COLOR_ON};
