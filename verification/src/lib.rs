//! A CHIP-8 / SUPER-CHIP interpreter core.
//!
//! The crate holds the machine itself: memory and registers, the instruction
//! decoder, the call stack, the keypad with its wait state, the two clocks that
//! turn elapsed time into due cycles, and the pixel display with its sprite and
//! scroll operations. Windowing, audio and input devices live with the host.

pub mod bool_display;
pub mod clock;
pub mod cpu;
pub mod display;
pub mod font;
pub mod instruction;
pub mod keyboard;
pub mod machine;
pub mod machine_lemmas;
pub mod random;
pub mod screen;
pub mod screen_lemmas;
pub mod stack;
pub mod timer;
pub mod wrap;

pub use crate::bool_display::BoolDisplay;
pub use crate::clock::Instant;
pub use crate::cpu::Cpu;
pub use crate::display::Display;
pub use crate::display::DISPLAY_HEIGHT;
pub use crate::display::DISPLAY_WIDTH;
pub use crate::instruction::Instruction;
pub use crate::keyboard::Key;
pub use crate::keyboard::KeyWait;
pub use crate::keyboard::Keyboard;
pub use crate::machine::Halt;
pub use crate::random::ConstantRand;
pub use crate::random::Rand;
pub use crate::stack::Stack;
pub use crate::timer::Timer;
