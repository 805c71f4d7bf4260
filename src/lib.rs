//! A speed-solving timer's core: scramble moves, the scramble generator, and
//! the session that runs from a shown scramble through inspection and the
//! timed solve to its result.

mod draw;
pub mod moves;
pub mod readout;
pub mod scramble;
pub mod session;

pub use moves::{Dir, Mod, Move, PrevDirs};
pub use readout::seconds_text;
pub use scramble::{Scramble, SCRAMBLE_MOVES};
pub use session::{update, App, Screen, State, Tone, INSPECT_MILLIS, WARN_MILLIS};
