//! Decodes a 64-bit seed into a four-instrument, sixteen-step drum pattern
//! and turns each step into the note events that sound on it.

pub mod instrument;
pub mod laws;
pub mod machine;
pub mod note;

pub use instrument::InstrumentPattern;
pub use machine::MachinePattern;
pub use note::Note;
