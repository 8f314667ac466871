//! Reading a Solarbank 4 E5000 Pro over Modbus TCP: the framing of register
//! reads, the decoding of register values and text, the live reading built
//! from the device's register blocks, the demo reading, and the rules for
//! connection settings.
use vstd::prelude::*;

pub mod registers;
pub mod text;
pub mod modbus;
pub mod clock;
pub mod settings;
pub mod snapshot;

verus! {
} // verus!
