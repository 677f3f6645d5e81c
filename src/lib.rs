//! International Morse Code: a code table, an encoder from text to a bounded
//! sequence of units, and a playback state machine that drives a text display,
//! a tri-color light and a tone generator one symbol at a time.
use vstd::prelude::*;

pub mod encoder;
pub mod playback;
pub mod table;

verus! {

} // verus!
