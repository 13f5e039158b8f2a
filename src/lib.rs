//! Conversion between human-written ether amounts ("1.5 gwei", "10ether",
//! "1_000") and an exact count of wei held as a 256-bit unsigned integer.
use vstd::prelude::*;

pub mod amount;
pub mod codec;
pub mod decimal;
pub mod error;
pub mod laws;
pub mod number;
pub mod text;
pub mod unit;

pub use amount::Amount;
pub use codec::{deserialize, serialize, RawInput};
pub use error::AmountError;
pub use unit::Unit;

verus! {

} // verus!
