//! Verilator's data types, as its C interface names them.

use vstd::prelude::*;

verus! {

/// One to eight packed bits.
pub type CData = u8;

/// Nine to sixteen packed bits.
pub type SData = u16;

/// Seventeen to 32 packed bits.
pub type IData = u32;

/// 33 to 64 packed bits.
pub type QData = u64;

/// One element of a wide value.
pub type EData = u32;

/// One element of a wide value.
pub type WData = EData;

} // verus!
