//! The boundary with the capture backend: the device it captures from and
//! the decisions of its polling loops.

use vstd::prelude::*;

use crate::error::AirapError;

pub mod device;
pub mod session;

verus! {

/// A source of audio that calls back with each update.
pub trait Audio {
    fn on_update<F: Fn(&[i32])>(&mut self, cb: F) -> Result<(), AirapError>;
}

} // verus!
