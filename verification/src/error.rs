//! Error kinds surfaced by the driver.

use vstd::prelude::*;

verus! {

/// What went wrong during a driver operation.
///
/// Every failure is returned to the immediate caller; nothing is retried
/// or swallowed. After any error the last successfully written
/// configuration still holds and no reading was obtained.
#[derive(Clone, Copy, Debug, PartialEq, Eq, Structural)]
pub enum Error {
    /// The bus device could not be opened or addressed; fatal to
    /// construction.
    FailedToOpenDevice,
    /// A register read or write on the bus transport failed.
    Transport,
    /// A block read returned fewer bytes than the decode requires.
    NotEnoughData,
}

impl Error {
    /// A short description of the error kind.
    pub fn describe(&self) -> (r: &'static str)
        ensures
            self is FailedToOpenDevice ==> r@ == "failed to open the device"@,
            self is Transport ==> r@ == "bus transport failure"@,
            self is NotEnoughData ==> r@ == "not enough data returned by the bus"@,
    {
        match self {
            Error::FailedToOpenDevice => "failed to open the device",
            Error::Transport => "bus transport failure",
            Error::NotEnoughData => "not enough data returned by the bus",
        }
    }
}

} // verus!
