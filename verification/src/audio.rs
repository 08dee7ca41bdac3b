//! The audio subsystem's handle.
//!
//! Audio setup is a one-shot enumeration of the machine's hosts and
//! devices, performed entirely at the boundary: the surrounding binary
//! queries the audio backend and reports what it found. The session
//! keeps this handle as the owner of whatever the enumeration opened;
//! the frame lifecycle never touches it.

use vstd::prelude::*;

verus! {

/// Owner of the audio subsystem for the session.
pub struct Audio {
}

impl Audio {
    /// Take ownership of the audio subsystem once the boundary's
    /// enumeration is done.
    pub fn new() -> (r: Audio)
        ensures
            r == (Audio {  }),
    {
        Audio {  }
    }
}

} // verus!
