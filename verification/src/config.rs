//! Where the speaker is found on the network.

use vstd::prelude::*;

verus! {

/// The speaker that commands are sent to.
#[derive(Debug)]
pub struct SpeakerConfig {
    /// The name under which the speaker is shown.
    pub name: String,
    /// The speaker's address: an IP address or a host name.
    pub ip: String,
    /// The port of the speaker's HTTPS interface.
    pub port: u16,
}

} // verus!
