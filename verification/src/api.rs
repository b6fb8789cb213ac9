//! The speaker's HTTP interface: what is asked of it, where, and the shape of
//! what it answers.
//!
//! Every command is a GET request to one path, with the command in the query
//! string. This module builds the address; sending the request and reading
//! the speaker's JSON is left to the caller, who fills the two snapshot types
//! from the fields that the speaker reports. A field that the speaker leaves
//! out is the empty string.

use crate::config::SpeakerConfig;
use crate::decimal::{decimal_text, push_decimal};
use vstd::prelude::*;

verus! {

/// The command that asks for the playback status.
pub const PLAYER_STATUS_QUERY: &'static str = "getPlayerStatus";

/// The command that asks for the device information.
pub const DEVICE_INFO_QUERY: &'static str = "getStatus";

/// The playback status as the speaker reports it. Nothing in it is
/// interpreted yet: codes are codes, numbers are text.
#[derive(Debug)]
pub struct PlayerStatus {
    /// The code of the playback mode, the source that is playing.
    pub mode: String,
    /// The playback state, such as `play` or `pause`.
    pub status: String,
    /// The volume, 0 to 100, in decimal.
    pub vol: String,
    /// `1` while the speaker is muted.
    pub mute: String,
    /// The code of the equalizer preset.
    pub eq: String,
    /// The title of the current track, in hexadecimal.
    pub title: String,
    /// The artist of the current track, in hexadecimal.
    pub artist: String,
    /// The position in the current track, in milliseconds.
    pub curpos: String,
    /// The length of the current track, in milliseconds.
    pub totlen: String,
    /// The code of the loop mode.
    pub loop_mode: String,
}

/// What the speaker reports about itself. Any field may be empty.
#[derive(Debug)]
pub struct DeviceInfo {
    /// The name given to the device.
    pub device_name: String,
    /// The firmware version.
    pub firmware: String,
    /// The hardware revision.
    pub hardware: String,
    /// The device's UUID.
    pub uuid: String,
    /// The IP address of the wireless interface.
    pub wifi_ip: String,
    /// The IP address of the wired interface.
    pub eth_ip: String,
    /// The MAC address.
    pub mac: String,
    /// The code of the wireless connection's state.
    pub netstat: String,
    /// The version of the microcontroller's firmware.
    pub mcu_ver: String,
}

/// The address at which a speaker takes a command.
pub open spec fn url_of(ip: Seq<char>, port: u16, command: Seq<char>) -> Seq<char> {
    "https://"@ + ip + ":"@ + decimal_text(port as nat) + "/httpapi.asp?command="@ + command
}

/// The address to request for `command`. The command goes into the query
/// string as it is.
pub fn command_url(config: &SpeakerConfig, command: &str) -> (url: String)
    ensures
        url@ == url_of(config.ip@, config.port, command@),
{
    let mut url = "https://".to_owned();
    url.append(config.ip.as_str());
    url.append(":");
    push_decimal(&mut url, config.port as u64);
    url.append("/httpapi.asp?command=");
    url.append(command);
    url
}

} // verus!
