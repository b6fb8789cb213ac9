//! The commands: what each command of the operator asks of the speaker, and
//! what it tells the operator.
//!
//! A command never talks to the speaker itself. It is given what has been
//! read from the speaker, where it needs a reading, and answers with an
//! [`Action`]: the one command to send, if any, and the lines to show once
//! that command has gone through. A command that is refused answers with the
//! reason and asks for nothing to be sent.
//!
//! So a command costs two requests at most, the reading first. [`status`] and
//! [`mute`] always need the playback status and [`info`] the device
//! information; [`volume`] needs the status where
//! [`volume_is_relative`](crate::resolve::volume_is_relative) says so and
//! [`loop_mode`] where [`loop_needs_reading`] says so; the others need
//! nothing.

use crate::api::{DeviceInfo, PlayerStatus};
use crate::constants::{entries_of, eq_entries, eq_presets, loop_entries, loop_mode_map, Entries};
use crate::decimal::{decimal, decimal_text, parse_u64, parsed_u64};
use crate::error::{CommandError, Failure};
use crate::resolve::{
    eq_choice, eq_name, eq_name_of, loop_choice, loop_name, loop_name_of, mode_label,
    mode_label_of, resolve_eq, resolve_loop, resolve_source, resolve_volume, source_choice,
    volume_choice,
};
use crate::text::{joined, pad_left, padded, push_line, same_text, texts, uppercase};
use crate::utils::{clock_text, decode_hex, format_clock, format_time, hex_text, time_text};
use vstd::prelude::*;

verus! {

/// What a command asks of the surrounding program.
#[derive(Debug)]
pub struct Action {
    /// The command to send to the speaker, if there is one.
    pub send: Option<String>,
    /// The lines to show, in order, once the command has been sent.
    pub show: Vec<String>,
}

/// An [`Action`] as contracts see it.
pub struct Plan {
    pub send: Option<Seq<char>>,
    pub show: Seq<Seq<char>>,
}

impl View for Action {
    type V = Plan;

    open spec fn view(&self) -> Plan {
        Plan {
            send: match self.send {
                Some(command) => Some(command@),
                None => None,
            },
            show: texts(self.show@),
        }
    }
}

/// The plan that sends `command` and then shows one `line`.
pub open spec fn send_and_show(command: Seq<char>, line: Seq<char>) -> Plan {
    Plan { send: Some(command), show: seq![line] }
}

/// The plan that sends nothing and shows `lines`.
pub open spec fn show_only(lines: Seq<Seq<char>>) -> Plan {
    Plan { send: None, show: lines }
}

/// The action that sends `command` and then shows one `line`.
fn sending(command: String, line: String) -> (action: Action)
    ensures
        action@ == send_and_show(command@, line@),
{
    let mut show: Vec<String> = Vec::new();
    push_line(&mut show, line);
    assert(texts(show@) == seq![line@]);
    Action { send: Some(command), show }
}

/// One line of a table listing: the code, right-aligned in two columns, and
/// the name.
pub open spec fn listing_line(entry: (Seq<char>, Seq<char>)) -> Seq<char> {
    "  "@ + padded(entry.0, 2, ' ') + "  "@ + entry.1
}

/// The listing of a table, a line for each pair.
pub open spec fn listing(entries: Entries) -> Seq<Seq<char>> {
    entries.map_values(|entry: (Seq<char>, Seq<char>)| listing_line(entry))
}

/// Appends the listing of `rows` to `lines`.
fn push_listing(lines: &mut Vec<String>, rows: &Vec<(&'static str, &'static str)>)
    ensures
        texts(final(lines)@) == texts(old(lines)@) + listing(entries_of(rows@)),
{
    let ghost before = texts(lines@);
    let ghost entries = entries_of(rows@);
    let mut i: usize = 0;
    while i < rows.len()
        invariant
            i <= rows.len(),
            entries == entries_of(rows@),
            texts(lines@) == before + listing(entries.take(i as int)),
        decreases rows.len() - i,
    {
        let mut line = joined("  ", pad_left(rows[i].0, 2, ' ').as_str());
        line.append("  ");
        line.append(rows[i].1);
        assert(line@ == listing_line(entries[i as int]));
        assert(listing(entries.take(i + 1)) == listing(entries.take(i as int)).push(
            listing_line(entries[i as int]),
        ));
        push_line(lines, line);
        i += 1;
    }
    assert(entries.take(i as int) == entries);
}

/// The lines about the current track: none where neither title nor artist
/// is known; else an empty line, the title and the artist as far as they are
/// known, and the position in the track where its length is known.
pub open spec fn track_lines(
    title: Seq<char>,
    artist: Seq<char>,
    curpos: Seq<char>,
    totlen: Seq<char>,
) -> Seq<Seq<char>> {
    if title.len() == 0 && artist.len() == 0 {
        Seq::empty()
    } else {
        seq![Seq::empty()] + (if title.len() > 0 {
            seq!["  Track:    "@ + title]
        } else {
            Seq::empty()
        }) + (if artist.len() > 0 {
            seq!["  Artist:   "@ + artist]
        } else {
            Seq::empty()
        }) + (if totlen.len() > 0 && totlen != "0"@ {
            seq!["  Time:     "@ + time_text(curpos) + " / "@ + time_text(totlen)]
        } else {
            Seq::empty()
        })
    }
}

/// The lines that show a playback status under the speaker's name.
pub open spec fn status_lines(name: Seq<char>, status: PlayerStatus) -> Seq<Seq<char>> {
    seq![
        name,
        "  Source:   "@ + uppercase(mode_label_of(status.mode@)),
        "  Status:   "@ + status.status@,
        "  Volume:   "@ + status.vol@ + (if status.mute@ == "1"@ {
            " (muted)"@
        } else {
            Seq::empty()
        }),
        "  EQ:       "@ + eq_name_of(status.eq@),
    ] + track_lines(
        hex_text(status.title@),
        hex_text(status.artist@),
        status.curpos@,
        status.totlen@,
    )
}

/// Shows the playback status that was read from the speaker.
///
/// The source is the label of the mode code, in capitals; a code without a
/// label is shown itself. The volume is shown as reported, with a note while
/// the speaker is muted. Title and artist are decoded from hexadecimal.
pub fn status(name: &str, reading: &PlayerStatus) -> (action: Action)
    ensures
        action@ == show_only(status_lines(name@, *reading)),
{
    let mut show: Vec<String> = Vec::new();
    push_line(&mut show, name.to_owned());
    let source = mode_label(reading.mode.as_str());
    push_line(&mut show, joined("  Source:   ", source.as_str().to_uppercase().as_str()));
    push_line(&mut show, joined("  Status:   ", reading.status.as_str()));
    let mut volume = joined("  Volume:   ", reading.vol.as_str());
    if same_text(reading.mute.as_str(), "1") {
        volume.append(" (muted)");
    } else {
        assert(volume@ + Seq::<char>::empty() == volume@);
    }
    push_line(&mut show, volume);
    push_line(&mut show, joined("  EQ:       ", eq_name(reading.eq.as_str())));
    let ghost head = texts(show@);
    assert(head + track_lines(
        hex_text(reading.title@),
        hex_text(reading.artist@),
        reading.curpos@,
        reading.totlen@,
    ) == status_lines(name@, *reading));

    let title = decode_hex(reading.title.as_str());
    let artist = decode_hex(reading.artist.as_str());
    if !title.as_str().is_empty() || !artist.as_str().is_empty() {
        push_line(&mut show, String::new());
        if !title.as_str().is_empty() {
            push_line(&mut show, joined("  Track:    ", title.as_str()));
        }
        if !artist.as_str().is_empty() {
            push_line(&mut show, joined("  Artist:   ", artist.as_str()));
        }
        if !reading.totlen.as_str().is_empty() && !same_text(reading.totlen.as_str(), "0") {
            let mut time = joined("  Time:     ", format_time(reading.curpos.as_str()).as_str());
            time.append(" / ");
            time.append(format_time(reading.totlen.as_str()).as_str());
            push_line(&mut show, time);
        }
    }
    assert(texts(show@) == head + track_lines(
        title@,
        artist@,
        reading.curpos@,
        reading.totlen@,
    ));
    Action { send: None, show }
}

/// The plan for setting the volume to `volume`.
pub open spec fn volume_plan(volume: int) -> Plan {
    send_and_show(
        "setPlayerCmd:vol:"@ + decimal_text(volume as nat),
        "Volume: "@ + decimal_text(volume as nat),
    )
}

/// Sets the volume, or moves it where `level` starts with a sign.
///
/// `current` is the volume that the speaker reports. It is consulted for an
/// adjustment only, and a caller reads the status just where
/// [`volume_is_relative`](crate::resolve::volume_is_relative) says that
/// `level` is one.
pub fn volume(level: &str, current: i32) -> (r: Result<Action, CommandError>)
    ensures
        match volume_choice(level@, current as int) {
            Ok(volume) => r matches Ok(action) && action@ == volume_plan(volume),
            Err(failure) => r matches Err(e) && e@ == failure,
        },
{
    match resolve_volume(level, current) {
        Ok(volume) => {
            let number = decimal(volume as u64);
            Ok(
                sending(
                    joined("setPlayerCmd:vol:", number.as_str()),
                    joined("Volume: ", number.as_str()),
                ),
            )
        },
        Err(e) => Err(e),
    }
}

/// The plan for the mute switch: what is sent is the opposite of what the
/// speaker reports, where anything but `1` counts as not muted.
pub open spec fn mute_plan(mute: Seq<char>) -> Plan {
    if mute == "1"@ {
        send_and_show("setPlayerCmd:mute:0"@, "Unmuted"@)
    } else {
        send_and_show("setPlayerCmd:mute:1"@, "Muted"@)
    }
}

/// Switches mute over, given the status that was read from the speaker.
pub fn mute(status: &PlayerStatus) -> (action: Action)
    ensures
        action@ == mute_plan(status.mute@),
{
    if same_text(status.mute.as_str(), "1") {
        sending("setPlayerCmd:mute:0".to_owned(), "Unmuted".to_owned())
    } else {
        sending("setPlayerCmd:mute:1".to_owned(), "Muted".to_owned())
    }
}

/// What is shown once a playback command has been sent.
pub open spec fn playback_line(cmd: Seq<char>) -> Seq<char> {
    if cmd == "play"@ {
        "Playing"@
    } else if cmd == "pause"@ {
        "Paused"@
    } else if cmd == "stop"@ {
        "Stopped"@
    } else if cmd == "next"@ {
        "Next track"@
    } else if cmd == "prev"@ {
        "Previous track"@
    } else {
        cmd
    }
}

/// Sends a playback command: `play`, `pause`, `stop`, `next` or `prev`. Any
/// other word is sent all the same, and shown as it is.
pub fn playback(cmd: &str) -> (action: Action)
    ensures
        action@ == send_and_show("setPlayerCmd:"@ + cmd@, playback_line(cmd@)),
{
    let line = if same_text(cmd, "play") {
        "Playing"
    } else if same_text(cmd, "pause") {
        "Paused"
    } else if same_text(cmd, "stop") {
        "Stopped"
    } else if same_text(cmd, "next") {
        "Next track"
    } else if same_text(cmd, "prev") {
        "Previous track"
    } else {
        cmd
    };
    sending(joined("setPlayerCmd:", cmd), line.to_owned())
}

/// The list of sources shown where none is named.
pub open spec fn source_listing() -> Seq<Seq<char>> {
    seq![
        "Available sources:"@,
        "  wifi"@,
        "  bluetooth (bt)"@,
        "  spotify"@,
        "  line-in (linein)"@,
        "  optical"@,
        "  airplay"@,
        "  dlna"@,
        "  usb"@,
    ]
}

/// The plan for the source command.
pub open spec fn source_plan(name: Option<Seq<char>>) -> Result<Plan, Failure> {
    match name {
        None => Ok(show_only(source_listing())),
        Some(name) => match source_choice(name) {
            Ok(mode) => Ok(
                send_and_show("setPlayerCmd:switchmode:"@ + mode, "Source: "@ + uppercase(mode)),
            ),
            Err(failure) => Err(failure),
        },
    }
}

/// The text of an optional string.
pub open spec fn text_of(input: Option<&str>) -> Option<Seq<char>> {
    match input {
        Some(s) => Some(s@),
        None => None,
    }
}

/// Switches to the source called `name`, in any case of letters; without a
/// name, lists the sources and sends nothing.
pub fn source(name: Option<&str>) -> (r: Result<Action, CommandError>)
    ensures
        match source_plan(text_of(name)) {
            Ok(plan) => r matches Ok(action) && action@ == plan,
            Err(failure) => r matches Err(e) && e@ == failure,
        },
{
    match name {
        None => {
            let mut show: Vec<String> = Vec::new();
            push_line(&mut show, "Available sources:".to_owned());
            push_line(&mut show, "  wifi".to_owned());
            push_line(&mut show, "  bluetooth (bt)".to_owned());
            push_line(&mut show, "  spotify".to_owned());
            push_line(&mut show, "  line-in (linein)".to_owned());
            push_line(&mut show, "  optical".to_owned());
            push_line(&mut show, "  airplay".to_owned());
            push_line(&mut show, "  dlna".to_owned());
            push_line(&mut show, "  usb".to_owned());
            assert(texts(show@) == source_listing());
            Ok(Action { send: None, show })
        },
        Some(name) => match resolve_source(name) {
            Ok(mode) => Ok(
                sending(
                    joined("setPlayerCmd:switchmode:", mode),
                    joined("Source: ", mode.to_uppercase().as_str()),
                ),
            ),
            Err(e) => Err(e),
        },
    }
}

/// The plan for the equalizer command.
pub open spec fn eq_plan(preset: Option<Seq<char>>) -> Result<Plan, Failure> {
    match preset {
        None => Ok(show_only(seq!["EQ Presets:"@] + listing(eq_entries()))),
        Some(input) => match eq_choice(input) {
            Ok(i) => Ok(
                send_and_show(
                    "setPlayerCmd:equalizer:"@ + decimal_text(i as nat),
                    "EQ: "@ + eq_entries()[i].1,
                ),
            ),
            Err(failure) => Err(failure),
        },
    }
}

/// Selects the equalizer preset given by code, 0 to 24, or by name, in any
/// case of letters; without a preset, lists them all and sends nothing.
///
/// The code that is sent is written without padding, however it was typed.
pub fn eq(preset: Option<&str>) -> (r: Result<Action, CommandError>)
    ensures
        match eq_plan(text_of(preset)) {
            Ok(plan) => r matches Ok(action) && action@ == plan,
            Err(failure) => r matches Err(e) && e@ == failure,
        },
{
    match preset {
        None => {
            let mut show: Vec<String> = Vec::new();
            push_line(&mut show, "EQ Presets:".to_owned());
            assert(texts(show@) == seq!["EQ Presets:"@]);
            push_listing(&mut show, &eq_presets());
            Ok(Action { send: None, show })
        },
        Some(input) => match resolve_eq(input) {
            Ok((code, name)) => Ok(
                sending(
                    joined("setPlayerCmd:equalizer:", decimal(code as u64).as_str()),
                    joined("EQ: ", name),
                ),
            ),
            Err(e) => Err(e),
        },
    }
}

/// The plan for a preset key.
pub open spec fn preset_plan(number: u8) -> Result<Plan, Failure> {
    if 1 <= number <= 10 {
        Ok(
            send_and_show(
                "MCUKeyShortClick:"@ + decimal_text(number as nat),
                "Preset "@ + decimal_text(number as nat) + " triggered"@,
            ),
        )
    } else {
        Err(Failure::InvalidPresetKey)
    }
}

/// Presses one of the speaker's preset keys, 1 to 10.
pub fn preset(number: u8) -> (r: Result<Action, CommandError>)
    ensures
        match preset_plan(number) {
            Ok(plan) => r matches Ok(action) && action@ == plan,
            Err(failure) => r matches Err(e) && e@ == failure,
        },
{
    if number < 1 || number > 10 {
        return Err(CommandError::InvalidPresetKey);
    }
    let key = decimal(number as u64);
    let mut line = joined("Preset ", key.as_str());
    line.append(" triggered");
    Ok(sending(joined("MCUKeyShortClick:", key.as_str()), line))
}

/// Restarts the speaker.
pub fn reboot() -> (action: Action)
    ensures
        action@ == send_and_show("reboot"@, "Rebooting speaker..."@),
{
    sending("reboot".to_owned(), "Rebooting speaker...".to_owned())
}

/// The plan for seeking to a position.
pub open spec fn seek_plan(position: Seq<char>) -> Result<Plan, Failure> {
    match parsed_u64(position) {
        Some(ms) => Ok(
            send_and_show(
                "setPlayerCmd:seek:"@ + decimal_text(ms as nat),
                "Seeking to "@ + clock_text(ms as nat),
            ),
        ),
        None => Err(Failure::InvalidPosition),
    }
}

/// Seeks to a position in the current track, given in milliseconds.
pub fn seek(position: &str) -> (r: Result<Action, CommandError>)
    ensures
        match seek_plan(position@) {
            Ok(plan) => r matches Ok(action) && action@ == plan,
            Err(failure) => r matches Err(e) && e@ == failure,
        },
{
    match parse_u64(position) {
        Some(ms) => Ok(
            sending(
                joined("setPlayerCmd:seek:", decimal(ms).as_str()),
                joined("Seeking to ", format_clock(ms).as_str()),
            ),
        ),
        None => Err(CommandError::InvalidPosition),
    }
}

/// What is shown of the loop mode that the speaker reports, followed by the
/// list of all modes.
pub open spec fn loop_report(current: Seq<char>) -> Seq<Seq<char>> {
    seq![
        "Loop mode: "@ + loop_name_of(current) + " ("@ + current + ")"@,
        Seq::empty(),
        "Available loop modes:"@,
    ] + listing(loop_entries())
}

/// The plan for the loop command.
pub open spec fn loop_plan(mode: Option<Seq<char>>, current: Seq<char>) -> Result<Plan, Failure> {
    match mode {
        None => Ok(show_only(loop_report(current))),
        Some(input) => match loop_choice(input) {
            Ok(i) => Ok(
                send_and_show(
                    "setPlayerCmd:loopmode:"@ + loop_entries()[i].0,
                    "Loop mode: "@ + loop_entries()[i].1,
                ),
            ),
            Err(failure) => Err(failure),
        },
    }
}

/// Whether the loop command has to be given the speaker's status: it shows
/// the current mode only where none is to be set.
pub fn loop_needs_reading(mode: Option<&str>) -> (needed: bool)
    ensures
        needed == (mode is None),
{
    mode.is_none()
}

/// The loop command looks at the current mode just where it asks for the
/// status: with a mode to set, whatever the speaker reports has no part in
/// the outcome.
pub proof fn lemma_loop_reading_unused(mode: Seq<char>, current: Seq<char>, other: Seq<char>)
    ensures
        loop_plan(Some(mode), current) == loop_plan(Some(mode), other),
{
}

/// Selects the loop mode given by code or by name; without a mode, shows the
/// one that the speaker reports and lists them all.
///
/// `current` is the loop code in the speaker's status. It is consulted only
/// where [`loop_needs_reading`] says so, and a caller reads the status just
/// then.
pub fn loop_mode(mode: Option<&str>, current: &str) -> (r: Result<Action, CommandError>)
    ensures
        match loop_plan(text_of(mode), current@) {
            Ok(plan) => r matches Ok(action) && action@ == plan,
            Err(failure) => r matches Err(e) && e@ == failure,
        },
{
    match mode {
        None => {
            let mut line = joined("Loop mode: ", loop_name(current));
            line.append(" (");
            line.append(current);
            line.append(")");
            let ghost first = line@;
            let mut show: Vec<String> = Vec::new();
            push_line(&mut show, line);
            push_line(&mut show, String::new());
            push_line(&mut show, "Available loop modes:".to_owned());
            assert(texts(show@) == seq![first, Seq::empty(), "Available loop modes:"@]);
            push_listing(&mut show, &loop_mode_map());
            Ok(Action { send: None, show })
        },
        Some(input) => match resolve_loop(input) {
            Ok((code, name)) => Ok(
                sending(joined("setPlayerCmd:loopmode:", code), joined("Loop mode: ", name)),
            ),
            Err(e) => Err(e),
        },
    }
}

/// The state of the wireless connection in words; a code that is none of
/// `0`, `1` and `2` is shown itself.
pub open spec fn netstat_text(code: Seq<char>) -> Seq<char> {
    if code == "0"@ {
        "Not connected"@
    } else if code == "1"@ {
        "Connecting"@
    } else if code == "2"@ {
        "Connected"@
    } else {
        code
    }
}

/// A line of device information: the label and the value, or nothing where
/// the value is not to be shown.
pub open spec fn info_line(label: Seq<char>, value: Seq<char>, shown: bool) -> Seq<Seq<char>> {
    if shown {
        seq![label + value]
    } else {
        Seq::empty()
    }
}

/// The lines that show what a speaker reports about itself. It goes by the
/// name that it reports, or by `name` where it reports none. Fields that are
/// empty are left out, and so is a microcontroller version of `0`; the
/// wireless address is always shown.
pub open spec fn info_lines(name: Seq<char>, info: DeviceInfo) -> Seq<Seq<char>> {
    seq![
        if info.device_name@.len() == 0 {
            name
        } else {
            info.device_name@
        },
    ] + info_line("  Firmware: "@, info.firmware@, info.firmware@.len() > 0) + info_line(
        "  Hardware: "@,
        info.hardware@,
        info.hardware@.len() > 0,
    ) + info_line(
        "  MCU:      "@,
        info.mcu_ver@,
        info.mcu_ver@.len() > 0 && info.mcu_ver@ != "0"@,
    ) + info_line("  MAC:      "@, info.mac@, info.mac@.len() > 0) + seq![
        "  WiFi:     "@ + info.wifi_ip@ + " ("@ + netstat_text(info.netstat@) + ")"@,
    ] + info_line("  Ethernet: "@, info.eth_ip@, info.eth_ip@.len() > 0) + info_line(
        "  UUID:     "@,
        info.uuid@,
        info.uuid@.len() > 0,
    )
}

/// Appends a line of device information to `lines` where it is to be shown.
fn push_info(lines: &mut Vec<String>, label: &str, value: &str, shown: bool)
    ensures
        texts(final(lines)@) == texts(old(lines)@) + info_line(label@, value@, shown),
{
    if shown {
        push_line(lines, joined(label, value));
    } else {
        assert(texts(lines@) + Seq::<Seq<char>>::empty() == texts(lines@));
    }
}

/// Shows the device information that was read from the speaker.
pub fn info(name: &str, device: &DeviceInfo) -> (action: Action)
    ensures
        action@ == show_only(info_lines(name@, *device)),
{
    let netstat = if same_text(device.netstat.as_str(), "0") {
        "Not connected"
    } else if same_text(device.netstat.as_str(), "1") {
        "Connecting"
    } else if same_text(device.netstat.as_str(), "2") {
        "Connected"
    } else {
        device.netstat.as_str()
    };
    let mut show: Vec<String> = Vec::new();
    if device.device_name.as_str().is_empty() {
        push_line(&mut show, name.to_owned());
    } else {
        push_line(&mut show, device.device_name.as_str().to_owned());
    }
    assert(texts(show@) == seq![
        if device.device_name@.len() == 0 {
            name@
        } else {
            device.device_name@
        },
    ]);
    push_info(
        &mut show,
        "  Firmware: ",
        device.firmware.as_str(),
        !device.firmware.as_str().is_empty(),
    );
    push_info(
        &mut show,
        "  Hardware: ",
        device.hardware.as_str(),
        !device.hardware.as_str().is_empty(),
    );
    push_info(
        &mut show,
        "  MCU:      ",
        device.mcu_ver.as_str(),
        !device.mcu_ver.as_str().is_empty() && !same_text(device.mcu_ver.as_str(), "0"),
    );
    push_info(&mut show, "  MAC:      ", device.mac.as_str(), !device.mac.as_str().is_empty());
    let mut wifi = joined("  WiFi:     ", device.wifi_ip.as_str());
    wifi.append(" (");
    wifi.append(netstat);
    wifi.append(")");
    assert(texts(show@).push(wifi@) == texts(show@) + seq![wifi@]);
    push_line(&mut show, wifi);
    push_info(&mut show, "  Ethernet: ", device.eth_ip.as_str(), !device.eth_ip.as_str().is_empty());
    push_info(&mut show, "  UUID:     ", device.uuid.as_str(), !device.uuid.as_str().is_empty());
    Action { send: None, show }
}

/// Plays the audio found at `uri`. The address is sent as it is.
pub fn play_uri(uri: &str) -> (action: Action)
    ensures
        action@ == send_and_show("setPlayerCmd:play:"@ + uri@, "Playing: "@ + uri@),
{
    sending(joined("setPlayerCmd:play:", uri), joined("Playing: ", uri))
}

} // verus!
