use audiopro::api::{DeviceInfo, PlayerStatus};
use audiopro::commands::{
    eq, info, loop_mode, loop_needs_reading, mute, play_uri, playback, preset, reboot, seek,
    source, status, volume, Action,
};
use audiopro::error::CommandError;

fn blank_status() -> PlayerStatus {
    PlayerStatus {
        mode: String::new(),
        status: String::new(),
        vol: String::new(),
        mute: String::new(),
        eq: String::new(),
        title: String::new(),
        artist: String::new(),
        curpos: String::new(),
        totlen: String::new(),
        loop_mode: String::new(),
    }
}

fn blank_info() -> DeviceInfo {
    DeviceInfo {
        device_name: String::new(),
        firmware: String::new(),
        hardware: String::new(),
        uuid: String::new(),
        wifi_ip: String::new(),
        eth_ip: String::new(),
        mac: String::new(),
        netstat: String::new(),
        mcu_ver: String::new(),
    }
}

fn sent(action: &Action) -> Option<&str> {
    action.send.as_deref()
}

fn failure(r: Result<Action, CommandError>) -> CommandError {
    match r {
        Ok(action) => panic!("accepted: {:?}", action),
        Err(e) => e,
    }
}

#[test]
fn status_shows_source_eq_and_volume() {
    let reading = PlayerStatus {
        mode: String::from("31"),
        eq: String::from("17"),
        mute: String::from("0"),
        vol: String::from("42"),
        ..blank_status()
    };
    let action = status("Kitchen", &reading);
    assert_eq!(action.send, None);
    assert_eq!(
        action.show,
        vec![
            "Kitchen",
            "  Source:   SPOTIFY",
            "  Status:   ",
            "  Volume:   42",
            "  EQ:       Pop",
        ]
    );
}

#[test]
fn status_marks_a_muted_speaker() {
    let reading = PlayerStatus {
        mode: String::from("41"),
        status: String::from("play"),
        eq: String::from("0"),
        mute: String::from("1"),
        vol: String::from("7"),
        ..blank_status()
    };
    let action = status("C20", &reading);
    assert_eq!(
        action.show,
        vec![
            "C20",
            "  Source:   BLUETOOTH",
            "  Status:   play",
            "  Volume:   7 (muted)",
            "  EQ:       Off",
        ]
    );
}

#[test]
fn status_shows_unknown_codes_as_they_are() {
    let reading = PlayerStatus {
        mode: String::from("x7"),
        eq: String::from("99"),
        vol: String::from("loud"),
        mute: String::from("yes"),
        ..blank_status()
    };
    let action = status("", &reading);
    assert_eq!(
        action.show,
        vec!["", "  Source:   X7", "  Status:   ", "  Volume:   loud", "  EQ:       Unknown"]
    );
}

#[test]
fn status_shows_the_track() {
    let reading = PlayerStatus {
        mode: String::from("10"),
        status: String::from("play"),
        vol: String::from("30"),
        mute: String::from("0"),
        eq: String::from("19"),
        title: String::from("e99baae381aee7a8ae"),
        artist: String::from("48656C6C6F"),
        curpos: String::from("45000"),
        totlen: String::from("125000"),
        ..blank_status()
    };
    let action = status("Den", &reading);
    assert_eq!(
        action.show,
        vec![
            "Den",
            "  Source:   WIFI",
            "  Status:   play",
            "  Volume:   30",
            "  EQ:       Rock",
            "",
            "  Track:    雪の種",
            "  Artist:   Hello",
            "  Time:     00:45 / 02:05",
        ]
    );
}

#[test]
fn status_leaves_out_what_is_not_known_of_the_track() {
    let only_artist = PlayerStatus {
        artist: String::from("4162"),
        curpos: String::from("1000"),
        totlen: String::from("0"),
        ..blank_status()
    };
    assert_eq!(status("n", &only_artist).show[5..], ["", "  Artist:   Ab"]);

    let only_title = PlayerStatus {
        title: String::from("4162"),
        curpos: String::from("junk"),
        totlen: String::from("61000"),
        ..blank_status()
    };
    assert_eq!(
        status("n", &only_title).show[5..],
        ["", "  Track:    Ab", "  Time:     00:00 / 01:01"]
    );

    let no_length = PlayerStatus { title: String::from("4162"), ..blank_status() };
    assert_eq!(status("n", &no_length).show[5..], ["", "  Track:    Ab"]);

    let no_track = PlayerStatus {
        title: String::from("zz"),
        curpos: String::from("1000"),
        totlen: String::from("61000"),
        ..blank_status()
    };
    assert_eq!(status("n", &no_track).show.len(), 5);
}

#[test]
fn volume_absolute() {
    let action = volume("42", 0).unwrap();
    assert_eq!(sent(&action), Some("setPlayerCmd:vol:42"));
    assert_eq!(action.show, vec!["Volume: 42"]);
}

#[test]
fn volume_relative() {
    let action = volume("+10", 50).unwrap();
    assert_eq!(sent(&action), Some("setPlayerCmd:vol:60"));
    assert_eq!(action.show, vec!["Volume: 60"]);
    let action = volume("-5", 0).unwrap();
    assert_eq!(sent(&action), Some("setPlayerCmd:vol:0"));
    assert_eq!(action.show, vec!["Volume: 0"]);
}

#[test]
fn volume_capped() {
    let action = volume("150", 50).unwrap();
    assert_eq!(sent(&action), Some("setPlayerCmd:vol:100"));
    assert_eq!(action.show, vec!["Volume: 100"]);
    let action = volume("+10", 95).unwrap();
    assert_eq!(sent(&action), Some("setPlayerCmd:vol:100"));
}

#[test]
fn volume_refused() {
    assert_eq!(failure(volume("abc", 50)), CommandError::InvalidVolumeLevel);
    assert_eq!(failure(volume("+abc", 50)), CommandError::InvalidVolumeAdjustment);
}

#[test]
fn mute_switches_over() {
    let muted = PlayerStatus { mute: String::from("1"), ..blank_status() };
    let action = mute(&muted);
    assert_eq!(sent(&action), Some("setPlayerCmd:mute:0"));
    assert_eq!(action.show, vec!["Unmuted"]);

    for field in ["0", "", "01", "true"] {
        let open = PlayerStatus { mute: String::from(field), ..blank_status() };
        let action = mute(&open);
        assert_eq!(sent(&action), Some("setPlayerCmd:mute:1"));
        assert_eq!(action.show, vec!["Muted"]);
    }
}

#[test]
fn playback_words() {
    let expected = [
        ("play", "Playing"),
        ("pause", "Paused"),
        ("stop", "Stopped"),
        ("next", "Next track"),
        ("prev", "Previous track"),
        ("resume", "resume"),
        ("Play", "Play"),
    ];
    for (cmd, line) in expected {
        let action = playback(cmd);
        assert_eq!(action.send, Some(format!("setPlayerCmd:{}", cmd)));
        assert_eq!(action.show, vec![line]);
    }
}

#[test]
fn source_switches() {
    let action = source(Some("BT")).unwrap();
    assert_eq!(sent(&action), Some("setPlayerCmd:switchmode:bluetooth"));
    assert_eq!(action.show, vec!["Source: BLUETOOTH"]);
    let action = source(Some("usb")).unwrap();
    assert_eq!(sent(&action), Some("setPlayerCmd:switchmode:udisk"));
    assert_eq!(action.show, vec!["Source: UDISK"]);
    let action = source(Some("linein")).unwrap();
    assert_eq!(sent(&action), Some("setPlayerCmd:switchmode:line-in"));
    assert_eq!(action.show, vec!["Source: LINE-IN"]);
}

#[test]
fn source_lists_without_a_name() {
    let action = source(None).unwrap();
    assert_eq!(action.send, None);
    assert_eq!(
        action.show,
        vec![
            "Available sources:",
            "  wifi",
            "  bluetooth (bt)",
            "  spotify",
            "  line-in (linein)",
            "  optical",
            "  airplay",
            "  dlna",
            "  usb",
        ]
    );
}

#[test]
fn source_refused() {
    assert_eq!(
        failure(source(Some("Tape"))),
        CommandError::UnknownSource(String::from("Tape"))
    );
}

#[test]
fn eq_by_number_and_name() {
    let action = eq(Some("17")).unwrap();
    assert_eq!(sent(&action), Some("setPlayerCmd:equalizer:17"));
    assert_eq!(action.show, vec!["EQ: Pop"]);
    let action = eq(Some("jazz")).unwrap();
    assert_eq!(sent(&action), Some("setPlayerCmd:equalizer:11"));
    assert_eq!(action.show, vec!["EQ: Jazz"]);
}

#[test]
fn eq_sends_the_code_without_padding() {
    let action = eq(Some("007")).unwrap();
    assert_eq!(sent(&action), Some("setPlayerCmd:equalizer:7"));
    assert_eq!(action.show, vec!["EQ: Deep"]);
    let action = eq(Some("+24")).unwrap();
    assert_eq!(sent(&action), Some("setPlayerCmd:equalizer:24"));
    let action = eq(Some("000")).unwrap();
    assert_eq!(sent(&action), Some("setPlayerCmd:equalizer:0"));
    assert_eq!(action.show, vec!["EQ: Off"]);
}

#[test]
fn eq_lists_without_a_preset() {
    let action = eq(None).unwrap();
    assert_eq!(action.send, None);
    assert_eq!(action.show.len(), 26);
    assert_eq!(action.show[0], "EQ Presets:");
    assert_eq!(action.show[1], "   0  Off");
    assert_eq!(action.show[10], "   9  Game");
    assert_eq!(action.show[11], "  10  Hip-Hop");
    assert_eq!(action.show[25], "  24  Vocal Booster");
}

#[test]
fn eq_refused() {
    assert_eq!(failure(eq(Some("25"))), CommandError::InvalidRange);
    assert_eq!(failure(eq(Some("300"))), CommandError::InvalidRange);
    assert_eq!(failure(eq(Some("-1"))), CommandError::InvalidRange);
    assert_eq!(failure(eq(Some("disco"))), CommandError::UnknownPreset(String::from("disco")));
}

#[test]
fn preset_keys() {
    for number in 1..=10u8 {
        let action = preset(number).unwrap();
        assert_eq!(action.send, Some(format!("MCUKeyShortClick:{}", number)));
        assert_eq!(action.show, vec![format!("Preset {} triggered", number)]);
    }
}

#[test]
fn preset_refused() {
    for number in [0u8, 11, 12, 100, 255] {
        assert_eq!(failure(preset(number)), CommandError::InvalidPresetKey);
    }
}

#[test]
fn reboot_sends_reboot() {
    let action = reboot();
    assert_eq!(sent(&action), Some("reboot"));
    assert_eq!(action.show, vec!["Rebooting speaker..."]);
}

#[test]
fn seek_positions() {
    let action = seek("30000").unwrap();
    assert_eq!(sent(&action), Some("setPlayerCmd:seek:30000"));
    assert_eq!(action.show, vec!["Seeking to 00:30"]);
    let action = seek("0225000").unwrap();
    assert_eq!(sent(&action), Some("setPlayerCmd:seek:225000"));
    assert_eq!(action.show, vec!["Seeking to 03:45"]);
    let action = seek("0").unwrap();
    assert_eq!(sent(&action), Some("setPlayerCmd:seek:0"));
    assert_eq!(action.show, vec!["Seeking to 00:00"]);
}

#[test]
fn seek_refused() {
    for position in ["", "-1", "1:30", "soon", "18446744073709551616"] {
        assert_eq!(failure(seek(position)), CommandError::InvalidPosition);
    }
}

#[test]
fn loop_mode_by_code_and_name() {
    let action = loop_mode(Some("-1"), "").unwrap();
    assert_eq!(sent(&action), Some("setPlayerCmd:loopmode:-1"));
    assert_eq!(action.show, vec!["Loop mode: Repeat One"]);
    let action = loop_mode(Some("repeat one"), "").unwrap();
    assert_eq!(sent(&action), Some("setPlayerCmd:loopmode:-1"));
    assert_eq!(action.show, vec!["Loop mode: Repeat One"]);
    let action = loop_mode(Some("SHUFFLE + REPEAT"), "0").unwrap();
    assert_eq!(sent(&action), Some("setPlayerCmd:loopmode:3"));
    assert_eq!(action.show, vec!["Loop mode: Shuffle + Repeat"]);
}

#[test]
fn loop_needs_reading_without_a_mode() {
    assert!(loop_needs_reading(None));
    assert!(!loop_needs_reading(Some("2")));
    assert!(!loop_needs_reading(Some("")));
    assert!(!loop_needs_reading(Some("nonsense")));
}

#[test]
fn loop_mode_with_a_mode_ignores_the_reading() {
    for current in ["", "0", "2", "-1", "junk"] {
        let action = loop_mode(Some("shuffle"), current).unwrap();
        assert_eq!(sent(&action), Some("setPlayerCmd:loopmode:2"));
        assert_eq!(action.show, vec!["Loop mode: Shuffle"]);
    }
}

#[test]
fn volume_capped_whatever_its_size() {
    let action = volume("2147483648", 50).unwrap();
    assert_eq!(sent(&action), Some("setPlayerCmd:vol:100"));
    assert_eq!(action.show, vec!["Volume: 100"]);
    let action = volume("-99999999999999999999", 50).unwrap();
    assert_eq!(sent(&action), Some("setPlayerCmd:vol:0"));
}

#[test]
fn loop_mode_refused() {
    assert_eq!(
        failure(loop_mode(Some("+1"), "1")),
        CommandError::UnknownLoopMode(String::from("+1"))
    );
    assert_eq!(
        failure(loop_mode(Some("random"), "1")),
        CommandError::UnknownLoopMode(String::from("random"))
    );
}

#[test]
fn loop_mode_shows_the_current_one() {
    let action = loop_mode(None, "2").unwrap();
    assert_eq!(action.send, None);
    assert_eq!(
        action.show,
        vec![
            "Loop mode: Shuffle (2)",
            "",
            "Available loop modes:",
            "   0  Sequential",
            "   1  Repeat All",
            "   2  Shuffle",
            "   3  Shuffle + Repeat",
            "  -1  Repeat One",
        ]
    );
    assert_eq!(loop_mode(None, "-1").unwrap().show[0], "Loop mode: Repeat One (-1)");
    assert_eq!(loop_mode(None, "7").unwrap().show[0], "Loop mode: Unknown (7)");
    assert_eq!(loop_mode(None, "").unwrap().show[0], "Loop mode: Unknown ()");
}

#[test]
fn info_shows_everything_that_is_reported() {
    let device = DeviceInfo {
        device_name: String::from("Living Room"),
        firmware: String::from("4.6.415145"),
        hardware: String::from("A31"),
        uuid: String::from("FF31F09E"),
        wifi_ip: String::from("192.168.1.20"),
        eth_ip: String::from("192.168.1.21"),
        mac: String::from("00:22:6C:AA:BB:CC"),
        netstat: String::from("2"),
        mcu_ver: String::from("35"),
    };
    let action = info("C20", &device);
    assert_eq!(action.send, None);
    assert_eq!(
        action.show,
        vec![
            "Living Room",
            "  Firmware: 4.6.415145",
            "  Hardware: A31",
            "  MCU:      35",
            "  MAC:      00:22:6C:AA:BB:CC",
            "  WiFi:     192.168.1.20 (Connected)",
            "  Ethernet: 192.168.1.21",
            "  UUID:     FF31F09E",
        ]
    );
}

#[test]
fn info_leaves_out_what_is_empty() {
    let action = info("C20", &blank_info());
    assert_eq!(action.show, vec!["C20", "  WiFi:      ()"]);

    let device = DeviceInfo {
        mcu_ver: String::from("0"),
        netstat: String::from("0"),
        hardware: String::from("A31"),
        ..blank_info()
    };
    assert_eq!(
        info("C20", &device).show,
        vec!["C20", "  Hardware: A31", "  WiFi:      (Not connected)"]
    );
}

#[test]
fn info_spells_out_the_connection_state() {
    let expected = [
        ("0", "Not connected"),
        ("1", "Connecting"),
        ("2", "Connected"),
        ("3", "3"),
        ("", ""),
        ("up", "up"),
    ];
    for (code, words) in expected {
        let device = DeviceInfo {
            netstat: String::from(code),
            wifi_ip: String::from("10.0.0.2"),
            ..blank_info()
        };
        assert_eq!(info("n", &device).show[1], format!("  WiFi:     10.0.0.2 ({})", words));
    }
}

#[test]
fn play_uri_sends_the_address_as_it_is() {
    let action = play_uri("http://radio.example/stream?x=1&y=2");
    assert_eq!(sent(&action), Some("setPlayerCmd:play:http://radio.example/stream?x=1&y=2"));
    assert_eq!(action.show, vec!["Playing: http://radio.example/stream?x=1&y=2"]);
}

#[test]
fn messages() {
    assert_eq!(CommandError::InvalidVolumeAdjustment.message(), "Invalid volume adjustment");
    assert_eq!(CommandError::InvalidVolumeLevel.message(), "Invalid volume level");
    assert_eq!(
        CommandError::UnknownSource(String::from("Tape")).message(),
        "Unknown source 'Tape'. Use 'audiopro source' to list available sources."
    );
    assert_eq!(CommandError::InvalidRange.message(), "EQ preset must be 0-24");
    assert_eq!(
        CommandError::UnknownPreset(String::from("disco")).message(),
        "Unknown EQ preset 'disco'. Use number 0-24 or preset name."
    );
    assert_eq!(CommandError::InvalidPresetKey.message(), "Preset must be 1-10");
    assert_eq!(
        CommandError::InvalidPosition.message(),
        "Invalid position: must be a number of milliseconds"
    );
    assert_eq!(
        CommandError::UnknownLoopMode(String::from("+1")).message(),
        "Unknown loop mode '+1'. Use 'audiopro loop' to list modes."
    );
}
