//! The ways in which a command can be refused before anything is sent.

use vstd::prelude::*;

verus! {

/// Why a command was refused. A refusal names what was typed wherever the
/// message shown to the operator repeats it.
#[derive(Debug, PartialEq, Eq)]
pub enum CommandError {
    /// A volume starting with `+` or `-` that is no signed integer.
    InvalidVolumeAdjustment,
    /// A volume without sign that is no integer.
    InvalidVolumeLevel,
    /// A source name that the source table does not hold.
    UnknownSource(String),
    /// An equalizer preset given by a number above 24.
    InvalidRange,
    /// An equalizer preset given by a name that no preset has.
    UnknownPreset(String),
    /// A preset key outside 1 to 10.
    InvalidPresetKey,
    /// A seek position that is no count of milliseconds.
    InvalidPosition,
    /// A loop mode that is neither a code nor a name of the loop table.
    UnknownLoopMode(String),
}

/// A refusal as contracts see it: the same cases, with text in place of
/// strings.
pub enum Failure {
    InvalidVolumeAdjustment,
    InvalidVolumeLevel,
    UnknownSource(Seq<char>),
    InvalidRange,
    UnknownPreset(Seq<char>),
    InvalidPresetKey,
    InvalidPosition,
    UnknownLoopMode(Seq<char>),
}

impl View for CommandError {
    type V = Failure;

    open spec fn view(&self) -> Failure {
        match self {
            CommandError::InvalidVolumeAdjustment => Failure::InvalidVolumeAdjustment,
            CommandError::InvalidVolumeLevel => Failure::InvalidVolumeLevel,
            CommandError::UnknownSource(name) => Failure::UnknownSource(name@),
            CommandError::InvalidRange => Failure::InvalidRange,
            CommandError::UnknownPreset(name) => Failure::UnknownPreset(name@),
            CommandError::InvalidPresetKey => Failure::InvalidPresetKey,
            CommandError::InvalidPosition => Failure::InvalidPosition,
            CommandError::UnknownLoopMode(name) => Failure::UnknownLoopMode(name@),
        }
    }
}

/// The line shown to the operator for a refusal.
pub open spec fn message_of(failure: Failure) -> Seq<char> {
    match failure {
        Failure::InvalidVolumeAdjustment => "Invalid volume adjustment"@,
        Failure::InvalidVolumeLevel => "Invalid volume level"@,
        Failure::UnknownSource(name) => "Unknown source '"@ + name
            + "'. Use 'audiopro source' to list available sources."@,
        Failure::InvalidRange => "EQ preset must be 0-24"@,
        Failure::UnknownPreset(name) => "Unknown EQ preset '"@ + name
            + "'. Use number 0-24 or preset name."@,
        Failure::InvalidPresetKey => "Preset must be 1-10"@,
        Failure::InvalidPosition => "Invalid position: must be a number of milliseconds"@,
        Failure::UnknownLoopMode(name) => "Unknown loop mode '"@ + name
            + "'. Use 'audiopro loop' to list modes."@,
    }
}

impl CommandError {
    /// The line shown to the operator for this refusal.
    pub fn message(&self) -> (line: String)
        ensures
            line@ == message_of(self@),
    {
        match self {
            CommandError::InvalidVolumeAdjustment => "Invalid volume adjustment".to_owned(),
            CommandError::InvalidVolumeLevel => "Invalid volume level".to_owned(),
            CommandError::UnknownSource(name) => {
                let mut line = "Unknown source '".to_owned();
                line.append(name.as_str());
                line.append("'. Use 'audiopro source' to list available sources.");
                line
            },
            CommandError::InvalidRange => "EQ preset must be 0-24".to_owned(),
            CommandError::UnknownPreset(name) => {
                let mut line = "Unknown EQ preset '".to_owned();
                line.append(name.as_str());
                line.append("'. Use number 0-24 or preset name.");
                line
            },
            CommandError::InvalidPresetKey => "Preset must be 1-10".to_owned(),
            CommandError::InvalidPosition => {
                "Invalid position: must be a number of milliseconds".to_owned()
            },
            CommandError::UnknownLoopMode(name) => {
                let mut line = "Unknown loop mode '".to_owned();
                line.append(name.as_str());
                line.append("'. Use 'audiopro loop' to list modes.");
                line
            },
        }
    }
}

} // verus!
