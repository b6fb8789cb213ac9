//! The resolvers: from what the operator typed to what the speaker takes,
//! and from what the speaker reports to what the operator reads.
//!
//! Every resolver is a function of its input and the fixed tables alone.

use crate::constants::{
    eq_entries, eq_presets, find_key, find_value_ignoring_case, first_at, folded_values, keys_of,
    lemma_absent, lemma_eq_codes_are_positions, lemma_eq_names, lemma_first_at, lemma_loop_codes,
    lemma_loop_names, lemma_mode_codes_distinct, lemma_source_names_distinct,
    lemma_source_names_lowercase, loop_entries, loop_mode_map, lookup, mode_entries, mode_map,
    source_entries, source_to_mode,
};
use crate::decimal::{
    decimal_text, lemma_decimal_roundtrip, parse_held, parse_i32, parsed_i32, signed_number,
};
use crate::error::{CommandError, Failure};
use crate::text::lowercase;
use vstd::prelude::*;

verus! {

/// The label shown for a mode code: the one from the mode table, or the code
/// itself where the table has none.
pub open spec fn mode_label_of(code: Seq<char>) -> Seq<char> {
    match lookup(mode_entries(), code) {
        Some(label) => label,
        None => code,
    }
}

/// The label shown for the mode code that the speaker reports. Never fails:
/// a code that the table does not hold is shown as it came.
pub fn mode_label(code: &str) -> (label: String)
    ensures
        label@ == mode_label_of(code@),
{
    let modes = mode_map();
    match modes.get(code) {
        Some(label) => (*label).to_owned(),
        None => code.to_owned(),
    }
}

/// The mode word for a source name: the name is put in lowercase and looked
/// up in the source table.
pub open spec fn source_choice(name: Seq<char>) -> Result<Seq<char>, Failure> {
    match lookup(source_entries(), lowercase(name)) {
        Some(mode) => Ok(mode),
        None => Err(Failure::UnknownSource(name)),
    }
}

/// Resolves a source name, typed in any case, to the mode word of the
/// `switchmode` command.
pub fn resolve_source(name: &str) -> (r: Result<&'static str, CommandError>)
    ensures
        match source_choice(name@) {
            Ok(mode) => r matches Ok(word) && word@ == mode,
            Err(failure) => r matches Err(e) && e@ == failure,
        },
{
    let sources = source_to_mode();
    let folded = name.to_lowercase();
    match sources.get(folded.as_str()) {
        Some(mode) => Ok(*mode),
        None => Err(CommandError::UnknownSource(name.to_owned())),
    }
}

/// The place in the equalizer table that an input selects.
///
/// An input that is written as an integer, of whatever size and sign, is a
/// code: it selects its own place if it lies between 0 and 24 and is out of
/// range otherwise. Any other input is a name, and selects the first preset
/// of that name, the case of letters set aside.
pub open spec fn eq_choice(input: Seq<char>) -> Result<int, Failure> {
    match signed_number(input) {
        Some(n) => if 0 <= n <= 24 {
            Ok(n)
        } else {
            Err(Failure::InvalidRange)
        },
        None => match folded_values(eq_entries()).index_of_first(lowercase(input)) {
            Some(i) => Ok(i),
            None => Err(Failure::UnknownPreset(input)),
        },
    }
}

/// Resolves an equalizer preset given by code or by name to its code and its
/// display name.
///
/// A code in range always has a name: the table holds the codes 0 to 24 in
/// order, so the name is the one that the table gives for the code.
pub fn resolve_eq(input: &str) -> (r: Result<(u8, &'static str), CommandError>)
    ensures
        match eq_choice(input@) {
            Ok(i) => {
                &&& 0 <= i < 25
                &&& r matches Ok((code, name))
                &&& code == i
                &&& name@ == eq_entries()[i].1
            },
            Err(failure) => r matches Err(e) && e@ == failure,
        },
{
    let presets = eq_presets();
    assert(presets@.len() == eq_entries().len());
    match parse_held(input) {
        Some(n) => {
            if n < 0 || n > 24 {
                Err(CommandError::InvalidRange)
            } else {
                Ok((n as u8, presets[n as usize].1))
            }
        },
        None => match find_value_ignoring_case(&presets, input) {
            Some(i) => Ok((i as u8, presets[i].1)),
            None => Err(CommandError::UnknownPreset(input.to_owned())),
        },
    }
}

/// The display name for an equalizer code: the one from the table, or
/// "Unknown".
pub open spec fn eq_name_of(code: Seq<char>) -> Seq<char> {
    match lookup(eq_entries(), code) {
        Some(name) => name,
        None => "Unknown"@,
    }
}

/// The display name for the equalizer code that the speaker reports.
pub fn eq_name(code: &str) -> (name: &'static str)
    ensures
        name@ == eq_name_of(code@),
{
    let presets = eq_presets();
    match find_key(&presets, code) {
        Some(i) => presets[i].1,
        None => "Unknown",
    }
}

/// The place in the loop table that an input selects.
///
/// An input that is written as an integer is a code, and selects the pair
/// with exactly that text as its code: `+1` and `01` are integers and select
/// nothing. Any other input is a name, and selects the first mode of that
/// name, the case of letters set aside.
pub open spec fn loop_choice(input: Seq<char>) -> Result<int, Failure> {
    let found = if signed_number(input) is Some {
        keys_of(loop_entries()).index_of_first(input)
    } else {
        folded_values(loop_entries()).index_of_first(lowercase(input))
    };
    match found {
        Some(i) => Ok(i),
        None => Err(Failure::UnknownLoopMode(input)),
    }
}

/// Resolves a loop mode given by code or by name to its code and its display
/// name.
pub fn resolve_loop(input: &str) -> (r: Result<(&'static str, &'static str), CommandError>)
    ensures
        match loop_choice(input@) {
            Ok(i) => {
                &&& 0 <= i < 5
                &&& r matches Ok((code, name))
                &&& code@ == loop_entries()[i].0
                &&& name@ == loop_entries()[i].1
            },
            Err(failure) => r matches Err(e) && e@ == failure,
        },
{
    let modes = loop_mode_map();
    assert(modes@.len() == loop_entries().len());
    let found = if parse_held(input).is_some() {
        find_key(&modes, input)
    } else {
        find_value_ignoring_case(&modes, input)
    };
    match found {
        Some(i) => Ok((modes[i].0, modes[i].1)),
        None => Err(CommandError::UnknownLoopMode(input.to_owned())),
    }
}

/// The display name for a loop code: the one from the table, or "Unknown".
pub open spec fn loop_name_of(code: Seq<char>) -> Seq<char> {
    match lookup(loop_entries(), code) {
        Some(name) => name,
        None => "Unknown"@,
    }
}

/// The display name for the loop code that the speaker reports.
pub fn loop_name(code: &str) -> (name: &'static str)
    ensures
        name@ == loop_name_of(code@),
{
    let modes = loop_mode_map();
    match find_key(&modes, code) {
        Some(i) => modes[i].1,
        None => "Unknown",
    }
}

/// Whether a volume is an adjustment of the current one: it starts with a
/// sign.
pub open spec fn is_relative(level: Seq<char>) -> bool {
    level.len() > 0 && (level[0] == '+' || level[0] == '-')
}

/// `level` held to the range of volumes, 0 to 100.
pub open spec fn clamp_volume(level: int) -> int {
    if level < 0 {
        0
    } else if level > 100 {
        100
    } else {
        level
    }
}

/// The volume that the speaker's status stands for: the number in its volume
/// field, or 50 where the field holds no integer that fits 32 bits.
pub open spec fn current_volume_of(field: Seq<char>) -> int {
    match parsed_i32(field) {
        Some(volume) => volume as int,
        None => 50,
    }
}

/// The volume to set for a volume typed by the operator.
///
/// With a sign in front it is added to the current volume, without one it
/// stands for itself; either way the result is capped to 0 and 100. An
/// integer is never refused for being too large or too small, whatever its
/// size.
pub open spec fn volume_choice(level: Seq<char>, current: int) -> Result<int, Failure> {
    match signed_number(level) {
        Some(n) => Ok(
            clamp_volume(
                if is_relative(level) {
                    current + n
                } else {
                    n
                },
            ),
        ),
        None => Err(
            if is_relative(level) {
                Failure::InvalidVolumeAdjustment
            } else {
                Failure::InvalidVolumeLevel
            },
        ),
    }
}

/// Whether a volume typed by the operator is an adjustment, so that the
/// current volume has to be read before it can be resolved.
pub fn volume_is_relative(level: &str) -> (relative: bool)
    ensures
        relative == is_relative(level@),
{
    if level.is_empty() {
        false
    } else {
        let first = level.get_char(0);
        first == '+' || first == '-'
    }
}

/// The current volume according to the volume field of the speaker's status.
pub fn current_volume(field: &str) -> (volume: i32)
    ensures
        volume == current_volume_of(field@),
{
    match parse_i32(field) {
        Some(volume) => volume,
        None => 50,
    }
}

/// Resolves a volume typed by the operator against the current volume.
pub fn resolve_volume(level: &str, current: i32) -> (r: Result<u8, CommandError>)
    ensures
        match volume_choice(level@, current as int) {
            Ok(volume) => r == Ok::<u8, CommandError>(volume as u8) && 0 <= volume <= 100,
            Err(failure) => r matches Err(e) && e@ == failure,
        },
{
    let relative = volume_is_relative(level);
    match parse_held(level) {
        Some(n) => {
            // Held to 64 bits, the number is on the same side of 0 and of 100
            // as it was, and stays there with a current volume of 32 bits.
            let target: i128 = if relative {
                current as i128 + n as i128
            } else {
                n as i128
            };
            if target < 0 {
                Ok(0)
            } else if target > 100 {
                Ok(100)
            } else {
                Ok(target as u8)
            }
        },
        None => {
            if relative {
                Err(CommandError::InvalidVolumeAdjustment)
            } else {
                Err(CommandError::InvalidVolumeLevel)
            }
        },
    }
}

/// In a column without repetitions, what stands at a place is first found at
/// that place.
proof fn lemma_found_in_place(column: Seq<Seq<char>>, i: int)
    requires
        column.no_duplicates(),
        0 <= i < column.len(),
    ensures
        column.index_of_first(column[i]) == Some(i),
{
    assert(first_at(column, column[i], i));
    lemma_first_at(column, column[i], i);
}

/// Every code of the mode table is shown as the label that the table gives
/// it.
pub proof fn lemma_mode_label_of_code(i: int)
    requires
        0 <= i < mode_entries().len(),
    ensures
        mode_label_of(mode_entries()[i].0) == mode_entries()[i].1,
{
    lemma_mode_codes_distinct();
    lemma_found_in_place(keys_of(mode_entries()), i);
}

/// A code that the mode table does not hold is shown as it is.
pub proof fn lemma_mode_label_of_stranger(code: Seq<char>)
    requires
        forall|i: int| 0 <= i < mode_entries().len() ==> mode_entries()[i].0 != code,
    ensures
        mode_label_of(code) == code,
{
    lemma_absent(keys_of(mode_entries()), code);
}

/// Every name of the source table, in whatever case its letters are typed,
/// leads to the mode that the table gives it.
pub proof fn lemma_source_of_name(i: int, typed: Seq<char>)
    requires
        0 <= i < source_entries().len(),
        lowercase(typed) == source_entries()[i].0,
    ensures
        source_choice(typed) == Ok::<Seq<char>, Failure>(source_entries()[i].1),
{
    lemma_source_names_distinct();
    lemma_found_in_place(keys_of(source_entries()), i);
}

/// Every name of the source table leads to its mode as it is written there.
pub proof fn lemma_source_of_table_name(i: int)
    requires
        0 <= i < source_entries().len(),
    ensures
        source_choice(source_entries()[i].0) == Ok::<Seq<char>, Failure>(source_entries()[i].1),
{
    lemma_source_names_lowercase();
    lemma_source_of_name(i, source_entries()[i].0);
}

/// A text that starts with a capital letter is no integer.
proof fn lemma_name_is_no_number(name: Seq<char>)
    requires
        name.len() > 0,
        'A' <= name[0] <= 'Z',
    ensures
        signed_number(name) is None,
{
}

/// The two ways of naming an equalizer preset agree: the code of a preset
/// selects it, the name of a preset selects it, and the name shown for its
/// code is its name.
pub proof fn lemma_eq_code_and_name_agree(code: int)
    requires
        0 <= code < 25,
    ensures
        eq_choice(decimal_text(code as nat)) == Ok::<int, Failure>(code),
        eq_choice(eq_entries()[code].1) == Ok::<int, Failure>(code),
        eq_entries()[code].0 == decimal_text(code as nat),
        eq_name_of(decimal_text(code as nat)) == eq_entries()[code].1,
{
    lemma_decimal_roundtrip(code as nat);
    lemma_eq_codes_are_positions();
    lemma_eq_names();
    let name = eq_entries()[code].1;
    lemma_name_is_no_number(name);
    lemma_found_in_place(folded_values(eq_entries()), code);
    // The codes are the decimal texts of the places, and those are distinct.
    let codes = keys_of(eq_entries());
    assert forall|j: int| 0 <= j < code implies codes[j] != codes[code] by {
        lemma_decimal_roundtrip(j as nat);
        assert(codes[j] == eq_entries()[j].0);
    }
    assert(codes[code] == eq_entries()[code].0);
    lemma_first_at(codes, decimal_text(code as nat), code);
}

/// The name of an equalizer preset selects it in whatever case its letters
/// are typed.
pub proof fn lemma_eq_name_in_any_case(code: int, typed: Seq<char>)
    requires
        0 <= code < 25,
        signed_number(typed) is None,
        lowercase(typed) == lowercase(eq_entries()[code].1),
    ensures
        eq_choice(typed) == Ok::<int, Failure>(code),
{
    lemma_eq_names();
    lemma_found_in_place(folded_values(eq_entries()), code);
}

/// The two ways of naming a loop mode agree: the code of a mode selects it,
/// and so does its name.
pub proof fn lemma_loop_code_and_name_agree(i: int)
    requires
        0 <= i < 5,
    ensures
        loop_choice(loop_entries()[i].0) == Ok::<int, Failure>(i),
        loop_choice(loop_entries()[i].1) == Ok::<int, Failure>(i),
        loop_name_of(loop_entries()[i].0) == loop_entries()[i].1,
{
    lemma_loop_codes();
    lemma_loop_names();
    lemma_name_is_no_number(loop_entries()[i].1);
    lemma_found_in_place(keys_of(loop_entries()), i);
    lemma_found_in_place(folded_values(loop_entries()), i);
}

/// A loop code is matched as text, not as a number: an integer that is not
/// written exactly like one of the codes selects nothing, whatever its value.
pub proof fn lemma_loop_code_is_text(typed: Seq<char>)
    requires
        signed_number(typed) is Some,
        forall|i: int| 0 <= i < 5 ==> loop_entries()[i].0 != typed,
    ensures
        loop_choice(typed) == Err::<int, Failure>(Failure::UnknownLoopMode(typed)),
{
    lemma_absent(keys_of(loop_entries()), typed);
}

/// A volume without a sign stands for itself: the current volume has no part
/// in it.
pub proof fn lemma_absolute_volume_ignores_current(level: Seq<char>, current: int, other: int)
    requires
        !is_relative(level),
    ensures
        volume_choice(level, current) == volume_choice(level, other),
{
}

/// An equalizer preset given by a number is never mistaken for a name: any
/// integer outside 0 to 24 is out of range, however large it is and whatever
/// its sign.
pub proof fn lemma_eq_number_out_of_range(typed: Seq<char>)
    requires
        signed_number(typed) matches Some(n) && !(0 <= n <= 24),
    ensures
        eq_choice(typed) == Err::<int, Failure>(Failure::InvalidRange),
{
}

/// A volume that is written as an integer is never refused: what is too
/// large or too small is capped.
pub proof fn lemma_volume_never_out_of_range(level: Seq<char>, current: int)
    requires
        signed_number(level) is Some,
    ensures
        volume_choice(level, current) is Ok,
{
}

/// A volume that is accepted is a volume that the speaker takes: between 0
/// and 100, whatever was typed and whatever the current volume is.
pub proof fn lemma_volume_in_range(level: Seq<char>, current: int)
    ensures
        volume_choice(level, current) matches Ok(volume) ==> 0 <= volume <= 100,
{
}

} // verus!
