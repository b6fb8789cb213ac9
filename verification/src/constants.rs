//! The speaker's fixed vocabularies.
//!
//! Four tables tie the tokens of the wire protocol to the words shown to and
//! typed by the operator: playback modes, equalizer presets, loop modes, and
//! the names under which a source can be selected. Each is a list of pairs,
//! built on demand and never changed. The lists are given twice: once as a
//! specification, and once as the executable value that is proved to hold
//! exactly that.

use crate::decimal::{decimal_text, lemma_decimal_roundtrip, signed_number};
use crate::text::{lowercase, same_text};
use vstd::prelude::*;
use vstd::utf8::is_ascii_chars;

verus! {

/// A table as contracts see it: pairs of texts, in table order.
pub type Entries = Seq<(Seq<char>, Seq<char>)>;

/// The pairs of an executable table, as texts.
pub open spec fn entries_of(rows: Seq<(&'static str, &'static str)>) -> Entries {
    rows.map_values(|row: (&'static str, &'static str)| (row.0@, row.1@))
}

/// The left column of a table.
pub open spec fn keys_of(entries: Entries) -> Seq<Seq<char>> {
    entries.map_values(|entry: (Seq<char>, Seq<char>)| entry.0)
}

/// The right column of a table.
pub open spec fn values_of(entries: Entries) -> Seq<Seq<char>> {
    entries.map_values(|entry: (Seq<char>, Seq<char>)| entry.1)
}

/// What a table gives for `key`: the right-hand side of the first pair whose
/// left-hand side is `key`.
pub open spec fn lookup(entries: Entries, key: Seq<char>) -> Option<Seq<char>> {
    match keys_of(entries).index_of_first(key) {
        Some(i) => Some(entries[i].1),
        None => None,
    }
}

/// Whether `i` is the first place at which `needle` occurs in `column`.
pub open spec fn first_at(column: Seq<Seq<char>>, needle: Seq<char>, i: int) -> bool {
    &&& 0 <= i < column.len()
    &&& column[i] == needle
    &&& forall|j: int| 0 <= j < i ==> column[j] != needle
}

/// The first occurrence is where the definition says it is.
pub proof fn lemma_first_at(column: Seq<Seq<char>>, needle: Seq<char>, i: int)
    requires
        first_at(column, needle, i),
    ensures
        column.index_of_first(needle) == Some(i),
{
    column.index_of_first_ensures(needle);
}

/// A text that occurs nowhere has no first occurrence.
pub proof fn lemma_absent(column: Seq<Seq<char>>, needle: Seq<char>)
    requires
        forall|j: int| 0 <= j < column.len() ==> column[j] != needle,
    ensures
        column.index_of_first(needle) is None,
{
    column.index_of_first_ensures(needle);
}

/// The playback modes that the speaker reports, by wire code.
pub open spec fn mode_entries() -> Entries {
    seq![
        ("0"@, "idle"@),
        ("1"@, "airplay"@),
        ("2"@, "dlna"@),
        ("10"@, "wifi"@),
        ("11"@, "usb"@),
        ("20"@, "http"@),
        ("31"@, "spotify"@),
        ("40"@, "line-in"@),
        ("41"@, "bluetooth"@),
        ("43"@, "optical"@),
        ("99"@, "slave"@),
    ]
}

/// The equalizer presets: wire code and display name, in code order.
pub open spec fn eq_entries() -> Entries {
    seq![
        ("0"@, "Off"@),
        ("1"@, "Flat"@),
        ("2"@, "Acoustic"@),
        ("3"@, "Bass Booster"@),
        ("4"@, "Bass Reducer"@),
        ("5"@, "Classical"@),
        ("6"@, "Dance"@),
        ("7"@, "Deep"@),
        ("8"@, "Electronic"@),
        ("9"@, "Game"@),
        ("10"@, "Hip-Hop"@),
        ("11"@, "Jazz"@),
        ("12"@, "Latin"@),
        ("13"@, "Loudness"@),
        ("14"@, "Lounge"@),
        ("15"@, "Movie"@),
        ("16"@, "Piano"@),
        ("17"@, "Pop"@),
        ("18"@, "R&B"@),
        ("19"@, "Rock"@),
        ("20"@, "Small Speakers"@),
        ("21"@, "Spoken Word"@),
        ("22"@, "Treble Booster"@),
        ("23"@, "Treble Reducer"@),
        ("24"@, "Vocal Booster"@),
    ]
}

/// The names under which a source can be selected, each with the mode word
/// that the speaker's `switchmode` command takes. Several names may lead to
/// one mode.
pub open spec fn source_entries() -> Entries {
    seq![
        ("wifi"@, "wifi"@),
        ("bluetooth"@, "bluetooth"@),
        ("bt"@, "bluetooth"@),
        ("spotify"@, "spotify"@),
        ("line-in"@, "line-in"@),
        ("linein"@, "line-in"@),
        ("optical"@, "optical"@),
        ("airplay"@, "airplay"@),
        ("dlna"@, "dlna"@),
        ("usb"@, "udisk"@),
    ]
}

/// The loop modes: wire code and display name. The code of "Repeat One" is
/// negative, so the codes are not the positions.
pub open spec fn loop_entries() -> Entries {
    seq![
        ("0"@, "Sequential"@),
        ("1"@, "Repeat All"@),
        ("2"@, "Shuffle"@),
        ("3"@, "Shuffle + Repeat"@),
        ("-1"@, "Repeat One"@),
    ]
}

/// The place of the first row of `rows` whose left-hand side is `key`.
pub fn find_key(rows: &Vec<(&'static str, &'static str)>, key: &str) -> (found: Option<usize>)
    ensures
        match found {
            Some(i) => i < rows.len() && keys_of(entries_of(rows@)).index_of_first(key@) == Some(
                i as int,
            ),
            None => keys_of(entries_of(rows@)).index_of_first(key@) is None,
        },
{
    let ghost column = keys_of(entries_of(rows@));
    let mut i: usize = 0;
    while i < rows.len()
        invariant
            i <= rows.len(),
            column == keys_of(entries_of(rows@)),
            forall|j: int| 0 <= j < i ==> column[j] != key@,
        decreases rows.len() - i,
    {
        if same_text(rows[i].0, key) {
            proof {
                lemma_first_at(column, key@, i as int);
            }
            return Some(i);
        }
        i += 1;
    }
    proof {
        lemma_absent(column, key@);
    }
    None
}

/// The right column of a table in lowercase: what a name typed in any case
/// is compared with.
pub open spec fn folded_values(entries: Entries) -> Seq<Seq<char>> {
    entries.map_values(|entry: (Seq<char>, Seq<char>)| lowercase(entry.1))
}

/// The place of the first row of `rows` whose right-hand side is `name`, the
/// case of letters set aside.
pub fn find_value_ignoring_case(rows: &Vec<(&'static str, &'static str)>, name: &str) -> (found:
    Option<usize>)
    ensures
        match found {
            Some(i) => i < rows.len() && folded_values(entries_of(rows@)).index_of_first(
                lowercase(name@),
            ) == Some(i as int),
            None => folded_values(entries_of(rows@)).index_of_first(lowercase(name@)) is None,
        },
{
    let wanted = name.to_lowercase();
    let ghost column = folded_values(entries_of(rows@));
    let mut i: usize = 0;
    while i < rows.len()
        invariant
            i <= rows.len(),
            wanted@ == lowercase(name@),
            column == folded_values(entries_of(rows@)),
            forall|j: int| 0 <= j < i ==> column[j] != wanted@,
        decreases rows.len() - i,
    {
        let folded = rows[i].1.to_lowercase();
        if same_text(folded.as_str(), wanted.as_str()) {
            proof {
                lemma_first_at(column, wanted@, i as int);
            }
            return Some(i);
        }
        i += 1;
    }
    proof {
        lemma_absent(column, wanted@);
    }
    None
}

/// A table with a key column in which nothing occurs twice, so that a key
/// leads to at most one value.
pub struct LookupTable {
    rows: Vec<(&'static str, &'static str)>,
}

impl View for LookupTable {
    type V = Entries;

    closed spec fn view(&self) -> Entries {
        entries_of(self.rows@)
    }
}

impl LookupTable {
    #[verifier::type_invariant]
    spec fn distinct_keys(&self) -> bool {
        keys_of(entries_of(self.rows@)).no_duplicates()
    }

    /// The number of pairs in the table, which is the number of its keys.
    pub fn len(&self) -> (n: usize)
        ensures
            n == self@.len(),
            keys_of(self@).no_duplicates(),
    {
        proof {
            use_type_invariant(self);
        }
        self.rows.len()
    }

    /// The value that the table holds for `key`, if it holds one.
    pub fn get(&self, key: &str) -> (value: Option<&&'static str>)
        ensures
            match lookup(self@, key@) {
                Some(text) => value matches Some(v) && v@ == text,
                None => value is None,
            },
    {
        match find_key(&self.rows, key) {
            Some(i) => Some(&self.rows[i].1),
            None => None,
        }
    }
}

/// No mode code occurs twice.
pub proof fn lemma_mode_codes_distinct()
    ensures
        keys_of(mode_entries()).no_duplicates(),
{
    reveal_strlit("0");
    reveal_strlit("1");
    reveal_strlit("2");
    reveal_strlit("10");
    reveal_strlit("11");
    reveal_strlit("20");
    reveal_strlit("31");
    reveal_strlit("40");
    reveal_strlit("41");
    reveal_strlit("43");
    reveal_strlit("99");
    let ks = keys_of(mode_entries());
    assert(ks.len() == 11);
    assert forall|i: int, j: int| 0 <= i < ks.len() && 0 <= j < ks.len() && i != j implies ks[i]
        != ks[j] by {
        assert(ks[i].len() != ks[j].len() || ks[i][0] != ks[j][0] || ks[i][1] != ks[j][1]);
    }
}

/// The playback modes by wire code.
pub fn mode_map() -> (table: LookupTable)
    ensures
        table@ == mode_entries(),
{
    let rows = vec![
        ("0", "idle"),
        ("1", "airplay"),
        ("2", "dlna"),
        ("10", "wifi"),
        ("11", "usb"),
        ("20", "http"),
        ("31", "spotify"),
        ("40", "line-in"),
        ("41", "bluetooth"),
        ("43", "optical"),
        ("99", "slave"),
    ];
    proof {
        assert(entries_of(rows@) == mode_entries());
        lemma_mode_codes_distinct();
    }
    LookupTable { rows }
}

/// No source name occurs twice.
pub proof fn lemma_source_names_distinct()
    ensures
        keys_of(source_entries()).no_duplicates(),
{
    reveal_strlit("wifi");
    reveal_strlit("bluetooth");
    reveal_strlit("bt");
    reveal_strlit("spotify");
    reveal_strlit("line-in");
    reveal_strlit("linein");
    reveal_strlit("optical");
    reveal_strlit("airplay");
    reveal_strlit("dlna");
    reveal_strlit("usb");
    let ks = keys_of(source_entries());
    assert(ks.len() == 10);
    assert forall|i: int, j: int| 0 <= i < ks.len() && 0 <= j < ks.len() && i != j implies ks[i]
        != ks[j] by {
        assert(ks[i].len() != ks[j].len() || ks[i][0] != ks[j][0]);
    }
}

/// The names under which a source can be selected, each with its mode word.
pub fn source_to_mode() -> (table: LookupTable)
    ensures
        table@ == source_entries(),
{
    let rows = vec![
        ("wifi", "wifi"),
        ("bluetooth", "bluetooth"),
        ("bt", "bluetooth"),
        ("spotify", "spotify"),
        ("line-in", "line-in"),
        ("linein", "line-in"),
        ("optical", "optical"),
        ("airplay", "airplay"),
        ("dlna", "dlna"),
        ("usb", "udisk"),
    ];
    proof {
        assert(entries_of(rows@) == source_entries());
        lemma_source_names_distinct();
    }
    LookupTable { rows }
}

/// The equalizer presets, in code order.
pub fn eq_presets() -> (rows: Vec<(&'static str, &'static str)>)
    ensures
        entries_of(rows@) == eq_entries(),
{
    vec![
        ("0", "Off"),
        ("1", "Flat"),
        ("2", "Acoustic"),
        ("3", "Bass Booster"),
        ("4", "Bass Reducer"),
        ("5", "Classical"),
        ("6", "Dance"),
        ("7", "Deep"),
        ("8", "Electronic"),
        ("9", "Game"),
        ("10", "Hip-Hop"),
        ("11", "Jazz"),
        ("12", "Latin"),
        ("13", "Loudness"),
        ("14", "Lounge"),
        ("15", "Movie"),
        ("16", "Piano"),
        ("17", "Pop"),
        ("18", "R&B"),
        ("19", "Rock"),
        ("20", "Small Speakers"),
        ("21", "Spoken Word"),
        ("22", "Treble Booster"),
        ("23", "Treble Reducer"),
        ("24", "Vocal Booster"),
    ]
}

/// The loop modes, in the order in which they are listed.
pub fn loop_mode_map() -> (rows: Vec<(&'static str, &'static str)>)
    ensures
        entries_of(rows@) == loop_entries(),
{
    vec![
        ("0", "Sequential"),
        ("1", "Repeat All"),
        ("2", "Shuffle"),
        ("3", "Shuffle + Repeat"),
        ("-1", "Repeat One"),
    ]
}

/// The code of an equalizer preset is its position in the table, written in
/// decimal without padding.
pub proof fn lemma_eq_codes_are_positions()
    ensures
        eq_entries().len() == 25,
        forall|i: int| 0 <= i < 25 ==> (#[trigger] eq_entries()[i]).0 == decimal_text(i as nat),
{
    reveal_strlit("0");
    reveal_strlit("1");
    reveal_strlit("2");
    reveal_strlit("3");
    reveal_strlit("4");
    reveal_strlit("5");
    reveal_strlit("6");
    reveal_strlit("7");
    reveal_strlit("8");
    reveal_strlit("9");
    reveal_strlit("10");
    reveal_strlit("11");
    reveal_strlit("12");
    reveal_strlit("13");
    reveal_strlit("14");
    reveal_strlit("15");
    reveal_strlit("16");
    reveal_strlit("17");
    reveal_strlit("18");
    reveal_strlit("19");
    reveal_strlit("20");
    reveal_strlit("21");
    reveal_strlit("22");
    reveal_strlit("23");
    reveal_strlit("24");
    assert forall|i: int| 0 <= i < 25 implies (#[trigger] eq_entries()[i]).0 == decimal_text(
        i as nat,
    ) by {
        reveal_with_fuel(decimal_text, 2);
        assert(eq_entries()[i].0 =~= decimal_text(i as nat));
    }
}

/// The names of the equalizer presets are ASCII, none of them starts like a
/// number, and no two of them are the same once the case of letters is set
/// aside.
pub proof fn lemma_eq_names()
    ensures
        forall|i: int| 0 <= i < 25 ==> is_ascii_chars((#[trigger] eq_entries()[i]).1),
        forall|i: int|
            0 <= i < 25 ==> (#[trigger] eq_entries()[i]).1.len() > 0 && 'A' <= eq_entries()[i].1[0]
                <= 'Z',
        folded_values(eq_entries()).no_duplicates(),
{
    reveal_strlit("Off");
    reveal_strlit("Flat");
    reveal_strlit("Acoustic");
    reveal_strlit("Bass Booster");
    reveal_strlit("Bass Reducer");
    reveal_strlit("Classical");
    reveal_strlit("Dance");
    reveal_strlit("Deep");
    reveal_strlit("Electronic");
    reveal_strlit("Game");
    reveal_strlit("Hip-Hop");
    reveal_strlit("Jazz");
    reveal_strlit("Latin");
    reveal_strlit("Loudness");
    reveal_strlit("Lounge");
    reveal_strlit("Movie");
    reveal_strlit("Piano");
    reveal_strlit("Pop");
    reveal_strlit("R&B");
    reveal_strlit("Rock");
    reveal_strlit("Small Speakers");
    reveal_strlit("Spoken Word");
    reveal_strlit("Treble Booster");
    reveal_strlit("Treble Reducer");
    reveal_strlit("Vocal Booster");
    let names = values_of(eq_entries());
    let folded = folded_values(eq_entries());
    assert(names.len() == 25);
    assert forall|i: int| 0 <= i < 25 implies is_ascii_chars((#[trigger] eq_entries()[i]).1) by {
        assert(names[i] == eq_entries()[i].1);
        assert(names[i].len() <= 14);
    }
    assert forall|i: int, j: int|
        0 <= i < folded.len() && 0 <= j < folded.len() && i != j implies folded[i] != folded[j] by {
        assert(is_ascii_chars(eq_entries()[i].1));
        assert(is_ascii_chars(eq_entries()[j].1));
        assert(names[i] == eq_entries()[i].1);
        assert(names[j] == eq_entries()[j].1);
        assert(folded[i].len() != folded[j].len() || folded[i][0] != folded[j][0] || folded[i][7]
            != folded[j][7]);
    }
}

/// The codes of the loop modes read as the integers 0, 1, 2, 3 and -1, in
/// table order, and no two of them are the same.
pub proof fn lemma_loop_codes()
    ensures
        loop_entries().len() == 5,
        forall|i: int|
            0 <= i < 5 ==> signed_number((#[trigger] loop_entries()[i]).0) == Some(
                if i < 4 {
                    i
                } else {
                    -1int
                },
            ),
        keys_of(loop_entries()).no_duplicates(),
{
    reveal_strlit("0");
    reveal_strlit("1");
    reveal_strlit("2");
    reveal_strlit("3");
    reveal_strlit("-1");
    let ks = keys_of(loop_entries());
    assert(ks.len() == 5);
    assert forall|i: int| 0 <= i < 5 implies signed_number((#[trigger] loop_entries()[i]).0)
        == Some(
        if i < 4 {
            i
        } else {
            -1int
        },
    ) by {
        let code = loop_entries()[i].0;
        if i < 4 {
            assert(code =~= decimal_text(i as nat));
            lemma_decimal_roundtrip(i as nat);
        } else {
            assert(code.drop_first() =~= decimal_text(1));
            lemma_decimal_roundtrip(1);
        }
    }
    assert forall|i: int, j: int| 0 <= i < ks.len() && 0 <= j < ks.len() && i != j implies ks[i]
        != ks[j] by {
        assert(ks[i].len() != ks[j].len() || ks[i][0] != ks[j][0]);
    }
}

/// The names of the loop modes are ASCII, none of them starts like a number,
/// and no two of them are the same once the case of letters is set aside.
pub proof fn lemma_loop_names()
    ensures
        forall|i: int| 0 <= i < 5 ==> is_ascii_chars((#[trigger] loop_entries()[i]).1),
        forall|i: int|
            0 <= i < 5 ==> (#[trigger] loop_entries()[i]).1.len() > 0 && 'A'
                <= loop_entries()[i].1[0] <= 'Z',
        folded_values(loop_entries()).no_duplicates(),
{
    reveal_strlit("Sequential");
    reveal_strlit("Repeat All");
    reveal_strlit("Shuffle");
    reveal_strlit("Shuffle + Repeat");
    reveal_strlit("Repeat One");
    let names = values_of(loop_entries());
    let folded = folded_values(loop_entries());
    assert(names.len() == 5);
    assert forall|i: int| 0 <= i < 5 implies is_ascii_chars((#[trigger] loop_entries()[i]).1) by {
        assert(names[i] == loop_entries()[i].1);
        assert(names[i].len() <= 16);
    }
    assert forall|i: int, j: int|
        0 <= i < folded.len() && 0 <= j < folded.len() && i != j implies folded[i] != folded[j] by {
        assert(is_ascii_chars(loop_entries()[i].1));
        assert(is_ascii_chars(loop_entries()[j].1));
        assert(names[i] == loop_entries()[i].1);
        assert(names[j] == loop_entries()[j].1);
        assert(folded[i].len() != folded[j].len() || folded[i][7] != folded[j][7]);
    }
}

/// The source names are written in lowercase ASCII: putting one in lowercase
/// changes nothing.
pub proof fn lemma_source_names_lowercase()
    ensures
        source_entries().len() == 10,
        forall|i: int|
            0 <= i < 10 ==> lowercase((#[trigger] source_entries()[i]).0)
                == source_entries()[i].0,
{
    reveal_strlit("wifi");
    reveal_strlit("bluetooth");
    reveal_strlit("bt");
    reveal_strlit("spotify");
    reveal_strlit("line-in");
    reveal_strlit("linein");
    reveal_strlit("optical");
    reveal_strlit("airplay");
    reveal_strlit("dlna");
    reveal_strlit("usb");
    assert forall|i: int| 0 <= i < 10 implies lowercase((#[trigger] source_entries()[i]).0)
        == source_entries()[i].0 by {
        let name = source_entries()[i].0;
        assert(name.len() <= 9);
        assert(is_ascii_chars(name));
        assert(lowercase(name) =~= name);
    }
}

} // verus!
