//! The database of known ROM images.
//!
//! The database is read from a text of records. A record opens with a line
//! that holds the MD5 digest of an image in square brackets. The lines up to
//! the next empty line say more about the image: `SaveType=` names its save
//! memory and `GoodName=` gives its title. Two titles stand for a save
//! memory that the name of no save type tells; for them the title counts,
//! not the name. The empty line closes the record and enters it into the
//! database.

use vstd::prelude::*;
use vstd::slice::slice_subrange;
use crate::savetype::SaveType;
use crate::text::{
    ascii,
    ascii_bytes,
    bytes_eq,
    contains,
    contains_bytes,
    starts_with,
    trim,
    trim_matches,
};

verus! {

/// The byte that ends a line.
pub const LINE_FEED: u8 = 0x0A;

/// The byte that may stand before the end of a line.
pub const CARRIAGE_RETURN: u8 = 0x0D;

/// Length of `SaveType=` and of `GoodName=`.
pub const FIELD_NAME_LEN: usize = 9;

/// What a line of the text is.
#[derive(Debug, Clone, Copy, PartialEq, Eq, Structural)]
pub enum LineKind {
    /// The line opens a record.
    Key,
    /// The line names the save type.
    Label,
    /// The line gives the title.
    Title,
    /// The line is empty and closes a record.
    Blank,
    /// The line says nothing that the database keeps.
    Other,
}

/// The record that is being read.
pub struct Record {
    pub key: Seq<u8>,
    /// The save type that the record names.
    pub label: SaveType,
    /// The save type that the title of the record stands for.
    pub forced: Option<SaveType>,
}

/// How far the text has been read: the record that is open, and the
/// records that have been entered.
pub struct Reading {
    pub record: Option<Record>,
    pub entries: Map<Seq<u8>, SaveType>,
}

/// The number of bytes before the first line feed of a text.
pub open spec fn line_end(text: Seq<u8>) -> int
    decreases text.len(),
{
    if text.len() == 0 || text[0] == LINE_FEED {
        0
    } else {
        1 + line_end(text.drop_first())
    }
}

/// The first line of a text, without the line feed that ends it and the
/// carriage return before that line feed.
pub open spec fn first_line(text: Seq<u8>) -> Seq<u8> {
    let end = line_end(text);
    let line = text.subrange(0, end);
    if end < text.len() && line.len() > 0 && line.last() == CARRIAGE_RETURN {
        line.drop_last()
    } else {
        line
    }
}

/// What follows the first line of a text.
pub open spec fn after_first_line(text: Seq<u8>) -> Seq<u8> {
    let end = line_end(text);
    if 0 <= end < text.len() {
        text.subrange(end + 1, text.len() as int)
    } else {
        Seq::empty()
    }
}

/// What a line is.
pub open spec fn line_kind(line: Seq<u8>) -> LineKind {
    if ascii("["@).is_prefix_of(line) {
        LineKind::Key
    } else if ascii("SaveType="@).is_prefix_of(line) {
        LineKind::Label
    } else if ascii("GoodName="@).is_prefix_of(line) {
        LineKind::Title
    } else if line.len() == 0 {
        LineKind::Blank
    } else {
        LineKind::Other
    }
}

/// The key on a line that opens a record: the line without the square
/// brackets around it.
pub open spec fn key_of(line: Seq<u8>) -> Seq<u8> {
    trim(trim(line, 0x5Bu8), 0x5Du8)
}

/// What stands behind `SaveType=` or `GoodName=` on a line.
pub open spec fn value_of(line: Seq<u8>) -> Seq<u8> {
    line.subrange(FIELD_NAME_LEN as int, line.len() as int)
}

/// The save type that a name in the database stands for.
pub open spec fn label_of(name: Seq<u8>) -> SaveType {
    if name == ascii("None"@) {
        SaveType::Nothing
    } else if name == ascii("SRAM"@) {
        SaveType::Sram256Kbit
    } else if name == ascii("Eeprom 4KB"@) {
        SaveType::Eeprom4Kbit
    } else if name == ascii("Eeprom 16KB"@) {
        SaveType::Eeprom16Kbit
    } else if name == ascii("Flash RAM"@) {
        SaveType::FlashRam1Mbit
    } else {
        SaveType::Unknown
    }
}

/// The save type that a title stands for, if it stands for one.
pub open spec fn forced_by(title: Seq<u8>) -> Option<SaveType> {
    if contains_bytes(title, ascii("Dezaemon 3D"@)) {
        Some(SaveType::Sram768Kbit)
    } else if contains_bytes(title, ascii("Pokemon Stadium 2"@)) {
        Some(SaveType::FlashRam1MbitStadium)
    } else {
        None
    }
}

impl Record {
    /// The save type under which the record is entered: the one that its
    /// title stands for, else the one that it names.
    pub open spec fn save_type(self) -> SaveType {
        match self.forced {
            Some(kind) => kind,
            None => self.label,
        }
    }
}

impl Reading {
    /// The reading before the first line.
    pub open spec fn start() -> Reading {
        Reading { record: None, entries: Map::empty() }
    }

    /// Whether a line can follow. A line that names a save type or gives a
    /// title belongs to a record.
    pub open spec fn admits(self, line: Seq<u8>) -> bool {
        (line_kind(line) is Label || line_kind(line) is Title) ==> self.record is Some
    }

    /// The reading after one more line.
    pub open spec fn step(self, line: Seq<u8>) -> Reading {
        match line_kind(line) {
            LineKind::Key => Reading {
                record: Some(Record { key: key_of(line), label: SaveType::Nothing, forced: None }),
                entries: self.entries,
            },
            LineKind::Label => match self.record {
                Some(record) => Reading {
                    record: Some(Record { label: label_of(value_of(line)), ..record }),
                    entries: self.entries,
                },
                None => self,
            },
            LineKind::Title => match self.record {
                Some(record) => match forced_by(value_of(line)) {
                    Some(kind) => Reading {
                        record: Some(Record { forced: Some(kind), ..record }),
                        entries: self.entries,
                    },
                    None => self,
                },
                None => self,
            },
            LineKind::Blank => match self.record {
                Some(record) => Reading {
                    record: None,
                    entries: self.entries.insert(record.key, record.save_type()),
                },
                None => self,
            },
            LineKind::Other => self,
        }
    }

    /// The reading after all lines of a text.
    pub open spec fn read(self, text: Seq<u8>) -> Reading
        decreases text.len(),
    {
        if text.len() == 0 {
            self
        } else {
            proof {
                lemma_line_end(text);
            }
            self.step(first_line(text)).read(after_first_line(text))
        }
    }

    /// The reading after a row of lines.
    pub open spec fn read_lines(self, lines: Seq<Seq<u8>>) -> Reading
        decreases lines.len(),
    {
        if lines.len() == 0 {
            self
        } else {
            self.step(lines[0]).read_lines(lines.drop_first())
        }
    }

    /// Whether every line of a text can follow the lines before it.
    pub open spec fn admits_all(self, text: Seq<u8>) -> bool
        decreases text.len(),
    {
        if text.len() == 0 {
            true
        } else {
            proof {
                lemma_line_end(text);
            }
            self.admits(first_line(text)) && self.step(first_line(text)).admits_all(
                after_first_line(text),
            )
        }
    }
}

/// The lines of a text.
///
/// A line ends with a line feed, or with the text. A carriage return before
/// the line feed is no part of the line.
pub open spec fn lines_of(text: Seq<u8>) -> Seq<Seq<u8>>
    decreases text.len(),
{
    if text.len() == 0 {
        Seq::empty()
    } else {
        proof {
            lemma_line_end(text);
        }
        seq![first_line(text)] + lines_of(after_first_line(text))
    }
}

/// Whether a text is one that a database can be read from.
pub open spec fn well_formed(text: Seq<u8>) -> bool {
    Reading::start().admits_all(text)
}

/// The database that a text describes.
pub open spec fn database_of(text: Seq<u8>) -> Map<Seq<u8>, SaveType> {
    Reading::start().read(text).entries
}

/// The save type that a database holds for a key; `Unknown` where it holds
/// none.
pub open spec fn save_type_of(entries: Map<Seq<u8>, SaveType>, key: Seq<u8>) -> SaveType {
    if entries.contains_key(key) {
        entries[key]
    } else {
        SaveType::Unknown
    }
}

/// One record of the database.
struct Entry {
    key: Vec<u8>,
    save_type: SaveType,
}

/// The save types of known ROM images, by the MD5 digest of the image in
/// upper-case hexadecimal digits.
pub struct RomDatabase {
    entries: Vec<Entry>,
}

/// The record that is being read.
struct OpenRecord {
    key: Vec<u8>,
    label: SaveType,
    forced: Option<SaveType>,
}

/// The map that a row of records makes: a later record replaces an earlier
/// one with the same key.
spec fn entries_map(entries: Seq<Entry>) -> Map<Seq<u8>, SaveType>
    decreases entries.len(),
{
    if entries.len() == 0 {
        Map::empty()
    } else {
        entries_map(entries.drop_last()).insert(entries.last().key@, entries.last().save_type)
    }
}

impl View for RomDatabase {
    type V = Map<Seq<u8>, SaveType>;

    closed spec fn view(&self) -> Map<Seq<u8>, SaveType> {
        entries_map(self.entries@)
    }
}

impl OpenRecord {
    spec fn view(&self) -> Record {
        Record { key: self.key@, label: self.label, forced: self.forced }
    }
}

spec fn record_view(record: Option<OpenRecord>) -> Option<Record> {
    match record {
        Some(record) => Some(record.view()),
        None => None,
    }
}

/// Tells what a line is.
pub fn classify(line: &[u8]) -> (kind: LineKind)
    ensures
        kind == line_kind(line@),
{
    proof {
        reveal_strlit("[");
        reveal_strlit("SaveType=");
        reveal_strlit("GoodName=");
    }
    if starts_with(line, ascii_bytes("[")) {
        LineKind::Key
    } else if starts_with(line, ascii_bytes("SaveType=")) {
        LineKind::Label
    } else if starts_with(line, ascii_bytes("GoodName=")) {
        LineKind::Title
    } else if line.len() == 0 {
        LineKind::Blank
    } else {
        LineKind::Other
    }
}

/// The save type that a name in the database stands for; `Unknown` for a
/// name that stands for none.
pub fn parse_label(name: &[u8]) -> (kind: SaveType)
    ensures
        kind == label_of(name@),
{
    proof {
        reveal_strlit("None");
        reveal_strlit("SRAM");
        reveal_strlit("Eeprom 4KB");
        reveal_strlit("Eeprom 16KB");
        reveal_strlit("Flash RAM");
    }
    if bytes_eq(name, ascii_bytes("None")) {
        SaveType::Nothing
    } else if bytes_eq(name, ascii_bytes("SRAM")) {
        SaveType::Sram256Kbit
    } else if bytes_eq(name, ascii_bytes("Eeprom 4KB")) {
        SaveType::Eeprom4Kbit
    } else if bytes_eq(name, ascii_bytes("Eeprom 16KB")) {
        SaveType::Eeprom16Kbit
    } else if bytes_eq(name, ascii_bytes("Flash RAM")) {
        SaveType::FlashRam1Mbit
    } else {
        SaveType::Unknown
    }
}

/// The save type that a title stands for, if it stands for one.
pub fn title_save_type(title: &[u8]) -> (forced: Option<SaveType>)
    ensures
        forced == forced_by(title@),
{
    proof {
        reveal_strlit("Dezaemon 3D");
        reveal_strlit("Pokemon Stadium 2");
    }
    if contains(title, ascii_bytes("Dezaemon 3D")) {
        Some(SaveType::Sram768Kbit)
    } else if contains(title, ascii_bytes("Pokemon Stadium 2")) {
        Some(SaveType::FlashRam1MbitStadium)
    } else {
        None
    }
}

impl RomDatabase {
    /// A database without records.
    pub fn new() -> (database: RomDatabase)
        ensures
            database@ == Map::<Seq<u8>, SaveType>::empty(),
    {
        RomDatabase { entries: Vec::new() }
    }

    /// Enters a record. It replaces the record that the database held for
    /// the key, if it held one.
    fn insert(&mut self, key: Vec<u8>, save_type: SaveType)
        ensures
            final(self)@ == old(self)@.insert(key@, save_type),
    {
        let ghost before = self.entries@;
        self.entries.push(Entry { key, save_type });
        assert(self.entries@.drop_last() == before);
    }

    /// The save type that the database holds for a key.
    pub fn get(&self, key: &[u8]) -> (found: Option<SaveType>)
        ensures
            found == if self@.contains_key(key@) {
                Some(self@[key@])
            } else {
                None
            },
    {
        let mut i: usize = self.entries.len();
        assert(self.entries@.subrange(0, i as int) == self.entries@);
        while i > 0
            invariant
                i <= self.entries@.len(),
                self@.contains_key(key@) == entries_map(
                    self.entries@.subrange(0, i as int),
                ).contains_key(key@),
                self@.contains_key(key@) ==> self@[key@] == entries_map(
                    self.entries@.subrange(0, i as int),
                )[key@],
            decreases i,
        {
            let ghost upto = self.entries@.subrange(0, i as int);
            assert(upto.drop_last() == self.entries@.subrange(0, i - 1));
            i -= 1;
            if bytes_eq(self.entries[i].key.as_slice(), key) {
                return Some(self.entries[i].save_type);
            }
        }
        None
    }

    /// The save type that the database holds for a key; `Unknown` where it
    /// holds none.
    pub fn save_type(&self, key: &[u8]) -> (kind: SaveType)
        ensures
            kind == save_type_of(self@, key@),
    {
        match self.get(key) {
            Some(kind) => kind,
            None => SaveType::Unknown,
        }
    }

    /// Reads a database from its text, as far as the text allows.
    ///
    /// The reading fails on a line that names a save type or gives a title
    /// and belongs to no record.
    pub fn try_parse(text: &[u8]) -> (parsed: Option<RomDatabase>)
        ensures
            parsed is Some == well_formed(text@),
            parsed matches Some(database) ==> database@ == database_of(text@),
    {
        let mut database = RomDatabase::new();
        let mut record: Option<OpenRecord> = None;
        let mut pos: usize = 0;
        assert(text@.subrange(0, text@.len() as int) == text@);
        while pos < text.len()
            invariant
                pos <= text@.len(),
                well_formed(text@) == (Reading {
                    record: record_view(record),
                    entries: database@,
                }).admits_all(text@.subrange(pos as int, text@.len() as int)),
                Reading::start().read(text@) == (Reading {
                    record: record_view(record),
                    entries: database@,
                }).read(text@.subrange(pos as int, text@.len() as int)),
            decreases text@.len() - pos,
        {
            let ghost rest = text@.subrange(pos as int, text@.len() as int);
            let ghost reading = Reading { record: record_view(record), entries: database@ };
            let mut end: usize = pos;
            while end < text.len() && text[end] != LINE_FEED
                invariant
                    pos <= end <= text@.len(),
                    forall|i: int| pos <= i < end ==> text@[i] != LINE_FEED,
                decreases text@.len() - end,
            {
                end += 1;
            }
            proof {
                lemma_line_end_is(rest, end - pos);
            }
            let stop: usize = if end < text.len() && end > pos && text[end - 1] == CARRIAGE_RETURN {
                (end - 1) as usize
            } else {
                end
            };
            let line = slice_subrange(text, pos, stop);
            let next: usize = if end < text.len() {
                end + 1
            } else {
                end
            };
            proof {
                assert(rest.subrange(0, end - pos) == text@.subrange(pos as int, end as int));
                if end > pos {
                    assert(text@.subrange(pos as int, end as int).drop_last() == text@.subrange(
                        pos as int,
                        end - 1,
                    ));
                }
                assert(line@ == first_line(rest));
                assert(text@.subrange(next as int, text@.len() as int) == after_first_line(rest));
                reveal_strlit("SaveType=");
                reveal_strlit("GoodName=");
            }
            match classify(line) {
                LineKind::Key => {
                    let key = trim_matches(trim_matches(line, 0x5B), 0x5D);
                    record =
                    Some(
                        OpenRecord {
                            key: vstd::slice::slice_to_vec(key),
                            label: SaveType::Nothing,
                            forced: None,
                        },
                    );
                },
                LineKind::Label => match record {
                    Some(open) => {
                        let label = parse_label(slice_subrange(line, FIELD_NAME_LEN, line.len()));
                        record = Some(OpenRecord { key: open.key, label, forced: open.forced });
                    },
                    None => {
                        return None;
                    },
                },
                LineKind::Title => match record {
                    Some(open) => {
                        let forced = match title_save_type(
                            slice_subrange(line, FIELD_NAME_LEN, line.len()),
                        ) {
                            Some(kind) => Some(kind),
                            None => open.forced,
                        };
                        record = Some(OpenRecord { key: open.key, label: open.label, forced });
                    },
                    None => {
                        return None;
                    },
                },
                LineKind::Blank => match record {
                    Some(open) => {
                        let kind = match open.forced {
                            Some(kind) => kind,
                            None => open.label,
                        };
                        database.insert(open.key, kind);
                        record = None;
                    },
                    None => {},
                },
                LineKind::Other => {},
            }
            assert((Reading { record: record_view(record), entries: database@ }) == reading.step(
                line@,
            ));
            pos = next;
        }
        Some(database)
    }

    /// Reads a database from its text.
    pub fn parse(text: &[u8]) -> (database: RomDatabase)
        requires
            well_formed(text@),
        ensures
            database@ == database_of(text@),
    {
        RomDatabase::try_parse(text).unwrap()
    }
}

/// The first line of a text ends within the text.
pub proof fn lemma_line_end(text: Seq<u8>)
    ensures
        0 <= line_end(text) <= text.len(),
        line_end(text) < text.len() ==> text[line_end(text)] == LINE_FEED,
        forall|i: int| 0 <= i < line_end(text) ==> text[i] != LINE_FEED,
    decreases text.len(),
{
    if text.len() == 0 || text[0] == LINE_FEED {
    } else {
        let rest = text.drop_first();
        lemma_line_end(rest);
        assert forall|i: int| 0 <= i < line_end(text) implies text[i] != LINE_FEED by {
            if i > 0 {
                assert(text[i] == rest[i - 1]);
            }
        }
    }
}

/// The first line of a text ends at the first line feed, and at the end of
/// the text where there is none.
pub proof fn lemma_line_end_is(text: Seq<u8>, end: int)
    requires
        0 <= end <= text.len(),
        forall|i: int| 0 <= i < end ==> text[i] != LINE_FEED,
        end < text.len() ==> text[end] == LINE_FEED,
    ensures
        line_end(text) == end,
{
    lemma_line_end(text);
}

/// A title with `Dezaemon 3D` in it makes its record one of 768 Kbit of
/// SRAM, and a title with `Pokemon Stadium 2` and without `Dezaemon 3D` one
/// of the flash RAM of that game, whatever save type the record names
/// before or after the title.
pub proof fn lemma_title_counts(reading: Reading, title: Seq<u8>, label: Seq<u8>)
    requires
        reading.record is Some,
        line_kind(title) is Title,
        line_kind(label) is Label,
    ensures
        contains_bytes(value_of(title), ascii("Dezaemon 3D"@)) ==> {
            &&& reading.step(title).record->0.save_type() == SaveType::Sram768Kbit
            &&& reading.step(title).step(label).record->0.save_type() == SaveType::Sram768Kbit
            &&& reading.step(label).step(title).record->0.save_type() == SaveType::Sram768Kbit
        },
        !contains_bytes(value_of(title), ascii("Dezaemon 3D"@)) && contains_bytes(
            value_of(title),
            ascii("Pokemon Stadium 2"@),
        ) ==> {
            &&& reading.step(title).record->0.save_type() == SaveType::FlashRam1MbitStadium
            &&& reading.step(title).step(label).record->0.save_type()
                == SaveType::FlashRam1MbitStadium
            &&& reading.step(label).step(title).record->0.save_type()
                == SaveType::FlashRam1MbitStadium
        },
{
}

/// A text is read line by line.
pub proof fn lemma_read_by_lines(reading: Reading, text: Seq<u8>)
    ensures
        reading.read(text) == reading.read_lines(lines_of(text)),
    decreases text.len(),
{
    if text.len() > 0 {
        lemma_line_end(text);
        let lines = lines_of(text);
        assert(lines[0] == first_line(text));
        assert(lines.drop_first() == lines_of(after_first_line(text)));
        lemma_read_by_lines(reading.step(first_line(text)), after_first_line(text));
    }
}

/// Whether a line belongs to the record that is open and leaves the save
/// type alone that a title has given to the record.
pub open spec fn keeps_title(line: Seq<u8>, kind: SaveType) -> bool {
    &&& !(line_kind(line) is Key)
    &&& !(line_kind(line) is Blank)
    &&& line_kind(line) is Title ==> forced_by(value_of(line)) is None || forced_by(value_of(line))
        == Some(kind)
}

/// The lines of a record leave the save type alone that a title has given
/// to the record, unless they are titles that stand for another.
pub proof fn lemma_title_stays(reading: Reading, lines: Seq<Seq<u8>>, kind: SaveType)
    requires
        reading.record is Some,
        reading.record->0.forced == Some(kind),
        forall|i: int| 0 <= i < lines.len() ==> keeps_title(#[trigger] lines[i], kind),
    ensures
        reading.read_lines(lines).record is Some,
        reading.read_lines(lines).record->0.key == reading.record->0.key,
        reading.read_lines(lines).record->0.forced == Some(kind),
        reading.read_lines(lines).entries == reading.entries,
    decreases lines.len(),
{
    if lines.len() > 0 {
        assert(keeps_title(lines[0], kind));
        let rest = lines.drop_first();
        assert forall|i: int| 0 <= i < rest.len() implies keeps_title(#[trigger] rest[i], kind) by {
            assert(rest[i] == lines[i + 1]);
        }
        lemma_title_stays(reading.step(lines[0]), rest, kind);
    }
}

/// A record whose title stands for a save type is entered under that save
/// type, whatever save type it names and wherever in the record the title
/// stands: so a record with `Dezaemon 3D` in its title is one of 768 Kbit of
/// SRAM, and a record with `Pokemon Stadium 2` in its title one of the
/// flash RAM of that game.
///
/// The record is the line `key`, the lines `body` and an empty line. The
/// title is line `at` of the body, and no title after it stands for
/// another save type.
pub proof fn lemma_record_of_title(
    reading: Reading,
    key: Seq<u8>,
    body: Seq<Seq<u8>>,
    at: int,
    kind: SaveType,
)
    requires
        line_kind(key) is Key,
        0 <= at < body.len(),
        line_kind(body[at]) is Title,
        forced_by(value_of(body[at])) == Some(kind),
        forall|i: int|
            0 <= i < at ==> !(line_kind(#[trigger] body[i]) is Key) && !(line_kind(body[i])
                is Blank),
        forall|i: int| at < i < body.len() ==> keeps_title(#[trigger] body[i], kind),
    ensures
        reading.read_lines(seq![key] + body + seq![Seq::<u8>::empty()]).record is None,
        reading.read_lines(seq![key] + body + seq![Seq::<u8>::empty()]).entries
            == reading.entries.insert(key_of(key), kind),
        save_type_of(
            reading.read_lines(seq![key] + body + seq![Seq::<u8>::empty()]).entries,
            key_of(key),
        ) == kind,
{
    let blank = Seq::<u8>::empty();
    let lines = seq![key] + body + seq![blank];
    let opened = reading.step(key);
    assert(lines[0] == key);
    assert(lines.drop_first() == body + seq![blank]);
    lemma_record_body(opened, body, at, kind);
    lemma_read_lines_joined(opened, body, seq![blank]);
    let read = opened.read_lines(body);
    assert(read.read_lines(seq![blank]) == read.step(blank)) by {
        let last = seq![blank];
        assert(last[0] == blank);
        assert(last.drop_first() == Seq::<Seq<u8>>::empty());
        assert(read.step(blank).read_lines(Seq::<Seq<u8>>::empty()) == read.step(blank));
        assert(read.read_lines(last) == read.step(last[0]).read_lines(last.drop_first()));
    }
    lemma_blank_enters(read);
}

/// Reading two rows of lines one after the other is reading them joined.
pub proof fn lemma_read_lines_joined(reading: Reading, first: Seq<Seq<u8>>, second: Seq<Seq<u8>>)
    ensures
        reading.read_lines(first + second) == reading.read_lines(first).read_lines(second),
    decreases first.len(),
{
    if first.len() == 0 {
        assert(first + second == second);
    } else {
        assert((first + second)[0] == first[0]);
        assert((first + second).drop_first() == first.drop_first() + second);
        lemma_read_lines_joined(reading.step(first[0]), first.drop_first(), second);
    }
}

/// The lines of a record up to its title leave the record open, and the
/// lines after the title leave its save type alone.
proof fn lemma_record_body(reading: Reading, body: Seq<Seq<u8>>, at: int, kind: SaveType)
    requires
        reading.record is Some,
        0 <= at < body.len(),
        line_kind(body[at]) is Title,
        forced_by(value_of(body[at])) == Some(kind),
        forall|i: int|
            0 <= i < at ==> !(line_kind(#[trigger] body[i]) is Key) && !(line_kind(body[i])
                is Blank),
        forall|i: int| at < i < body.len() ==> keeps_title(#[trigger] body[i], kind),
    ensures
        reading.read_lines(body).record is Some,
        reading.read_lines(body).record->0.key == reading.record->0.key,
        reading.read_lines(body).record->0.forced == Some(kind),
        reading.read_lines(body).entries == reading.entries,
    decreases body.len(),
{
    let rest = body.drop_first();
    if at == 0 {
        assert forall|i: int| 0 <= i < rest.len() implies keeps_title(#[trigger] rest[i], kind) by {
            assert(rest[i] == body[i + 1]);
        }
        lemma_title_stays(reading.step(body[0]), rest, kind);
    } else {
        assert(!(line_kind(body[0]) is Key) && !(line_kind(body[0]) is Blank));
        assert(rest[at - 1] == body[at]);
        assert forall|i: int| 0 <= i < at - 1 implies !(line_kind(#[trigger] rest[i]) is Key)
            && !(line_kind(rest[i]) is Blank) by {
            assert(rest[i] == body[i + 1]);
        }
        assert forall|i: int| at - 1 < i < rest.len() implies keeps_title(
            #[trigger] rest[i],
            kind,
        ) by {
            assert(rest[i] == body[i + 1]);
        }
        lemma_record_body(reading.step(body[0]), rest, at - 1, kind);
    }
}

/// An empty line enters the open record under the save type that its title
/// stands for, where it stands for one, and closes it.
pub proof fn lemma_blank_enters(reading: Reading)
    requires
        reading.record is Some,
    ensures
        reading.step(Seq::empty()).record is None,
        reading.step(Seq::empty()).entries == reading.entries.insert(
            reading.record->0.key,
            reading.record->0.save_type(),
        ),
        save_type_of(reading.step(Seq::empty()).entries, reading.record->0.key)
            == reading.record->0.save_type(),
{
    reveal_strlit("[");
    reveal_strlit("SaveType=");
    reveal_strlit("GoodName=");
}

} // verus!
