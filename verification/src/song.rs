use m8_file_parser::Instrument as Codec;
use m8_file_parser::Song;
use vstd::prelude::*;
use vstd::string::*;
use vstd::utf8::encode_utf8;

verus! {

/// One slot of a song's instrument list. Only a sampler refers to a sample
/// file; of the other kinds the library keeps what its reports read.
#[derive(Debug, Clone, PartialEq)]
pub enum Instrument {
    WavSynth,
    MacroSynth,
    Sampler { name: String, sample_path: String },
    MIDIOut { channel: u8 },
    FMSynth,
    HyperSynth,
    External { channel: u8 },
    Empty,
}

/// The mathematical value of an `Instrument`.
pub enum Slot {
    WavSynth,
    MacroSynth,
    Sampler { name: Seq<char>, sample_path: Seq<char> },
    MIDIOut { channel: u8 },
    FMSynth,
    HyperSynth,
    External { channel: u8 },
    Empty,
}

impl View for Instrument {
    type V = Slot;

    open spec fn view(&self) -> Slot {
        match *self {
            Instrument::WavSynth => Slot::WavSynth,
            Instrument::MacroSynth => Slot::MacroSynth,
            Instrument::Sampler { name, sample_path } => Slot::Sampler {
                name: name@,
                sample_path: sample_path@,
            },
            Instrument::MIDIOut { channel } => Slot::MIDIOut { channel },
            Instrument::FMSynth => Slot::FMSynth,
            Instrument::HyperSynth => Slot::HyperSynth,
            Instrument::External { channel } => Slot::External { channel },
            Instrument::Empty => Slot::Empty,
        }
    }
}

/// A copy of an instrument.
pub fn copy_of(instrument: &Instrument) -> (r: Instrument)
    ensures
        r@ == instrument@,
{
    match instrument {
        Instrument::WavSynth => Instrument::WavSynth,
        Instrument::MacroSynth => Instrument::MacroSynth,
        Instrument::Sampler { name, sample_path } => Instrument::Sampler {
            name: name.clone(),
            sample_path: sample_path.clone(),
        },
        Instrument::MIDIOut { channel } => Instrument::MIDIOut { channel: *channel },
        Instrument::FMSynth => Instrument::FMSynth,
        Instrument::HyperSynth => Instrument::HyperSynth,
        Instrument::External { channel } => Instrument::External { channel: *channel },
        Instrument::Empty => Instrument::Empty,
    }
}

/// The values of an instrument list.
pub open spec fn slots_of(instruments: Seq<Instrument>) -> Seq<Slot> {
    instruments.map_values(|i: Instrument| i@)
}

/// What the library reads of a decoded song.
#[derive(Debug, Clone, PartialEq)]
pub struct DecodedSong {
    /// The song's own name, as stored in the file.
    pub name: String,
    /// The instruments, by slot.
    pub instruments: Vec<Instrument>,
}

/// `Song` of m8_file_parser, a decoded song: the library carries it and reads
/// it through the functions below alone.
#[verifier::external_type_specification]
#[verifier::external_body]
pub struct ExSong(m8_file_parser::Song);

/// What `Song::read_from_reader` makes of a file's bytes: the song, or the
/// text of the parse error.
pub uninterp spec fn decoded(bytes: Seq<u8>) -> Result<Song, Seq<char>>;

/// The instrument list that a song holds, slot by slot.
pub uninterp spec fn song_slots(song: Song) -> Seq<Slot>;

/// The name that a song carries.
pub uninterp spec fn song_title(song: Song) -> Seq<char>;

/// Whether `Song::write` can lay the song over a buffer of `len` bytes: every
/// section it writes ends inside the buffer and every text inside its field.
pub uninterp spec fn song_fits(song: Song, len: nat) -> bool;

/// The song with the sample path of the sampler in `slot` replaced.
pub uninterp spec fn with_sample_path(song: Song, slot: int, path: Seq<char>) -> Song;

/// What `Song::write` followed by `Writer::finish` makes of a song laid over
/// the bytes `onto`: the new bytes, or the codec's refusal.
pub uninterp spec fn written(song: Song, onto: Seq<u8>) -> Result<Seq<u8>, Seq<char>>;

/// The longest sample path, in bytes, that the file format has room for.
pub const SAMPLE_PATH_ROOM: usize = 128;

/// The length below which the decoder refuses a file without reading it.
pub const SONG_FLOOR: usize = 0x1A97E;

/// The format version of a file: major and minor number.
pub open spec fn version_of(bytes: Seq<u8>) -> (u8, u8) {
    (bytes[11] & 0x0F, (bytes[10] >> 4) & 0x0F)
}

/// Whether a version is the given one or a later one.
pub open spec fn at_least(version: (u8, u8), major: u8, minor: u8) -> bool {
    version.0 > major || (version.0 == major && version.1 >= minor)
}

/// The length up to which the decoder reads a song file of a given version
/// without asking whether the file goes that far. The format grew with the
/// firmware: the scales came with 2.5 and end at 0x1AD1E, the equalizers came
/// with 4.0, thirty-two of them up to 0x1AF9E, and 4.1 made them a hundred and
/// twenty-eight, up to 0x1B65E.
pub open spec fn whole_length(version: (u8, u8)) -> nat {
    if at_least(version, 4, 1) {
        0x1B65E
    } else if at_least(version, 4, 0) {
        0x1AF9E
    } else if at_least(version, 2, 5) {
        0x1AD1E
    } else {
        0x1A97E
    }
}

/// The file is either too short for the decoder to look into it, or as long
/// as the decoder reads a song of its version.
pub open spec fn is_whole(bytes: Seq<u8>) -> bool {
    bytes.len() < SONG_FLOOR || bytes.len() >= whole_length(version_of(bytes))
}

/// The reason given for a file that stops short of its song data.
pub open spec fn cut_short() -> Seq<char> {
    "File ends before the end of its song data"@
}

/// The reason given for a sample path that the file format has no room for.
pub open spec fn no_room() -> Seq<char> {
    "Sample path is longer than the song format allows"@
}

/// The outcome of decoding: a file cut short is refused by the library, any
/// other file is what the codec makes of it.
pub open spec fn decode_outcome(bytes: Seq<u8>) -> Result<Song, Seq<char>> {
    if is_whole(bytes) {
        decoded(bytes)
    } else {
        Err(cut_short())
    }
}

/// `Song::read_from_reader` of m8_file_parser, on a `Reader` over a copy of
/// `data`; its error is handed on as its `Debug` text. The codec tests the
/// length once and then indexes the buffer at offsets that the format fixes;
/// on a file that `is_whole` each of them lies inside the buffer. `Song::write`
/// fills the sections, and the text fields, that were read here, so a song
/// that was decoded fits a buffer of the length it was decoded from.
#[verifier::external_body]
fn read_song(data: &Vec<u8>) -> (r: Result<Song, String>)
    requires
        is_whole(data@),
    ensures
        match r {
            Ok(song) => decoded(data@) == Ok::<Song, Seq<char>>(song) && song_fits(
                song,
                data@.len(),
            ),
            Err(reason) => decoded(data@) == Err::<Song, Seq<char>>(reason@),
        },
{
    let mut reader = m8_file_parser::reader::Reader::new(data.clone());
    Song::read_from_reader(&mut reader).map_err(|e| format!("{:?}", e))
}

/// `Vec::len` on the `instruments` of a `Song`: the length of its instrument
/// list.
#[verifier::external_body]
fn slot_count(song: &Song) -> (r: usize)
    ensures
        r == song_slots(*song).len(),
{
    song.instruments.len()
}

/// A copy of the `name` of a `Song`.
#[verifier::external_body]
fn title_of(song: &Song) -> (r: String)
    ensures
        r@ == song_title(*song),
{
    song.name.clone()
}

/// The entry at `slot` of the `instruments` of a `Song`: the variant of
/// `Instrument` of m8_file_parser told apart, with copies of the fields that
/// the library reads.
#[verifier::external_body]
fn instrument_at(song: &Song, slot: usize) -> (r: Instrument)
    requires
        slot < song_slots(*song).len(),
    ensures
        r@ == song_slots(*song)[slot as int],
{
    match &song.instruments[slot] {
        Codec::WavSynth(_) => Instrument::WavSynth,
        Codec::MacroSynth(_) => Instrument::MacroSynth,
        Codec::Sampler(i) => Instrument::Sampler { name: i.name.clone(), sample_path: i.sample_path.clone() },
        Codec::MIDIOut(i) => Instrument::MIDIOut { channel: i.channel },
        Codec::FMSynth(_) => Instrument::FMSynth,
        Codec::HyperSynth(_) => Instrument::HyperSynth,
        Codec::External(i) => Instrument::External { channel: i.channel },
        Codec::None => Instrument::Empty,
    }
}

/// An assignment to the `sample_path` of the `Sampler` at `slot` of a `Song`.
/// The slot keeps its name and every other slot stays as it is. `Song::write`
/// pads a path to the width of its field, so with a path within that room the
/// song still fits every buffer that it fitted before.
#[verifier::external_body]
fn put_sample_path(song: &mut Song, slot: usize, path: &str)
    requires
        slot < song_slots(*old(song)).len(),
        song_slots(*old(song))[slot as int] is Sampler,
        encode_utf8(path@).len() <= SAMPLE_PATH_ROOM,
    ensures
        *final(song) == with_sample_path(*old(song), slot as int, path@),
        song_slots(*final(song)) == song_slots(*old(song)).update(
            slot as int,
            Slot::Sampler {
                name: song_slots(*old(song))[slot as int]->Sampler_name,
                sample_path: path@,
            },
        ),
        forall|len: nat| song_fits(*old(song), len) ==> #[trigger] song_fits(*final(song), len),
{
    if let Codec::Sampler(sampler) = &mut song.instruments[slot] {
        sampler.sample_path = path.to_string();
    }
}

/// `Song::write` of m8_file_parser onto a `Writer` over `data`, then
/// `Writer::finish`: the bytes of `data` with the song laid over them, or the
/// refusal of the codec as text. The writer indexes its buffer unchecked, so
/// the song has to fit it.
#[verifier::external_body]
fn write_song(song: &Song, data: Vec<u8>) -> (r: Result<Vec<u8>, String>)
    requires
        song_fits(*song, data@.len()),
    ensures
        match r {
            Ok(bytes) => written(*song, data@) == Ok::<Seq<u8>, Seq<char>>(bytes@),
            Err(reason) => written(*song, data@) == Err::<Seq<u8>, Seq<char>>(reason@),
        },
{
    let mut writer = m8_file_parser::writer::Writer::new(data);
    song.write(&mut writer).map(|_| writer.finish())
}

/// Tells whether the decoder may look into `data`.
fn whole(data: &Vec<u8>) -> (r: bool)
    ensures
        r == is_whole(data@),
{
    if data.len() < SONG_FLOOR {
        return true;
    }
    let major: u8 = data[11] & 0x0F;
    let minor: u8 = (data[10] >> 4) & 0x0F;
    let need: usize = if major > 4 || (major == 4 && minor >= 1) {
        0x1B65E
    } else if major > 4 || (major == 4 && minor >= 0) {
        0x1AF9E
    } else if major > 2 || (major == 2 && minor >= 5) {
        0x1AD1E
    } else {
        0x1A97E
    };
    data.len() >= need
}

/// Decodes the bytes of a song file, or says why they are none.
fn decode_song(data: &Vec<u8>) -> (r: Result<Song, String>)
    ensures
        match r {
            Ok(song) => decode_outcome(data@) == Ok::<Song, Seq<char>>(song) && song_fits(
                song,
                data@.len(),
            ),
            Err(reason) => decode_outcome(data@) == Err::<Song, Seq<char>>(reason@),
        },
{
    if whole(data) {
        read_song(data)
    } else {
        Err(String::from_str("File ends before the end of its song data"))
    }
}

/// The instruments of a song as values of the library.
fn instruments_of(song: &Song) -> (r: Vec<Instrument>)
    ensures
        slots_of(r@) == song_slots(*song),
{
    let n = slot_count(song);
    let mut list: Vec<Instrument> = Vec::new();
    let mut i: usize = 0;
    while i < n
        invariant
            i <= n,
            n == song_slots(*song).len(),
            list@.len() == i,
            forall|j: int| 0 <= j < i ==> (#[trigger] list@[j])@ == song_slots(*song)[j],
        decreases n - i,
    {
        list.push(instrument_at(song, i));
        i = i + 1;
    }
    list
}

/// What `decode` answers for a file's bytes: the name and the slots of the
/// song, or the reason why it cannot be read.
pub open spec fn decode_view(bytes: Seq<u8>) -> Result<(Seq<char>, Seq<Slot>), Seq<char>> {
    match decode_outcome(bytes) {
        Ok(song) => Ok((song_title(song), song_slots(song))),
        Err(reason) => Err(reason),
    }
}

/// Decodes a song file into its name and its instrument list. A file that is
/// cut short, and any file the codec refuses, gives the reason as text.
pub fn decode(data: &Vec<u8>) -> (r: Result<DecodedSong, String>)
    ensures
        match r {
            Ok(song) => decode_view(data@) == Ok::<(Seq<char>, Seq<Slot>), Seq<char>>(
                (song.name@, slots_of(song.instruments@)),
            ),
            Err(reason) => decode_view(data@) == Err::<(Seq<char>, Seq<Slot>), Seq<char>>(
                reason@,
            ),
        },
{
    match decode_song(data) {
        Ok(song) => Ok(DecodedSong { name: title_of(&song), instruments: instruments_of(&song) }),
        Err(reason) => Err(reason),
    }
}

/// The slot of `wanted` that carries a path for the song: both lists hold a
/// sampler there.
pub open spec fn takes_path(slots: Seq<Slot>, wanted: Seq<Slot>, i: int) -> bool {
    0 <= i < slots.len() && i < wanted.len() && slots[i] is Sampler && wanted[i] is Sampler
}

/// The path in slot `i` of `wanted` is short enough for its field in the file.
pub open spec fn has_room(wanted: Seq<Slot>, i: int) -> bool {
    encode_utf8(wanted[i]->sample_path).len() <= SAMPLE_PATH_ROOM
}

/// Every path that `wanted` carries for the song has room in the file.
pub open spec fn all_have_room(slots: Seq<Slot>, wanted: Seq<Slot>) -> bool {
    forall|i: int| takes_path(slots, wanted, i) ==> has_room(wanted, i)
}

/// The song after the sample paths of the first `upto` slots of `wanted`
/// have been assigned to its samplers.
pub open spec fn with_paths(song: Song, wanted: Seq<Slot>, upto: int) -> Song
    decreases upto,
{
    if upto <= 0 {
        song
    } else {
        let before = with_paths(song, wanted, upto - 1);
        if takes_path(song_slots(song), wanted, upto - 1) {
            with_sample_path(before, upto - 1, wanted[upto - 1]->sample_path)
        } else {
            before
        }
    }
}

/// What `encode` answers: the refusal of a file that cannot be decoded, the
/// refusal of a path without room, or what the codec writes for the song
/// that carries the wanted paths.
pub open spec fn encode_view(bytes: Seq<u8>, wanted: Seq<Slot>) -> Result<Seq<u8>, Seq<char>> {
    match decode_outcome(bytes) {
        Err(reason) => Err(reason),
        Ok(song) => if all_have_room(song_slots(song), wanted) {
            written(with_paths(song, wanted, song_slots(song).len() as int), bytes)
        } else {
            Err(no_room())
        },
    }
}

/// Assigns the paths of `instruments` to the samplers of the song, slot by
/// slot, unless one of them has no room.
fn store_paths(song: &mut Song, instruments: &Vec<Instrument>) -> (ok: bool)
    ensures
        ok == all_have_room(song_slots(*old(song)), slots_of(instruments@)),
        ok ==> *final(song) == with_paths(
            *old(song),
            slots_of(instruments@),
            song_slots(*old(song)).len() as int,
        ),
        ok ==> forall|len: nat|
            song_fits(*old(song), len) ==> #[trigger] song_fits(*final(song), len),
{
    let n = slot_count(song);
    let ghost start = *song;
    let ghost wanted = slots_of(instruments@);
    let mut i: usize = 0;
    while i < n
        invariant
            i <= n,
            start == *old(song),
            n == song_slots(start).len(),
            wanted == slots_of(instruments@),
            song_slots(*song).len() == n,
            forall|j: int| 0 <= j < n ==> (#[trigger] song_slots(*song)[j] is Sampler) == (
            song_slots(start)[j] is Sampler),
            *song == with_paths(start, wanted, i as int),
            forall|j: int| 0 <= j < i && takes_path(song_slots(start), wanted, j) ==> has_room(
                wanted,
                j,
            ),
            forall|len: nat| song_fits(start, len) ==> #[trigger] song_fits(*song, len),
        decreases n - i,
    {
        if i < instruments.len() {
            let here = instrument_at(song, i);
            match (&here, &instruments[i]) {
                (Instrument::Sampler { .. }, Instrument::Sampler { sample_path, .. }) => {
                    if sample_path.as_str().as_bytes().len() > SAMPLE_PATH_ROOM {
                        assert(!has_room(wanted, i as int));
                        return false;
                    }
                    put_sample_path(song, i, sample_path.as_str());
                },
                _ => {},
            }
        }
        i = i + 1;
    }
    true
}

/// Writes a song file anew with the sample paths of `instruments` in place of
/// those in `data`. The song is the one that `data` decodes to; a slot takes
/// its path from `instruments` where both hold a sampler there, and nothing
/// else of the song changes.
pub fn encode(data: Vec<u8>, instruments: &Vec<Instrument>) -> (r: Result<Vec<u8>, String>)
    ensures
        match r {
            Ok(bytes) => encode_view(data@, slots_of(instruments@)) == Ok::<
                Seq<u8>,
                Seq<char>,
            >(bytes@),
            Err(reason) => encode_view(data@, slots_of(instruments@)) == Err::<
                Seq<u8>,
                Seq<char>,
            >(reason@),
        },
{
    match decode_song(&data) {
        Err(reason) => Err(reason),
        Ok(decoded_song) => {
            let mut song = decoded_song;
            if store_paths(&mut song, instruments) {
                write_song(&song, data)
            } else {
                Err(String::from_str("Sample path is longer than the song format allows"))
            }
        },
    }
}

} // verus!
