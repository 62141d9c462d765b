use crate::paths::{
    components, is_relative, join, parent, parts_view, path_debug, path_is_relative, path_join,
    path_parent, path_parts, path_strip_prefix, quoted, strip_base, Part, PathPart,
};
use crate::song::{decode, decode_view, encode, encode_view, slots_of, Instrument, Slot};
use crate::text::{
    catenate, decimal, decimal_string, forward_slashes, same_text, slashed, strip_prefix,
};
use crate::types::{
    aggregate_of, combine, gathered, is_canonical, lemma_gathered_is_canonical, verdict_of,
    Failure, FlagBag, M8FstoErr,
};
use vstd::prelude::*;
use vstd::string::*;

verus! {

/// One planned rename, in the addressing of the songs: `from` and `to` are
/// root-relative references.
#[derive(Debug, Clone, PartialEq)]
pub enum Swap {
    /// A whole folder moves: every reference that begins with `from` follows.
    Dir { from: String, to: String },
    /// One file moves: only the reference equal to `from` follows.
    File { from: String, to: String },
}

/// The mathematical value of a `Swap`.
pub enum Rule {
    Dir { from: Seq<char>, to: Seq<char> },
    File { from: Seq<char>, to: Seq<char> },
}

impl View for Swap {
    type V = Rule;

    open spec fn view(&self) -> Rule {
        match *self {
            Swap::Dir { from, to } => Rule::Dir { from: from@, to: to@ },
            Swap::File { from, to } => Rule::File { from: from@, to: to@ },
        }
    }
}

/// The reference that takes the place of `sample_path` under a rule, if the
/// rule matches it. A file rule matches the reference equal to `from`. A
/// folder rule matches every reference that begins with `from`, whatever
/// character follows the prefix, and keeps what stands behind it.
pub open spec fn swapped(rule: Rule, sample_path: Seq<char>) -> Option<Seq<char>> {
    match rule {
        Rule::File { from, to } => if sample_path == from {
            Some(to)
        } else {
            None
        },
        Rule::Dir { from, to } => if from.is_prefix_of(sample_path) {
            Some(to + sample_path.skip(from.len() as int))
        } else {
            None
        },
    }
}

/// The characters of a text that may be absent.
pub open spec fn text_of(t: Option<String>) -> Option<Seq<char>> {
    match t {
        Some(s) => Some(s@),
        None => None,
    }
}

impl Swap {
    /// Applies the rule to one reference.
    pub fn try_swap(&self, sample_path: &str) -> (r: Option<String>)
        ensures
            text_of(r) == swapped(self@, sample_path@),
    {
        match self {
            Swap::File { from, to } => {
                if same_text(sample_path, from.as_str()) {
                    Some(to.clone())
                } else {
                    None
                }
            },
            Swap::Dir { from, to } => {
                match strip_prefix(sample_path, from.as_str()) {
                    None => None,
                    Some(rest) => Some(catenate(to.as_str(), rest)),
                }
            },
        }
    }
}

/// One instrument whose sample reference a rule has changed.
#[derive(Debug, Clone, PartialEq)]
pub struct SwappedInstruments {
    /// Instrument number in the file.
    pub instrument: usize,
    /// Instrument name.
    pub instrument_name: String,
    /// Sample reference before the change.
    pub original_sample_path: String,
    /// Sample reference after the change.
    pub new_sample_path: String,
}

/// The mathematical value of a `SwappedInstruments`.
pub struct SwapRecord {
    pub slot: int,
    pub name: Seq<char>,
    pub original: Seq<char>,
    pub new: Seq<char>,
}

impl View for SwappedInstruments {
    type V = SwapRecord;

    open spec fn view(&self) -> SwapRecord {
        SwapRecord {
            slot: self.instrument as int,
            name: self.instrument_name@,
            original: self.original_sample_path@,
            new: self.new_sample_path@,
        }
    }
}

/// The values of a list of records.
pub open spec fn records_of(list: Seq<SwappedInstruments>) -> Seq<SwapRecord> {
    list.map_values(|r: SwappedInstruments| r@)
}

/// Whether a rule changes a slot: it holds a sampler whose reference matches.
pub open spec fn is_touched(rule: Rule, slot: Slot) -> bool {
    slot matches Slot::Sampler { sample_path, .. } && swapped(rule, sample_path) is Some
}

/// A slot after a rule was applied: a matching sampler carries the new
/// reference, and everything else is as it was.
pub open spec fn slot_after(rule: Rule, slot: Slot) -> Slot {
    match slot {
        Slot::Sampler { name, sample_path } => match swapped(rule, sample_path) {
            Some(path) => Slot::Sampler { name, sample_path: path },
            None => slot,
        },
        _ => slot,
    }
}

/// An instrument list after a rule was applied to each of its slots.
pub open spec fn slots_after(rule: Rule, slots: Seq<Slot>) -> Seq<Slot> {
    slots.map_values(|s: Slot| slot_after(rule, s))
}

/// The record of the change a rule makes to the sampler in `slot`.
pub open spec fn record_for(rule: Rule, slots: Seq<Slot>, slot: int) -> SwapRecord {
    SwapRecord {
        slot,
        name: slots[slot]->name,
        original: slots[slot]->sample_path,
        new: swapped(rule, slots[slot]->sample_path)->Some_0,
    }
}

/// The records of the changes a rule makes to the first `upto` slots, in
/// ascending slot order.
pub open spec fn records(rule: Rule, slots: Seq<Slot>, upto: int) -> Seq<SwapRecord>
    decreases upto,
{
    if upto <= 0 {
        Seq::empty()
    } else if is_touched(rule, slots[upto - 1]) {
        records(rule, slots, upto - 1).push(record_for(rule, slots, upto - 1))
    } else {
        records(rule, slots, upto - 1)
    }
}

/// All records of the changes a rule makes to an instrument list.
pub open spec fn all_records(rule: Rule, slots: Seq<Slot>) -> Seq<SwapRecord> {
    records(rule, slots, slots.len() as int)
}

/// Applies a rule to every sampler of an instrument list. Only the sample
/// reference of a matching sampler changes; the order of the instruments and
/// every other field stay. The changes are reported in ascending slot order.
pub fn swap_instruments(swap: &Swap, instruments: &mut Vec<Instrument>) -> (touched: Vec<
    SwappedInstruments,
>)
    ensures
        slots_of(final(instruments)@) == slots_after(swap@, slots_of(old(instruments)@)),
        records_of(touched@) == all_records(swap@, slots_of(old(instruments)@)),
{
    let mut touched: Vec<SwappedInstruments> = Vec::new();
    let n = instruments.len();
    let ghost before = slots_of(instruments@);
    let mut i: usize = 0;
    while i < n
        invariant
            i <= n,
            n == instruments@.len(),
            before == slots_of(old(instruments)@),
            before.len() == n,
            forall|j: int| 0 <= j < i ==> (#[trigger] instruments@[j])@ == slot_after(swap@, before[j]),
            forall|j: int| i <= j < n ==> (#[trigger] instruments@[j])@ == before[j],
            records_of(touched@) == records(swap@, before, i as int),
        decreases n - i,
    {
        let change: Option<SwappedInstruments> = match &instruments[i] {
            Instrument::Sampler { name, sample_path } => {
                match swap.try_swap(sample_path.as_str()) {
                    None => None,
                    Some(new_path) => Some(
                        SwappedInstruments {
                            instrument: i,
                            instrument_name: name.clone(),
                            original_sample_path: sample_path.clone(),
                            new_sample_path: new_path,
                        },
                    ),
                }
            },
            _ => None,
        };
        match change {
            None => {},
            Some(record) => {
                instruments.set(
                    i,
                    Instrument::Sampler {
                        name: record.instrument_name.clone(),
                        sample_path: record.new_sample_path.clone(),
                    },
                );
                touched.push(record);
            },
        }
        i = i + 1;
    }
    touched
}

/// A rule that cannot match what it has written: for a file rule the two
/// references differ, for a folder rule neither is the beginning of the other.
pub open spec fn is_settled(rule: Rule) -> bool {
    match rule {
        Rule::File { from, to } => from != to,
        Rule::Dir { from, to } => !from.is_prefix_of(to) && !to.is_prefix_of(from),
    }
}

/// A settled rule does not match a reference that it has produced.
pub proof fn lemma_swapped_rests(rule: Rule, sample_path: Seq<char>)
    requires
        is_settled(rule),
        swapped(rule, sample_path) is Some,
    ensures
        swapped(rule, swapped(rule, sample_path)->Some_0) is None,
{
    match rule {
        Rule::File { from, to } => {},
        Rule::Dir { from, to } => {
            let rest = sample_path.skip(from.len() as int);
            let moved = to + rest;
            if from.is_prefix_of(moved) {
                if from.len() <= to.len() {
                    assert(from =~= to.subrange(0, from.len() as int)) by {
                        assert forall|k: int| 0 <= k < from.len() implies from[k] == to[k] by {
                            assert(moved[k] == to[k]);
                            assert(from[k] == moved.subrange(0, from.len() as int)[k]);
                        }
                    }
                    assert(from.is_prefix_of(to));
                } else {
                    assert(to =~= from.subrange(0, to.len() as int)) by {
                        assert forall|k: int| 0 <= k < to.len() implies to[k] == from[k] by {
                            assert(moved[k] == to[k]);
                            assert(from[k] == moved.subrange(0, from.len() as int)[k]);
                        }
                    }
                    assert(to.is_prefix_of(from));
                }
            }
        },
    }
}

/// Idempotence: once a settled rule has been applied to an instrument list,
/// applying it again changes no instrument.
pub proof fn lemma_second_run_touches_nothing(rule: Rule, slots: Seq<Slot>)
    requires
        is_settled(rule),
    ensures
        all_records(rule, slots_after(rule, slots)) == Seq::<SwapRecord>::empty(),
        slots_after(rule, slots_after(rule, slots)) == slots_after(rule, slots),
{
    let once = slots_after(rule, slots);
    assert forall|j: int| 0 <= j < once.len() implies !is_touched(rule, #[trigger] once[j]) by {
        match slots[j] {
            Slot::Sampler { name, sample_path } => {
                if swapped(rule, sample_path) is Some {
                    lemma_swapped_rests(rule, sample_path);
                }
            },
            _ => {},
        }
    }
    lemma_untouched_has_no_records(rule, once, once.len() as int);
    assert(slots_after(rule, once) =~= once);
}

/// Where a rule matches none of the first `upto` slots, it records nothing
/// for them.
pub proof fn lemma_untouched_has_no_records(rule: Rule, slots: Seq<Slot>, upto: int)
    requires
        0 <= upto <= slots.len(),
        forall|j: int| 0 <= j < upto ==> !is_touched(rule, #[trigger] slots[j]),
    ensures
        records(rule, slots, upto) == Seq::<SwapRecord>::empty(),
    decreases upto,
{
    if upto > 0 {
        lemma_untouched_has_no_records(rule, slots, upto - 1);
    }
}

/// The line that reports one changed instrument.
pub open spec fn record_line(record: SwapRecord) -> Seq<char> {
    " - "@ + decimal(record.slot as nat) + " "@ + record.name + " \""@ + record.original
        + "\" -> \""@ + record.new + "\""@
}

impl SwappedInstruments {
    /// The line of the report for this instrument: its slot, its name, and
    /// the old and the new reference between quotes.
    pub fn line(&self) -> (r: String)
        ensures
            r@ == record_line(self@),
    {
        let mut out = String::from_str(" - ");
        out.append(decimal_string(self.instrument).as_str());
        out.append(" ");
        out.append(self.instrument_name.as_str());
        out.append(" \"");
        out.append(self.original_sample_path.as_str());
        out.append("\" -> \"");
        out.append(self.new_sample_path.as_str());
        out.append("\"");
        out
    }
}

/// A song file after a rule was applied to it.
#[derive(Debug, Clone, PartialEq)]
pub struct SwappedFile {
    /// The bytes to write in place of the file; empty on a dry run.
    pub file_data: Vec<u8>,
    /// The instruments that changed.
    pub touched: Vec<SwappedInstruments>,
}

/// What applying a rule to one song file comes to.
pub enum FileOutcome {
    /// The bytes are no song.
    Unparseable { reason: Seq<char> },
    /// No sampler of the song matches the rule.
    NoMatch,
    /// Some samplers changed; `bytes` is the file to write, empty on a dry run.
    Touched { records: Seq<SwapRecord>, bytes: Seq<u8> },
    /// Some samplers match, but the song cannot be written in its format.
    Unrepresentable { reason: Seq<char> },
}

/// The outcome for the bytes of one song file. Nothing is encoded on a dry
/// run, so a dry run never finds a song unrepresentable.
pub open spec fn file_outcome(dry_run: bool, rule: Rule, bytes: Seq<u8>) -> FileOutcome {
    match decode_view(bytes) {
        Err(reason) => FileOutcome::Unparseable { reason },
        Ok(song) => {
            let found = all_records(rule, song.1);
            if found.len() == 0 {
                FileOutcome::NoMatch
            } else if dry_run {
                FileOutcome::Touched { records: found, bytes: Seq::empty() }
            } else {
                match encode_view(bytes, slots_after(rule, song.1)) {
                    Ok(new_bytes) => FileOutcome::Touched { records: found, bytes: new_bytes },
                    Err(reason) => FileOutcome::Unrepresentable { reason },
                }
            }
        },
    }
}

/// Whether `r` reports the outcome `outcome` for the song file at `path`.
pub open spec fn reports(
    r: Result<Option<SwappedFile>, M8FstoErr>,
    path: Seq<char>,
    outcome: FileOutcome,
) -> bool {
    match outcome {
        FileOutcome::Unparseable { reason } => r matches Err(e) && e@ == (
        Failure::UnparseableM8File { path, reason }),
        FileOutcome::NoMatch => r matches Ok(None),
        FileOutcome::Touched { records, bytes } => r matches Ok(Some(file)) && file.file_data@
            == bytes && records_of(file.touched@) == records,
        FileOutcome::Unrepresentable { reason } => r matches Err(e) && e@ == (
        Failure::SongSerializationError { destination: path_debug(path), reason }),
    }
}

/// Applies a rule to the bytes of one song file: decodes them, rewrites the
/// matching samplers and, unless this is a dry run, encodes the song again.
pub fn on_file_blob(flags: &FlagBag, swap: &Swap, path: &str, data: Vec<u8>) -> (r: Result<
    Option<SwappedFile>,
    M8FstoErr,
>)
    ensures
        reports(r, path@, file_outcome(flags.dry_run, swap@, data@)),
{
    let song = match decode(&data) {
        Ok(song) => song,
        Err(reason) => {
            return Err(M8FstoErr::UnparseableM8File { path: String::from_str(path), reason });
        },
    };
    let mut instruments = song.instruments;
    let touched = swap_instruments(swap, &mut instruments);
    if touched.len() == 0 {
        return Ok(None);
    }
    if flags.dry_run {
        return Ok(Some(SwappedFile { file_data: Vec::new(), touched }));
    }
    match encode(data, &instruments) {
        Ok(file_data) => Ok(Some(SwappedFile { file_data, touched })),
        Err(reason) => Err(
            M8FstoErr::SongSerializationError { destination: quoted(path), reason },
        ),
    }
}

/// A song file whose new bytes wait to be written.
#[derive(Debug, Clone, PartialEq)]
pub struct PendingWrite {
    pub path: String,
    pub data: Vec<u8>,
}

/// What a scan over the song files under a root has gathered so far.
#[derive(Debug, PartialEq)]
pub struct BatchScan {
    /// The aggregate of the failures met so far.
    pub errors: Option<M8FstoErr>,
    /// The matching songs that could not be encoded.
    pub matched_not_serializable: Vec<String>,
    /// The rewritten songs that wait to be written.
    pub to_write: Vec<PendingWrite>,
}

/// The mathematical value of a `BatchScan`.
pub struct ScanView {
    /// The aggregate of every failure met, in the order of the files.
    pub failure: Option<Failure>,
    /// The songs that match the rule but cannot be written in their format.
    pub unrepresentable: Seq<Seq<char>>,
    /// The files to write, each with its new bytes, in the order of the files.
    pub pending: Seq<(Seq<char>, Seq<u8>)>,
}

/// The scan after one more file: `read` holds the bytes of the file at
/// `path`, or the reason why it could not be read. A failure on one file is
/// recorded and never ends the scan.
pub open spec fn scan_after(
    before: ScanView,
    dry_run: bool,
    rule: Rule,
    path: Seq<char>,
    read: Result<Seq<u8>, Seq<char>>,
) -> ScanView {
    match read {
        Err(reason) => ScanView {
            failure: gathered(before.failure, Failure::CannotReadFile { path, reason }),
            ..before
        },
        Ok(bytes) => match file_outcome(dry_run, rule, bytes) {
            FileOutcome::Unparseable { reason } => ScanView {
                failure: gathered(before.failure, Failure::UnparseableM8File { path, reason }),
                ..before
            },
            FileOutcome::NoMatch => before,
            FileOutcome::Touched { records, bytes: new_bytes } => ScanView {
                pending: before.pending.push((path, new_bytes)),
                ..before
            },
            FileOutcome::Unrepresentable { reason } => ScanView {
                failure: gathered(
                    before.failure,
                    Failure::SongSerializationError { destination: path_debug(path), reason },
                ),
                unrepresentable: before.unrepresentable.push(path_debug(path)),
                ..before
            },
        },
    }
}

/// The changes to report for one more file.
pub open spec fn scan_report(dry_run: bool, rule: Rule, read: Result<Seq<u8>, Seq<char>>) -> Seq<
    SwapRecord,
> {
    match read {
        Ok(bytes) => match file_outcome(dry_run, rule, bytes) {
            FileOutcome::Touched { records, .. } => records,
            _ => Seq::empty(),
        },
        Err(_) => Seq::empty(),
    }
}

impl ScanView {
    /// The aggregate of the scan is in canonical form.
    pub open spec fn is_canonical(self) -> bool {
        self.failure matches Some(f) ==> is_canonical(f)
    }
}

/// Whether a file adds a failure to a scan: it cannot be read, it is no
/// song, or it matches the rule and cannot be encoded.
pub open spec fn fails(dry_run: bool, rule: Rule, read: Result<Seq<u8>, Seq<char>>) -> bool {
    match read {
        Err(_) => true,
        Ok(bytes) => file_outcome(dry_run, rule, bytes) is Unparseable || file_outcome(
            dry_run,
            rule,
            bytes,
        ) is Unrepresentable,
    }
}

/// A scan forgets no failure: every file that fails leaves the scan with a
/// failure, a scan that has one keeps it whatever comes after, and the list
/// of the songs that could not be encoded only grows.
pub proof fn lemma_failures_are_kept(
    before: ScanView,
    dry_run: bool,
    rule: Rule,
    path: Seq<char>,
    read: Result<Seq<u8>, Seq<char>>,
)
    ensures
        fails(dry_run, rule, read) || before.failure is Some ==> scan_after(
            before,
            dry_run,
            rule,
            path,
            read,
        ).failure is Some,
        !fails(dry_run, rule, read) ==> scan_after(before, dry_run, rule, path, read).failure
            == before.failure,
        before.unrepresentable.is_prefix_of(
            scan_after(before, dry_run, rule, path, read).unrepresentable,
        ),
        before.pending.is_prefix_of(scan_after(before, dry_run, rule, path, read).pending),
{
}

/// The write gate: the rewritten songs are written only when this is no dry
/// run and either every matching song could be encoded or the batch is forced.
pub open spec fn gate_is_open(scan: ScanView, flags: FlagBag) -> bool {
    !flags.dry_run && (scan.unrepresentable.len() == 0 || flags.force)
}

/// The values of a list of pending writes.
pub open spec fn writes_of(list: Seq<PendingWrite>) -> Seq<(Seq<char>, Seq<u8>)> {
    Seq::new(list.len(), |i: int| (list[i].path@, list[i].data@))
}

/// The bytes of a file that was read, or the reason why not, as values.
pub open spec fn read_of(read: Result<Vec<u8>, String>) -> Result<Seq<u8>, Seq<char>> {
    match read {
        Ok(bytes) => Ok(bytes@),
        Err(reason) => Err(reason@),
    }
}

/// The reason recorded for a song file that could not be written to disk.
pub open spec fn write_failed() -> Seq<char> {
    "Error while writing file"@
}

impl View for BatchScan {
    type V = ScanView;

    open spec fn view(&self) -> ScanView {
        ScanView {
            failure: aggregate_of(self.errors),
            unrepresentable: Seq::new(
                self.matched_not_serializable@.len(),
                |i: int| self.matched_not_serializable@[i]@,
            ),
            pending: writes_of(self.to_write@),
        }
    }
}

impl BatchScan {
    /// A scan that has seen no file yet.
    pub fn new() -> (r: BatchScan)
        ensures
            r@ == (ScanView {
                failure: None,
                unrepresentable: Seq::empty(),
                pending: Seq::empty(),
            }),
            r@.is_canonical(),
    {
        let r = BatchScan {
            errors: None,
            matched_not_serializable: Vec::new(),
            to_write: Vec::new(),
        };
        assert(r@.unrepresentable =~= Seq::empty());
        assert(r@.pending =~= Seq::empty());
        r
    }

    /// Takes one more song file into the scan and hands back the changes to
    /// report for it.
    pub fn absorb(
        &mut self,
        flags: &FlagBag,
        swap: &Swap,
        path: &str,
        read: Result<Vec<u8>, String>,
    ) -> (report: Vec<SwappedInstruments>)
        ensures
            final(self)@ == scan_after(old(self)@, flags.dry_run, swap@, path@, read_of(read)),
            records_of(report@) == scan_report(flags.dry_run, swap@, read_of(read)),
            old(self)@.is_canonical() ==> final(self)@.is_canonical(),
    {
        let ghost before = self@;
        let outcome = match read {
            Err(reason) => Err(
                M8FstoErr::CannotReadFile { path: String::from_str(path), reason },
            ),
            Ok(bytes) => on_file_blob(flags, swap, path, bytes),
        };
        match outcome {
            Ok(None) => Vec::new(),
            Ok(Some(file)) => {
                self.to_write.push(
                    PendingWrite { path: String::from_str(path), data: file.file_data },
                );
                assert(self@.pending =~= before.pending.push((path@, file.file_data@)));
                file.touched
            },
            Err(failure) => {
                if let M8FstoErr::SongSerializationError { destination, .. } = &failure {
                    self.matched_not_serializable.push(destination.clone());
                }
                proof {
                    if before.is_canonical() {
                        lemma_gathered_is_canonical(before.failure, failure@);
                    }
                }
                let mut gathered_so_far: Option<M8FstoErr> = None;
                std::mem::swap(&mut gathered_so_far, &mut self.errors);
                self.errors = combine(gathered_so_far, failure);
                assert(self@.unrepresentable =~= if failure@ is SongSerializationError {
                    before.unrepresentable.push(path_debug(path@))
                } else {
                    before.unrepresentable
                });
                Vec::new()
            },
        }
    }

    /// Hands out the files to write and leaves none pending. They are all
    /// that was gathered where the write gate is open, and none where it is
    /// closed.
    pub fn take_writes(&mut self, flags: &FlagBag) -> (r: Vec<PendingWrite>)
        ensures
            writes_of(r@) == if gate_is_open(old(self)@, *flags) {
                old(self)@.pending
            } else {
                Seq::empty()
            },
            final(self)@ == (ScanView { pending: Seq::empty(), ..old(self)@ }),
    {
        let mut taken: Vec<PendingWrite> = Vec::new();
        std::mem::swap(&mut taken, &mut self.to_write);
        assert(self@.pending =~= Seq::empty());
        if !flags.dry_run && (self.matched_not_serializable.len() == 0 || flags.force) {
            taken
        } else {
            Vec::new()
        }
    }

    /// Records that the new bytes of the song file at `path` could not be
    /// written. The files behind it are still written.
    pub fn record_write_failure(&mut self, path: &str)
        ensures
            final(self)@ == (ScanView {
                failure: gathered(
                    old(self)@.failure,
                    Failure::SongSerializationError {
                        destination: path_debug(path@),
                        reason: write_failed(),
                    },
                ),
                ..old(self)@
            }),
            old(self)@.is_canonical() ==> final(self)@.is_canonical(),
    {
        let ghost before = self@;
        let failure = M8FstoErr::SongSerializationError {
            destination: quoted(path),
            reason: String::from_str("Error while writing file"),
        };
        proof {
            if before.is_canonical() {
                lemma_gathered_is_canonical(before.failure, failure@);
            }
        }
        let mut gathered_so_far: Option<M8FstoErr> = None;
        std::mem::swap(&mut gathered_so_far, &mut self.errors);
        self.errors = combine(gathered_so_far, failure);
    }

    /// The result of the scan: success when no file failed, else the
    /// aggregate of the failures. A scan that started with `new` hands it
    /// out in canonical form.
    pub fn finish(self) -> (r: Result<(), M8FstoErr>)
        ensures
            verdict_of(r) == match self@.failure {
                None => Ok::<(), Failure>(()),
                Some(f) => Err::<(), Failure>(f),
            },
            self@.is_canonical() ==> (r matches Err(e) ==> is_canonical(e@)),
    {
        match self.errors {
            None => Ok(()),
            Some(e) => Err(e),
        }
    }
}

/// A path after one more of its components was taken in. A component that
/// names the folder itself changes nothing, one that names the parent takes
/// the last component away where there is one, and any other is adjoined.
pub open spec fn pushed(so_far: Seq<char>, part: Part, first: bool) -> Seq<char> {
    match part {
        Part::Prefix(text) => if first {
            text
        } else {
            path_join(so_far, text)
        },
        Part::RootDir(text) => path_join(so_far, text),
        Part::CurDir => so_far,
        Part::ParentDir => match path_parent(so_far) {
            Some(shorter) => shorter,
            None => so_far,
        },
        Part::Normal(text) => path_join(so_far, text),
    }
}

/// The path built from a list of components, taken in from left to right.
pub open spec fn rebuilt(parts: Seq<Part>) -> Seq<char>
    decreases parts.len(),
{
    if parts.len() == 0 {
        Seq::empty()
    } else {
        pushed(rebuilt(parts.drop_last()), parts.last(), parts.len() == 1)
    }
}

/// A path with its `.` and `..` components resolved by their meaning alone,
/// without looking at what is on disk.
pub open spec fn normalized(path: Seq<char>) -> Seq<char> {
    rebuilt(path_parts(path))
}

/// Resolves the `.` and `..` components of a path. The path need not exist.
pub fn normalize_path(path: &str) -> (r: String)
    ensures
        r@ == normalized(path@),
{
    let parts = components(path);
    let ghost all = parts_view(parts@);
    let mut ret = String::new();
    let mut i: usize = 0;
    while i < parts.len()
        invariant
            i <= parts.len(),
            all == parts_view(parts@),
            ret@ == rebuilt(all.take(i as int)),
        decreases parts.len() - i,
    {
        proof {
            let upto = all.take(i + 1);
            assert(upto.drop_last() =~= all.take(i as int));
        }
        match &parts[i] {
            PathPart::Prefix(text) => {
                if i == 0 {
                    ret = text.clone();
                } else {
                    ret = join(ret.as_str(), text.as_str());
                }
            },
            PathPart::RootDir(text) => {
                ret = join(ret.as_str(), text.as_str());
            },
            PathPart::CurDir => {},
            PathPart::ParentDir => {
                match parent(ret.as_str()) {
                    Some(shorter) => {
                        ret = shorter;
                    },
                    None => {},
                }
            },
            PathPart::Normal(text) => {
                ret = join(ret.as_str(), text.as_str());
            },
        }
        i = i + 1;
    }
    assert(all.take(parts.len() as int) =~= all);
    ret
}

/// The pattern that finds every song file under the backup root.
pub fn scan_pattern(root: &str) -> (r: String)
    ensures
        r@ == root@ + "/**/*.m8s"@,
{
    catenate(root, "/**/*.m8s")
}

/// What is found on disk at the source of a move.
#[derive(Debug, Clone, Copy, PartialEq, Eq, Structural)]
pub enum SourceKind {
    /// Nothing is there.
    Missing,
    Directory,
    File,
    /// Something that is neither a folder nor a plain file.
    Other,
}

/// A move that has been planned and not yet carried out.
#[derive(Debug, Clone, PartialEq)]
pub struct MovePlan {
    /// The backup root, normalized.
    pub root: String,
    /// The path to rename, normalized.
    pub from: String,
    /// The path to rename it to, normalized.
    pub to: String,
    /// The rule that the songs under the root are rewritten with.
    pub rule: Swap,
}

/// The mathematical value of a `MovePlan`.
pub struct PlanView {
    pub root: Seq<char>,
    pub from: Seq<char>,
    pub to: Seq<char>,
    pub rule: Rule,
}

impl View for MovePlan {
    type V = PlanView;

    open spec fn view(&self) -> PlanView {
        PlanView { root: self.root@, from: self.from@, to: self.to@, rule: self.rule@ }
    }
}

/// A root-relative reference in its normal form: it begins with exactly one
/// separator.
pub open spec fn is_rooted(reference: Seq<char>) -> bool {
    reference.len() >= 1 && reference[0] == '/' && (reference.len() >= 2 ==> reference[1] != '/')
}

/// The root-relative reference of a path under a root: what is left of the
/// path behind the root, written with forward slashes behind one leading
/// separator. There is none for a path that does not lie under the root.
pub open spec fn reference_under(root: Seq<char>, path: Seq<char>) -> Option<Seq<char>> {
    match path_strip_prefix(path, root) {
        None => None,
        Some(rest) => if slashed(rest).len() > 0 && slashed(rest)[0] == '/' {
            None
        } else {
            Some(seq!['/'] + slashed(rest))
        },
    }
}

/// Where a destination lies: under the root where it is given relative, and
/// in either case normalized.
pub open spec fn destination(root: Seq<char>, to: Seq<char>) -> Seq<char> {
    if path_is_relative(to) {
        normalized(path_join(root, to))
    } else {
        normalized(to)
    }
}

/// The plan for a requested move, or the reason why there is none: every
/// refusal is a failure of a path. The checks are made in this order: the
/// source exists, the source lies under the root, the destination lies under
/// the root, the source is a folder or a plain file.
pub open spec fn move_plan(cwd: Seq<char>, from: Seq<char>, to: Seq<char>, kind: SourceKind)
    -> Result<PlanView, Failure> {
    let root = normalized(cwd);
    let source = normalized(from);
    let target = destination(root, to);
    if kind == SourceKind::Missing {
        Err(Failure::InvalidPath { reason: "Folder "@ + path_debug(from) + " doesn't exists"@ })
    } else {
        match reference_under(root, source) {
            None => Err(Failure::InvalidPath { reason: "from relativisation error"@ }),
            Some(from_ref) => match reference_under(root, target) {
                None => Err(
                    Failure::InvalidPath { reason: "destination canonicalization error"@ },
                ),
                Some(to_ref) => if kind == SourceKind::Directory {
                    Ok(
                        PlanView {
                            root,
                            from: source,
                            to: target,
                            rule: Rule::Dir { from: from_ref, to: to_ref },
                        },
                    )
                } else if kind == SourceKind::File {
                    Ok(
                        PlanView {
                            root,
                            from: source,
                            to: target,
                            rule: Rule::File { from: from_ref, to: to_ref },
                        },
                    )
                } else {
                    Err(
                        Failure::InvalidPath {
                            reason: "Path "@ + path_debug(from)
                                + " is neither file nor directory"@,
                        },
                    )
                },
            },
        }
    }
}

/// The root-relative reference of `path` under `root`, if it lies there.
fn reference_of(root: &str, path: &str) -> (r: Option<String>)
    ensures
        text_of(r) == reference_under(root@, path@),
{
    match strip_base(path, root) {
        None => None,
        Some(rest) => {
            let relative = forward_slashes(rest.as_str());
            if relative.as_str().unicode_len() > 0 && relative.as_str().get_char(0) == '/' {
                None
            } else {
                let r = catenate("/", relative.as_str());
                proof {
                    reveal_strlit("/");
                }
                Some(r)
            }
        },
    }
}

/// Plans a move of `from` to `to` under the backup root `cwd`. `kind` says
/// what was found on disk at `from`. Nothing on disk is looked at or changed.
pub fn plan_move(cwd: &str, from: &str, to: &str, kind: SourceKind) -> (r: Result<
    MovePlan,
    M8FstoErr,
>)
    ensures
        match r {
            Ok(plan) => move_plan(cwd@, from@, to@, kind) == Ok::<PlanView, Failure>(plan@),
            Err(e) => move_plan(cwd@, from@, to@, kind) == Err::<PlanView, Failure>(e@),
        },
{
    let root = normalize_path(cwd);
    if kind == SourceKind::Missing {
        let mut reason = String::from_str("Folder ");
        reason.append(quoted(from).as_str());
        reason.append(" doesn't exists");
        return Err(M8FstoErr::InvalidPath { reason });
    }
    let target = if is_relative(to) {
        normalize_path(join(root.as_str(), to).as_str())
    } else {
        normalize_path(to)
    };
    let source = normalize_path(from);
    let from_ref = match reference_of(root.as_str(), source.as_str()) {
        Some(reference) => reference,
        None => {
            return Err(
                M8FstoErr::InvalidPath { reason: String::from_str("from relativisation error") },
            );
        },
    };
    let to_ref = match reference_of(root.as_str(), target.as_str()) {
        Some(reference) => reference,
        None => {
            return Err(
                M8FstoErr::InvalidPath {
                    reason: String::from_str("destination canonicalization error"),
                },
            );
        },
    };
    if kind == SourceKind::Directory {
        Ok(MovePlan { root, from: source, to: target, rule: Swap::Dir { from: from_ref, to: to_ref } })
    } else if kind == SourceKind::File {
        Ok(
            MovePlan {
                root,
                from: source,
                to: target,
                rule: Swap::File { from: from_ref, to: to_ref },
            },
        )
    } else {
        let mut reason = String::from_str("Path ");
        reason.append(quoted(from).as_str());
        reason.append(" is neither file nor directory");
        Err(M8FstoErr::InvalidPath { reason })
    }
}

/// The two references of a planned rule.
pub open spec fn rule_ends(rule: Rule) -> (Seq<char>, Seq<char>) {
    match rule {
        Rule::Dir { from, to } => (from, to),
        Rule::File { from, to } => (from, to),
    }
}

/// Both references of the rule of a plan begin with exactly one separator.
pub proof fn lemma_planned_rule_is_rooted(
    cwd: Seq<char>,
    from: Seq<char>,
    to: Seq<char>,
    kind: SourceKind,
)
    ensures
        move_plan(cwd, from, to, kind) matches Ok(plan) ==> is_rooted(rule_ends(plan.rule).0)
            && is_rooted(rule_ends(plan.rule).1),
{
}

/// Whether the rename is due after a scan with the result `scan`: never on
/// a dry run, always after a scan without failure, and after a scan with
/// failures only where the batch is forced.
pub open spec fn rename_is_due(scan: Result<(), Failure>, flags: FlagBag) -> bool {
    !flags.dry_run && (scan is Ok || flags.force)
}

/// Whether the file or folder itself is renamed once the songs were scanned.
/// A dry run changes nothing on disk, so it renames nothing.
pub fn should_rename(scan: &Result<(), M8FstoErr>, flags: &FlagBag) -> (r: bool)
    ensures
        r == rename_is_due(verdict_of(*scan), *flags),
{
    if flags.dry_run {
        false
    } else {
        match scan {
            Ok(_) => true,
            Err(_) => flags.force,
        }
    }
}

/// The failures of a scan followed by the failure of the rename.
pub open spec fn joined_with_rename(failure: Failure, from: Seq<char>) -> Failure {
    crate::types::joined(failure, Failure::RenameFailure { path: path_debug(from) })
}

/// The result of a whole move. `renamed` says whether the rename took place
/// without failure; it is looked at only where the rename was due. Where the
/// rename was not due, or took place, the result of the scan is the result of
/// the move; a rename that failed is reported behind the failures of the scan.
pub open spec fn move_verdict(
    scan: Result<(), Failure>,
    flags: FlagBag,
    renamed: bool,
    from: Seq<char>,
) -> Result<(), Failure> {
    if !rename_is_due(scan, flags) || renamed {
        scan
    } else {
        match scan {
            Ok(_) => Err(Failure::RenameFailure { path: path_debug(from) }),
            Err(failure) => Err(joined_with_rename(failure, from)),
        }
    }
}

/// Concludes a move from the result of the scan and the outcome of the
/// rename of `from`.
pub fn move_result(scan: Result<(), M8FstoErr>, flags: &FlagBag, renamed: bool, from: &str) -> (r:
    Result<(), M8FstoErr>)
    ensures
        verdict_of(r) == move_verdict(verdict_of(scan), *flags, renamed, from@),
{
    if !should_rename(&scan, flags) || renamed {
        scan
    } else {
        match scan {
            Ok(_) => Err(M8FstoErr::RenameFailure { path: quoted(from) }),
            Err(failure) => Err(
                failure.combine(M8FstoErr::RenameFailure { path: quoted(from) }),
            ),
        }
    }
}

/// A move is never silent and never renames behind the back of the songs. It
/// reports success only where every song was rewritten and the rename took
/// place, or on a dry run that met no failure. On a dry run the rename is not
/// due and the result of the scan is the result. Where a rewrite failed and
/// the batch is not forced, the rename is not due either, so that the samples
/// stay where the songs look for them, and the failures are the result.
pub proof fn lemma_move_is_never_silent(
    scan: Result<(), Failure>,
    flags: FlagBag,
    renamed: bool,
    from: Seq<char>,
)
    ensures
        move_verdict(scan, flags, renamed, from) is Ok <==> scan is Ok && (renamed
            || flags.dry_run),
        flags.dry_run ==> !rename_is_due(scan, flags) && move_verdict(
            scan,
            flags,
            renamed,
            from,
        ) == scan,
        scan is Err && !flags.force ==> !rename_is_due(scan, flags) && move_verdict(
            scan,
            flags,
            renamed,
            from,
        ) == scan,
        scan is Err ==> move_verdict(scan, flags, renamed, from) is Err,
{
}

} // verus!
