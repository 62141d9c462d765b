use crate::move_samples::text_of;
use crate::paths::{
    checks_of, file_name, first_absent, first_missing, has_sample, join, parent, path_debug,
    path_file_name, path_join, path_parent, quoted, resolve_in, resolved, sample_checks,
    sample_files, CheckView, SampleCheck,
};
use crate::song::{
    copy_of, decode, decode_view, encode, encode_view, slots_of, Instrument, Slot,
};
use crate::text::{decimal, decimal_string, same_text};
use crate::types::{Failure, M8FstoErr};
use vstd::prelude::*;
use vstd::string::*;

verus! {

/// One sample that was given a place in the bundle: the reference it was
/// found under and the reference that takes its place.
#[derive(Debug, Clone, PartialEq)]
pub struct DedupEntry {
    pub source: String,
    pub dest: String,
}

/// Remembers, for one bundle, where each sample went. A reference that has a
/// place keeps it for the rest of the operation.
#[derive(Debug, Clone, PartialEq)]
pub struct DedupMap {
    pub entries: Vec<DedupEntry>,
}

/// The place recorded for a reference in a list of entries: that of the first
/// entry made for it.
pub open spec fn assigned_in(entries: Seq<DedupEntry>, key: Seq<char>) -> Option<Seq<char>>
    decreases entries.len(),
{
    if entries.len() == 0 {
        None
    } else {
        match assigned_in(entries.drop_last(), key) {
            Some(dest) => Some(dest),
            None => if entries.last().source@ == key {
                Some(entries.last().dest@)
            } else {
                None
            },
        }
    }
}

/// Entries made behind the first one for a reference do not change its place.
pub proof fn lemma_assigned_stays(entries: Seq<DedupEntry>, upto: int, key: Seq<char>)
    requires
        0 <= upto <= entries.len(),
        assigned_in(entries.take(upto), key) is Some,
    ensures
        assigned_in(entries, key) == assigned_in(entries.take(upto), key),
    decreases entries.len() - upto,
{
    if upto < entries.len() {
        assert(entries.take(upto + 1).drop_last() =~= entries.take(upto));
        lemma_assigned_stays(entries, upto + 1, key);
    } else {
        assert(entries.take(upto) =~= entries);
    }
}

impl DedupMap {
    /// The place recorded for a reference, if it has one.
    pub open spec fn assigned(&self, key: Seq<char>) -> Option<Seq<char>> {
        assigned_in(self.entries@, key)
    }

    /// A map in which no reference has a place yet.
    pub fn new() -> (r: DedupMap)
        ensures
            forall|key: Seq<char>| r.assigned(key) is None,
    {
        DedupMap { entries: Vec::new() }
    }

    /// The place recorded for `key`.
    pub fn get(&self, key: &str) -> (r: Option<String>)
        ensures
            text_of(r) == self.assigned(key@),
    {
        let mut i: usize = 0;
        while i < self.entries.len()
            invariant
                i <= self.entries.len(),
                assigned_in(self.entries@.take(i as int), key@) is None,
            decreases self.entries.len() - i,
        {
            assert(self.entries@.take(i + 1).drop_last() =~= self.entries@.take(i as int));
            if same_text(self.entries[i].source.as_str(), key) {
                proof {
                    lemma_assigned_stays(self.entries@, i + 1, key@);
                }
                return Some(self.entries[i].dest.clone());
            }
            i = i + 1;
        }
        assert(self.entries@.take(i as int) =~= self.entries@);
        None
    }

    /// Gives `key` the place `dest` unless it has one already.
    pub fn record(&mut self, key: String, dest: String)
        ensures
            forall|k: Seq<char>| #[trigger]
                final(self).assigned(k) == match old(self).assigned(k) {
                    Some(kept) => Some(kept),
                    None => if k == key@ {
                        Some(dest@)
                    } else {
                        None
                    },
                },
    {
        if self.get(key.as_str()).is_none() {
            let ghost before = self.entries@;
            self.entries.push(DedupEntry { source: key, dest });
            assert(self.entries@.drop_last() =~= before);
        }
    }
}

/// The first slot, among the first `upto`, whose sampler refers to `path`.
pub open spec fn first_use_upto(slots: Seq<Slot>, path: Seq<char>, upto: int) -> Option<int>
    decreases upto,
{
    if upto <= 0 {
        None
    } else {
        match first_use_upto(slots, path, upto - 1) {
            Some(slot) => Some(slot),
            None => if has_sample(slots, upto - 1) && slots[upto - 1]->sample_path == path {
                Some(upto - 1)
            } else {
                None
            },
        }
    }
}

/// The first slot whose sampler refers to the same sample as slot `i`.
pub open spec fn first_use(slots: Seq<Slot>, i: int) -> int {
    first_use_upto(slots, slots[i]->sample_path, i + 1)->Some_0
}

/// The name a sample file gets in the bundle: the slot that first uses it,
/// then the name it had. The slot keeps files of one name from different
/// folders apart.
pub open spec fn bundled_name(slot: int, file: Seq<char>) -> Seq<char> {
    decimal(slot as nat) + "_"@ + file
}

/// The song-relative reference of a file in the sample folder of a bundle.
pub open spec fn bundled_reference(name: Seq<char>) -> Seq<char> {
    "Samples/"@ + name
}

/// The file that the sampler in slot `i` refers to.
pub open spec fn source_of(root: Seq<char>, song_folder: Seq<char>, slots: Seq<Slot>, i: int)
    -> Seq<char> {
    resolved(root, song_folder, slots[i]->sample_path)
}

/// The name of the file that the sampler in slot `i` refers to.
pub open spec fn file_of(root: Seq<char>, song_folder: Seq<char>, slots: Seq<Slot>, i: int)
    -> Seq<char> {
    path_file_name(source_of(root, song_folder, slots, i))->Some_0
}

/// Every sample that the song refers to has a file name.
pub open spec fn all_named(root: Seq<char>, song_folder: Seq<char>, slots: Seq<Slot>) -> bool {
    forall|i: int| #[trigger]
        has_sample(slots, i) ==> path_file_name(source_of(root, song_folder, slots, i)) is Some
}

/// The reference that slot `i` carries in the bundle.
pub open spec fn reference_in_bundle(
    root: Seq<char>,
    song_folder: Seq<char>,
    slots: Seq<Slot>,
    i: int,
) -> Seq<char> {
    bundled_reference(
        bundled_name(
            first_use(slots, i),
            file_of(root, song_folder, slots, first_use(slots, i)),
        ),
    )
}

/// Slot `i` as the bundled song holds it: a sampler with a sample assigned
/// refers to the copy in the bundle, and everything else is as it was.
pub open spec fn slot_in_bundle(root: Seq<char>, song_folder: Seq<char>, slots: Seq<Slot>, i: int)
    -> Slot {
    if has_sample(slots, i) {
        Slot::Sampler {
            name: slots[i]->name,
            sample_path: reference_in_bundle(root, song_folder, slots, i),
        }
    } else {
        slots[i]
    }
}

/// One file copy of a bundle.
#[derive(Debug, Clone, PartialEq)]
pub struct SampleCopy {
    /// The slot that first uses the sample.
    pub slot: usize,
    /// The reference the sample was found under.
    pub reference: String,
    /// The file to copy.
    pub from: String,
    /// The file to copy it to, in the sample folder of the bundle.
    pub to: String,
}

/// The mathematical value of a `SampleCopy`.
pub struct CopyView {
    pub slot: int,
    pub reference: Seq<char>,
    pub from: Seq<char>,
    pub to: Seq<char>,
}

impl View for SampleCopy {
    type V = CopyView;

    open spec fn view(&self) -> CopyView {
        CopyView {
            slot: self.slot as int,
            reference: self.reference@,
            from: self.from@,
            to: self.to@,
        }
    }
}

impl SampleCopy {
    /// The failure to report when this copy cannot be made.
    pub fn failure(&self, reason: String) -> (r: M8FstoErr)
        ensures
            r@ == (Failure::SampleCopyError { path: self.from@, to: self.to@, reason: reason@ }),
    {
        M8FstoErr::SampleCopyError { path: self.from.clone(), to: self.to.clone(), reason }
    }
}

/// The values of a list of copies.
pub open spec fn copies_of(list: Seq<SampleCopy>) -> Seq<CopyView> {
    Seq::new(list.len(), |i: int| list[i]@)
}

/// The copy made for the sample that slot `i` is the first to use.
pub open spec fn copy_for(
    root: Seq<char>,
    song_folder: Seq<char>,
    sample_folder: Seq<char>,
    slots: Seq<Slot>,
    i: int,
) -> CopyView {
    CopyView {
        slot: i,
        reference: slots[i]->sample_path,
        from: source_of(root, song_folder, slots, i),
        to: path_join(sample_folder, bundled_name(i, file_of(root, song_folder, slots, i))),
    }
}

/// The copies made for the first `upto` slots, in ascending slot order: one
/// for every slot that is the first to use its sample.
pub open spec fn copies_upto(
    root: Seq<char>,
    song_folder: Seq<char>,
    sample_folder: Seq<char>,
    slots: Seq<Slot>,
    upto: int,
) -> Seq<CopyView>
    decreases upto,
{
    if upto <= 0 {
        Seq::empty()
    } else if has_sample(slots, upto - 1) && first_use(slots, upto - 1) == upto - 1 {
        copies_upto(root, song_folder, sample_folder, slots, upto - 1).push(
            copy_for(root, song_folder, sample_folder, slots, upto - 1),
        )
    } else {
        copies_upto(root, song_folder, sample_folder, slots, upto - 1)
    }
}

/// What is to be done to bundle one song.
#[derive(Debug, Clone, PartialEq)]
pub struct BundlePlan {
    /// The folder of the bundle, to create: it is named after the song.
    pub song_folder: String,
    /// The sample folder inside it, to create.
    pub sample_folder: String,
    /// Where the song file of the bundle is written.
    pub song_file: String,
    /// The files to copy, in ascending slot order.
    pub copies: Vec<SampleCopy>,
    /// The instruments of the bundled song.
    pub instruments: Vec<Instrument>,
}

/// The mathematical value of a `BundlePlan`.
pub struct BundleView {
    pub song_folder: Seq<char>,
    pub sample_folder: Seq<char>,
    pub song_file: Seq<char>,
    pub copies: Seq<CopyView>,
    pub slots: Seq<Slot>,
}

impl View for BundlePlan {
    type V = BundleView;

    open spec fn view(&self) -> BundleView {
        BundleView {
            song_folder: self.song_folder@,
            sample_folder: self.sample_folder@,
            song_file: self.song_file@,
            copies: copies_of(self.copies@),
            slots: slots_of(self.instruments@),
        }
    }
}

/// The reason given for a song path that has no folder or no file name.
pub open spec fn no_song_file() -> Seq<char> {
    "Song path does not name a file in a folder"@
}

/// The reason given for a sample reference that names no file.
pub open spec fn no_sample_file() -> Seq<char> {
    "Sample path does not name a file"@
}

/// The plan for the bundle of a song with the name `title` and the
/// instruments `slots`, read from `song_path`, under `out_folder`.
pub open spec fn bundle_plan(
    root: Seq<char>,
    song_path: Seq<char>,
    out_folder: Seq<char>,
    title: Seq<char>,
    slots: Seq<Slot>,
) -> Result<BundleView, Failure> {
    if path_parent(song_path) is None || path_file_name(song_path) is None {
        Err(Failure::InvalidPath { reason: no_song_file() })
    } else {
        let from_folder = path_parent(song_path)->Some_0;
        let song_folder = path_join(out_folder, title);
        let sample_folder = path_join(song_folder, "Samples"@);
        if all_named(root, from_folder, slots) {
            Ok(
                BundleView {
                    song_folder,
                    sample_folder,
                    song_file: path_join(song_folder, path_file_name(song_path)->Some_0),
                    copies: copies_upto(
                        root,
                        from_folder,
                        sample_folder,
                        slots,
                        slots.len() as int,
                    ),
                    slots: Seq::new(
                        slots.len(),
                        |i: int| slot_in_bundle(root, from_folder, slots, i),
                    ),
                },
            )
        } else {
            Err(Failure::InvalidPath { reason: no_sample_file() })
        }
    }
}

/// What the first `upto` slots tell about the first use of a reference.
pub proof fn lemma_first_use_upto(slots: Seq<Slot>, path: Seq<char>, upto: int)
    ensures
        match first_use_upto(slots, path, upto) {
            Some(slot) => 0 <= slot < upto && has_sample(slots, slot) && slots[slot]->sample_path
                == path && first_use_upto(slots, path, slot) is None,
            None => forall|j: int|
                0 <= j < upto && has_sample(slots, j) ==> slots[j]->sample_path != path,
        },
    decreases upto,
{
    if upto > 0 {
        lemma_first_use_upto(slots, path, upto - 1);
    }
}

/// Once a first use was found, looking further changes nothing.
pub proof fn lemma_first_use_stays(slots: Seq<Slot>, path: Seq<char>, upto: int, further: int)
    requires
        upto <= further,
        first_use_upto(slots, path, upto) is Some,
    ensures
        first_use_upto(slots, path, further) == first_use_upto(slots, path, upto),
    decreases further - upto,
{
    if upto < further {
        lemma_first_use_stays(slots, path, upto, further - 1);
    }
}

/// Two samplers that refer to one sample have the same first use.
pub proof fn lemma_same_first_use(slots: Seq<Slot>, i: int, j: int)
    requires
        has_sample(slots, i),
        has_sample(slots, j),
        slots[i]->sample_path == slots[j]->sample_path,
    ensures
        first_use(slots, i) == first_use(slots, j),
        0 <= first_use(slots, i) <= i,
        has_sample(slots, first_use(slots, i)),
        slots[first_use(slots, i)]->sample_path == slots[i]->sample_path,
{
    let path = slots[i]->sample_path;
    lemma_first_use_upto(slots, path, i + 1);
    lemma_first_use_upto(slots, path, j + 1);
    if i <= j {
        lemma_first_use_stays(slots, path, i + 1, j + 1);
    } else {
        lemma_first_use_stays(slots, path, j + 1, i + 1);
    }
}

/// How many of the copies are made for the reference `reference`.
pub open spec fn copies_made_for(copies: Seq<CopyView>, reference: Seq<char>) -> nat
    decreases copies.len(),
{
    if copies.len() == 0 {
        0
    } else if copies.last().reference == reference {
        copies_made_for(copies.drop_last(), reference) + 1
    } else {
        copies_made_for(copies.drop_last(), reference)
    }
}

/// Among the first `upto` slots, a reference that some sampler uses gets
/// exactly one copy, and a reference that none uses gets no copy.
pub proof fn lemma_copies_upto(
    root: Seq<char>,
    song_folder: Seq<char>,
    sample_folder: Seq<char>,
    slots: Seq<Slot>,
    reference: Seq<char>,
    upto: int,
)
    requires
        0 <= upto <= slots.len(),
    ensures
        copies_made_for(copies_upto(root, song_folder, sample_folder, slots, upto), reference)
            == if first_use_upto(slots, reference, upto) is Some {
            1nat
        } else {
            0nat
        },
    decreases upto,
{
    if upto > 0 {
        let i = upto - 1;
        lemma_copies_upto(root, song_folder, sample_folder, slots, reference, i);
        let before = copies_upto(root, song_folder, sample_folder, slots, i);
        if has_sample(slots, i) {
            lemma_first_use_upto(slots, slots[i]->sample_path, i + 1);
            lemma_first_use_upto(slots, slots[i]->sample_path, i);
            if first_use(slots, i) == i {
                let made = copy_for(root, song_folder, sample_folder, slots, i);
                assert(before.push(made).drop_last() =~= before);
            }
        }
    }
}

/// The dedup invariant: samplers that share one source reference all carry
/// the same reference in the bundle, and exactly one copy is made for it.
pub proof fn lemma_one_copy_per_source(
    root: Seq<char>,
    song_folder: Seq<char>,
    sample_folder: Seq<char>,
    slots: Seq<Slot>,
    i: int,
    j: int,
)
    requires
        has_sample(slots, i),
        has_sample(slots, j),
        slots[i]->sample_path == slots[j]->sample_path,
    ensures
        slot_in_bundle(root, song_folder, slots, i)->sample_path == slot_in_bundle(
            root,
            song_folder,
            slots,
            j,
        )->sample_path,
        copies_made_for(
            copies_upto(root, song_folder, sample_folder, slots, slots.len() as int),
            slots[i]->sample_path,
        ) == 1,
{
    lemma_same_first_use(slots, i, j);
    let path = slots[i]->sample_path;
    lemma_copies_upto(root, song_folder, sample_folder, slots, path, slots.len() as int);
    lemma_first_use_upto(slots, path, i + 1);
    lemma_first_use_stays(slots, path, i + 1, slots.len() as int);
}

/// The place in the bundle that the map holds for a reference, given what
/// the first `upto` slots use.
pub open spec fn place_upto(
    root: Seq<char>,
    song_folder: Seq<char>,
    slots: Seq<Slot>,
    key: Seq<char>,
    upto: int,
) -> Option<Seq<char>> {
    match first_use_upto(slots, key, upto) {
        Some(slot) => Some(
            bundled_reference(bundled_name(slot, file_of(root, song_folder, slots, slot))),
        ),
        None => None,
    }
}

/// Plans the bundle of a song: which folders to create, which files to copy
/// and what the instruments of the bundled song refer to. A sample that
/// several samplers use is copied once, under the slot that uses it first.
/// Nothing on disk is looked at or changed.
pub fn plan_bundle(
    backup_root: &str,
    song_path: &str,
    out_folder: &str,
    title: &str,
    instruments: &Vec<Instrument>,
) -> (r: Result<BundlePlan, M8FstoErr>)
    ensures
        match r {
            Ok(plan) => bundle_plan(
                backup_root@,
                song_path@,
                out_folder@,
                title@,
                slots_of(instruments@),
            ) == Ok::<BundleView, Failure>(plan@),
            Err(e) => bundle_plan(
                backup_root@,
                song_path@,
                out_folder@,
                title@,
                slots_of(instruments@),
            ) == Err::<BundleView, Failure>(e@),
        },
{
    let (from_folder, song_name) = match (parent(song_path), file_name(song_path)) {
        (Some(folder), Some(name)) => (folder, name),
        _ => {
            return Err(
                M8FstoErr::InvalidPath {
                    reason: String::from_str("Song path does not name a file in a folder"),
                },
            );
        },
    };
    let song_folder = join(out_folder, title);
    let sample_folder = join(song_folder.as_str(), "Samples");
    let song_file = join(song_folder.as_str(), song_name.as_str());
    let ghost slots = slots_of(instruments@);
    let ghost root = backup_root@;
    let ghost folder = from_folder@;
    let mut samples = DedupMap::new();
    let mut copies: Vec<SampleCopy> = Vec::new();
    let mut bundled: Vec<Instrument> = Vec::new();
    let n = instruments.len();
    let mut i: usize = 0;
    while i < n
        invariant
            i <= n,
            n == instruments@.len(),
            slots == slots_of(instruments@),
            root == backup_root@,
            folder == from_folder@,
            path_parent(song_path@) == Some(folder),
            path_file_name(song_path@) is Some,
            bundled@.len() == i,
            forall|j: int|
                0 <= j < i ==> (#[trigger] bundled@[j])@ == slot_in_bundle(root, folder, slots, j),
            copies_of(copies@) == copies_upto(root, folder, sample_folder@, slots, i as int),
            forall|key: Seq<char>| #[trigger]
                samples.assigned(key) == place_upto(root, folder, slots, key, i as int),
            forall|j: int|
                0 <= j < i && #[trigger] has_sample(slots, j) ==> path_file_name(
                    source_of(root, folder, slots, j),
                ) is Some,
        decreases n - i,
    {
        match &instruments[i] {
            Instrument::Sampler { name, sample_path } => {
                if sample_path.as_str().unicode_len() > 0 {
                    let ghost path = sample_path@;
                    proof {
                        lemma_first_use_upto(slots, path, i as int);
                        lemma_first_use_upto(slots, path, i + 1);
                    }
                    match samples.get(sample_path.as_str()) {
                        Some(place) => {
                            bundled.push(
                                Instrument::Sampler { name: name.clone(), sample_path: place },
                            );
                        },
                        None => {
                            let source = resolve_in(
                                backup_root,
                                from_folder.as_str(),
                                sample_path.as_str(),
                            );
                            let file = match file_name(source.as_str()) {
                                Some(file) => file,
                                None => {
                                    return Err(
                                        M8FstoErr::InvalidPath {
                                            reason: String::from_str(
                                                "Sample path does not name a file",
                                            ),
                                        },
                                    );
                                },
                            };
                            let mut bundled_file = decimal_string(i);
                            bundled_file.append("_");
                            bundled_file.append(file.as_str());
                            let mut place = String::from_str("Samples/");
                            place.append(bundled_file.as_str());
                            copies.push(
                                SampleCopy {
                                    slot: i,
                                    reference: sample_path.clone(),
                                    from: source,
                                    to: join(sample_folder.as_str(), bundled_file.as_str()),
                                },
                            );
                            samples.record(sample_path.clone(), place.clone());
                            bundled.push(
                                Instrument::Sampler { name: name.clone(), sample_path: place },
                            );
                        },
                    }
                } else {
                    bundled.push(
                        Instrument::Sampler {
                            name: name.clone(),
                            sample_path: sample_path.clone(),
                        },
                    );
                }
            },
            other => {
                bundled.push(copy_of(other));
            },
        }
        i = i + 1;
    }
    assert(slots_of(bundled@) =~= Seq::new(
        slots.len(),
        |j: int| slot_in_bundle(root, folder, slots, j),
    ));
    Ok(BundlePlan { song_folder, sample_folder, song_file, copies, instruments: bundled })
}

/// A song that is ready to be bundled: the files it needs, to be looked for
/// before anything is created, and what to do once all are there.
#[derive(Debug, Clone, PartialEq)]
pub struct BundleJob {
    /// The sample files that the song refers to, in ascending slot order.
    checks: Vec<SampleCheck>,
    /// What to create, copy and write; nothing where a sample reference
    /// names no file.
    plan: Option<BundlePlan>,
    /// The bytes of the song file.
    data: Vec<u8>,
}

/// The plan of a job: that of the song, or nothing where a sample reference
/// names no file. That refusal waits until the sample files were looked for.
pub open spec fn plan_of_job(
    root: Seq<char>,
    song_path: Seq<char>,
    out_folder: Seq<char>,
    title: Seq<char>,
    slots: Seq<Slot>,
) -> Option<BundleView> {
    match bundle_plan(root, song_path, out_folder, title, slots) {
        Ok(plan) => Some(plan),
        Err(_) => None,
    }
}

/// What `on_file_blob` answers for the bytes of a song file: the checks and
/// the plan, or the failure. There is no job for bytes that are no song and
/// for a song path that names no file in a folder.
pub open spec fn bundle_job(
    root: Seq<char>,
    song_path: Seq<char>,
    out_folder: Seq<char>,
    bytes: Seq<u8>,
) -> Result<(Seq<CheckView>, Option<BundleView>), Failure> {
    match decode_view(bytes) {
        Err(reason) => Err(Failure::UnparseableM8File { path: song_path, reason }),
        Ok(song) => if path_parent(song_path) is None || path_file_name(song_path) is None {
            Err(Failure::InvalidPath { reason: no_song_file() })
        } else {
            Ok(
                (
                    sample_files(root, path_parent(song_path)->Some_0, song.1),
                    plan_of_job(root, song_path, out_folder, song.0, song.1),
                ),
            )
        },
    }
}

/// Decodes a song file and plans its bundle under `out_folder`.
pub fn on_file_blob(backup_root: &str, song_path: &str, out_folder: &str, data: Vec<u8>) -> (r:
    Result<BundleJob, M8FstoErr>)
    ensures
        match r {
            Ok(job) => bundle_job(backup_root@, song_path@, out_folder@, data@) == Ok::<
                (Seq<CheckView>, Option<BundleView>),
                Failure,
            >((job.checks_view(), job.plan_view())) && job.data_view() == data@,
            Err(e) => bundle_job(backup_root@, song_path@, out_folder@, data@) == Err::<
                (Seq<CheckView>, Option<BundleView>),
                Failure,
            >(e@),
        },
{
    let song = match decode(&data) {
        Ok(song) => song,
        Err(reason) => {
            return Err(
                M8FstoErr::UnparseableM8File { path: String::from_str(song_path), reason },
            );
        },
    };
    let from_folder = match (parent(song_path), file_name(song_path)) {
        (Some(folder), Some(_)) => folder,
        _ => {
            return Err(
                M8FstoErr::InvalidPath {
                    reason: String::from_str("Song path does not name a file in a folder"),
                },
            );
        },
    };
    let checks = sample_checks(backup_root, from_folder.as_str(), &song.instruments);
    let plan = match plan_bundle(
        backup_root,
        song_path,
        out_folder,
        song.name.as_str(),
        &song.instruments,
    ) {
        Ok(plan) => Some(plan),
        Err(_) => None,
    };
    Ok(BundleJob { checks, plan, data })
}

/// The verdict of the verification pass: the failure for the first sample
/// file that was not found, in slot order, or none when all are there.
pub open spec fn missing(checks: Seq<CheckView>, present: Seq<bool>) -> Option<Failure> {
    match first_absent(present, checks.len() as int) {
        Some(i) => Some(
            Failure::MissingSample { instr: checks[i].slot as nat, path: checks[i].path },
        ),
        None => None,
    }
}

impl BundleJob {
    /// The value of the plan of the job, if it has one.
    pub closed spec fn plan_view(&self) -> Option<BundleView> {
        match self.plan {
            Some(plan) => Some(plan@),
            None => None,
        }
    }

    /// The values of the checks of the job.
    pub closed spec fn checks_view(&self) -> Seq<CheckView> {
        checks_of(self.checks@)
    }

    /// The bytes of the song file of the job.
    pub closed spec fn data_view(&self) -> Seq<u8> {
        self.data@
    }

    /// The sample files to look for on disk.
    pub fn checks(&self) -> (r: &Vec<SampleCheck>)
        ensures
            checks_of(r@) == self.checks_view(),
    {
        &self.checks
    }

    /// What the bundle will hold, for whoever wants to show it.
    pub fn plan(&self) -> (r: Option<&BundlePlan>)
        ensures
            match r {
                Some(plan) => self.plan_view() == Some(plan@),
                None => self.plan_view() is None,
            },
    {
        match &self.plan {
            Some(plan) => Some(plan),
            None => None,
        }
    }

    /// Judges the verification pass and starts the run if every sample file
    /// is there. `present[i]` says whether the file of `checks[i]` was found
    /// on disk. A missing sample is reported before anything else, and no run
    /// starts, so that nothing of the bundle is created. Where all samples
    /// are there and one of the references names no file, that is the
    /// failure, and no run starts either.
    pub fn approve(self, present: &Vec<bool>) -> (r: Result<BundleRun, M8FstoErr>)
        ensures
            match missing(self.checks_view(), present@) {
                Some(failure) => r matches Err(e) && e@ == failure,
                None => match self.plan_view() {
                    None => r matches Err(e) && e@ == (Failure::InvalidPath {
                        reason: no_sample_file(),
                    }),
                    Some(plan) => r matches Ok(run) && run.plan_view() == plan
                        && run.data_view() == self.data_view() && run.stage() == 0,
                },
            },
    {
        match missing_sample(&self.checks, present) {
            Some(e) => Err(e),
            None => match self.plan {
                None => Err(
                    M8FstoErr::InvalidPath {
                        reason: String::from_str("Sample path does not name a file"),
                    },
                ),
                Some(plan) => Ok(BundleRun { plan, data: self.data, stage: Stage::SongFolder }),
            },
        }
    }
}

/// One thing to do on disk for a bundle.
#[derive(Debug, Clone, PartialEq)]
pub enum BundleStep {
    /// Create a folder. It must not exist yet.
    CreateFolder { path: String },
    /// Copy a sample file into the bundle.
    CopyFile { from: String, to: String },
    /// Write the song file of the bundle.
    WriteSong { path: String, data: Vec<u8> },
    /// Nothing is left to do.
    Done,
}

/// The mathematical value of a `BundleStep`.
pub enum StepView {
    CreateFolder { path: Seq<char> },
    CopyFile { from: Seq<char>, to: Seq<char> },
    WriteSong { path: Seq<char>, data: Seq<u8> },
    Done,
}

impl View for BundleStep {
    type V = StepView;

    open spec fn view(&self) -> StepView {
        match *self {
            BundleStep::CreateFolder { path } => StepView::CreateFolder { path: path@ },
            BundleStep::CopyFile { from, to } => StepView::CopyFile { from: from@, to: to@ },
            BundleStep::WriteSong { path, data } => StepView::WriteSong {
                path: path@,
                data: data@,
            },
            BundleStep::Done => StepView::Done,
        }
    }
}

/// The stage at which a run is over: behind the two folders, the copies,
/// the song file and the word that nothing is left to do.
pub open spec fn end_stage(plan: BundleView) -> int {
    plan.copies.len() as int + 4
}

/// What a run does at a stage: first the folder of the bundle, then its
/// sample folder, then the copies in ascending slot order, then the song
/// file. The song is encoded only when its turn has come.
pub open spec fn step_at(plan: BundleView, data: Seq<u8>, stage: int) -> Result<
    StepView,
    Failure,
> {
    if stage <= 0 {
        Ok(StepView::CreateFolder { path: plan.song_folder })
    } else if stage == 1 {
        Ok(StepView::CreateFolder { path: plan.sample_folder })
    } else if stage < 2 + plan.copies.len() {
        Ok(StepView::CopyFile { from: plan.copies[stage - 2].from, to: plan.copies[stage - 2].to })
    } else if stage == 2 + plan.copies.len() {
        match encode_view(data, plan.slots) {
            Ok(bytes) => Ok(StepView::WriteSong { path: plan.song_file, data: bytes }),
            Err(reason) => Err(
                Failure::SongSerializationError {
                    destination: path_debug(plan.song_file),
                    reason,
                },
            ),
        }
    } else {
        Ok(StepView::Done)
    }
}

/// The failure to report when what was done at a stage did not succeed. A
/// folder that cannot be created is reported under the folder of the bundle,
/// whichever of the two it was.
pub open spec fn failure_at(plan: BundleView, stage: int, reason: Seq<char>) -> Failure {
    if stage <= 1 {
        Failure::FolderCreationError { path: plan.song_folder, reason }
    } else if stage < 2 + plan.copies.len() {
        Failure::SampleCopyError {
            path: plan.copies[stage - 2].from,
            to: plan.copies[stage - 2].to,
            reason,
        }
    } else {
        Failure::SongSerializationError { destination: path_debug(plan.song_file), reason }
    }
}

/// Whether the outcome `last` ends a run at the stage `stage`: something was
/// done just before, and it failed.
pub open spec fn ends_run(plan: BundleView, stage: int, last: Result<(), String>) -> bool {
    0 < stage < end_stage(plan) && last is Err
}

/// The bundling of one song, step by step. What is done on disk is done by
/// the caller; the run says what is next and judges how it went. Nothing that
/// was done is undone when a later step fails.
#[derive(Debug, Clone, PartialEq)]
pub struct BundleRun {
    plan: BundlePlan,
    data: Vec<u8>,
    stage: Stage,
}

/// What a run hands out next.
#[derive(Debug, Clone, Copy, PartialEq, Eq, Structural)]
enum Stage {
    SongFolder,
    SampleFolder,
    /// The copy at this position of the plan.
    Copy(usize),
    Song,
    /// The song file was handed out; how that went is still to be judged.
    Wrote,
    Over,
}

impl BundleRun {
    /// The value of the plan that the run carries out.
    pub closed spec fn plan_view(&self) -> BundleView {
        self.plan@
    }

    /// The bytes of the song file that is bundled.
    pub closed spec fn data_view(&self) -> Seq<u8> {
        self.data@
    }

    /// The number of steps handed out so far; once the run is over, the
    /// number of steps that a whole run has.
    pub closed spec fn stage(&self) -> int {
        match self.stage {
            Stage::SongFolder => 0,
            Stage::SampleFolder => 1,
            Stage::Copy(at) => if at < self.plan.copies@.len() {
                2 + at
            } else {
                end_stage(self.plan@)
            },
            Stage::Song => 2 + self.plan.copies@.len() as int,
            Stage::Wrote => 3 + self.plan.copies@.len() as int,
            Stage::Over => end_stage(self.plan@),
        }
    }

    /// The plan that the run carries out.
    pub fn plan(&self) -> (r: &BundlePlan)
        ensures
            r@ == self.plan_view(),
    {
        &self.plan
    }

    /// Judges the outcome of the step handed out last and hands out the next
    /// one. `last` is the outcome of that step: nothing, or the reason why it
    /// failed; before the first step it is not looked at. The first failure
    /// ends the run: it is reported with the paths it concerns, and no
    /// further step is handed out.
    pub fn next(&mut self, last: Result<(), String>) -> (r: Result<BundleStep, M8FstoErr>)
        ensures
            final(self).plan_view() == old(self).plan_view(),
            final(self).data_view() == old(self).data_view(),
            ends_run(old(self).plan_view(), old(self).stage(), last) ==> (r matches Err(e) && e@
                == failure_at(old(self).plan_view(), old(self).stage() - 1, last->Err_0@)),
            !ends_run(old(self).plan_view(), old(self).stage(), last) ==> match step_at(
                old(self).plan_view(),
                old(self).data_view(),
                old(self).stage(),
            ) {
                Ok(step) => r matches Ok(s) && s@ == step,
                Err(failure) => r matches Err(e) && e@ == failure,
            },
            r is Err ==> final(self).stage() >= end_stage(old(self).plan_view()),
            r is Ok ==> final(self).stage() == if old(self).stage() < end_stage(
                old(self).plan_view(),
            ) {
                old(self).stage() + 1
            } else {
                old(self).stage()
            },
    {
        let copies = self.plan.copies.len();
        let stage = self.stage;
        if let Err(reason) = last {
            match stage {
                Stage::SampleFolder => {
                    self.stage = Stage::Over;
                    return Err(self.plan.folder_failure(reason));
                },
                Stage::Copy(at) => {
                    if at < copies {
                        self.stage = Stage::Over;
                        return Err(
                            if at == 0 {
                                self.plan.folder_failure(reason)
                            } else {
                                self.plan.copies[at - 1].failure(reason)
                            },
                        );
                    }
                },
                Stage::Song => {
                    self.stage = Stage::Over;
                    return Err(
                        if copies == 0 {
                            self.plan.folder_failure(reason)
                        } else {
                            self.plan.copies[copies - 1].failure(reason)
                        },
                    );
                },
                Stage::Wrote => {
                    self.stage = Stage::Over;
                    return Err(self.plan.song_failure(reason));
                },
                Stage::Over => {},
                Stage::SongFolder => {},
            }
        }
        match stage {
            Stage::SongFolder => {
                self.stage = Stage::SampleFolder;
                Ok(BundleStep::CreateFolder { path: self.plan.song_folder.clone() })
            },
            Stage::SampleFolder => {
                self.stage = if copies > 0 {
                    Stage::Copy(0)
                } else {
                    Stage::Song
                };
                Ok(BundleStep::CreateFolder { path: self.plan.sample_folder.clone() })
            },
            Stage::Copy(at) => {
                if at < copies {
                    self.stage = if at + 1 < copies {
                        Stage::Copy(at + 1)
                    } else {
                        Stage::Song
                    };
                    Ok(
                        BundleStep::CopyFile {
                            from: self.plan.copies[at].from.clone(),
                            to: self.plan.copies[at].to.clone(),
                        },
                    )
                } else {
                    Ok(BundleStep::Done)
                }
            },
            Stage::Song => {
                match self.plan.song_bytes(self.data.clone()) {
                    Ok(bytes) => {
                        self.stage = Stage::Wrote;
                        Ok(
                            BundleStep::WriteSong {
                                path: self.plan.song_file.clone(),
                                data: bytes,
                            },
                        )
                    },
                    Err(e) => {
                        self.stage = Stage::Over;
                        Err(e)
                    },
                }
            },
            Stage::Wrote => {
                self.stage = Stage::Over;
                Ok(BundleStep::Done)
            },
            Stage::Over => Ok(BundleStep::Done),
        }
    }
}

/// The failure for the first sample file that was not found, in slot order.
pub fn missing_sample(checks: &Vec<SampleCheck>, present: &Vec<bool>) -> (r: Option<M8FstoErr>)
    ensures
        crate::types::aggregate_of(r) == missing(checks_of(checks@), present@),
{
    match first_missing(checks, present) {
        Some(i) => Some(
            M8FstoErr::MissingSample { instr: checks[i].slot, path: checks[i].path.clone() },
        ),
        None => None,
    }
}

impl BundlePlan {
    /// The failure to report when a folder of the bundle cannot be created,
    /// for instance because it exists already. It names the folder of the
    /// bundle, whichever of the two folders it was.
    pub fn folder_failure(&self, reason: String) -> (r: M8FstoErr)
        ensures
            r@ == (Failure::FolderCreationError { path: self.song_folder@, reason: reason@ }),
    {
        M8FstoErr::FolderCreationError { path: self.song_folder.clone(), reason }
    }

    /// The failure to report when the song of the bundle cannot be encoded or
    /// written.
    pub fn song_failure(&self, reason: String) -> (r: M8FstoErr)
        ensures
            r@ == (Failure::SongSerializationError {
                destination: path_debug(self.song_file@),
                reason: reason@,
            }),
    {
        M8FstoErr::SongSerializationError { destination: quoted(self.song_file.as_str()), reason }
    }

    /// The bytes of the song file of the bundle: the song that `data`
    /// decodes to, with the references of the plan in place of its own.
    pub fn song_bytes(&self, data: Vec<u8>) -> (r: Result<Vec<u8>, M8FstoErr>)
        ensures
            match encode_view(data@, self@.slots) {
                Ok(bytes) => r matches Ok(b) && b@ == bytes,
                Err(reason) => r matches Err(e) && e@ == (Failure::SongSerializationError {
                    destination: path_debug(self.song_file@),
                    reason,
                }),
            },
    {
        match encode(data, &self.instruments) {
            Ok(bytes) => Ok(bytes),
            Err(reason) => Err(self.song_failure(reason)),
        }
    }
}

/// The folder that bundles go to: the one asked for, or `Bundles` under the
/// backup root.
pub fn bundle_folder(cwd: &str, out_folder: &Option<String>) -> (r: String)
    ensures
        r@ == match *out_folder {
            Some(folder) => folder@,
            None => path_join(cwd@, "Bundles"@),
        },
{
    match out_folder {
        Some(folder) => folder.clone(),
        None => join(cwd, "Bundles"),
    }
}

} // verus!
