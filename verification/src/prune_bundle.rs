use crate::paths::{
    has_sample, join, parent, path_join, path_parent, path_strip_prefix, strip_base,
};
use crate::song::{decode, decode_view, slots_of, Instrument, Slot};
use crate::text::{contains_text, forward_slashes, slashed, texts_of};
use crate::types::{collapse, collapsed, failures_of, verdict_of, Failure, M8FstoErr};
use vstd::prelude::*;
use vstd::string::*;

verus! {

/// Whether slot `i` holds a sampler whose sample is addressed from the backup
/// root. Inside a bundle there may be none: a bundle holds all its samples.
pub open spec fn is_outside(slots: Seq<Slot>, i: int) -> bool {
    has_sample(slots, i) && slots[i]->sample_path[0] == '/'
}

/// The first slot, among the first `upto`, whose sample lies outside.
pub open spec fn first_outside(slots: Seq<Slot>, upto: int) -> Option<int>
    decreases upto,
{
    if upto <= 0 {
        None
    } else {
        match first_outside(slots, upto - 1) {
            Some(slot) => Some(slot),
            None => if is_outside(slots, upto - 1) {
                Some(upto - 1)
            } else {
                None
            },
        }
    }
}

/// The references of the first `upto` slots that have a sample assigned, in
/// ascending slot order.
pub open spec fn references_upto(slots: Seq<Slot>, upto: int) -> Seq<Seq<char>>
    decreases upto,
{
    if upto <= 0 {
        Seq::empty()
    } else if has_sample(slots, upto - 1) {
        references_upto(slots, upto - 1).push(slots[upto - 1]->sample_path)
    } else {
        references_upto(slots, upto - 1)
    }
}

/// The samples that a bundled song refers to, or the failure for the first
/// sampler whose sample lies outside the bundle.
pub open spec fn referenced(slots: Seq<Slot>) -> Result<Seq<Seq<char>>, Failure> {
    match first_outside(slots, slots.len() as int) {
        Some(slot) => Err(
            Failure::SampleInBundleNotRelative {
                sample_path: slots[slot]->sample_path,
                instrument: slot as nat,
            },
        ),
        None => Ok(references_upto(slots, slots.len() as int)),
    }
}

/// Once a sample outside was found, looking further changes nothing.
pub proof fn lemma_first_outside_stays(slots: Seq<Slot>, upto: int, further: int)
    requires
        upto <= further,
        first_outside(slots, upto) is Some,
    ensures
        first_outside(slots, further) == first_outside(slots, upto),
    decreases further - upto,
{
    if upto < further {
        lemma_first_outside_stays(slots, upto, further - 1);
    }
}

/// Gathers the references of a bundled song. Every one of them must be
/// relative to the song; a sampler without a sample is passed over.
pub fn referenced_samples(instruments: &Vec<Instrument>) -> (r: Result<Vec<String>, M8FstoErr>)
    ensures
        match r {
            Ok(list) => referenced(slots_of(instruments@)) == Ok::<Seq<Seq<char>>, Failure>(
                texts_of(list@),
            ),
            Err(e) => referenced(slots_of(instruments@)) == Err::<Seq<Seq<char>>, Failure>(e@),
        },
{
    let ghost slots = slots_of(instruments@);
    let mut list: Vec<String> = Vec::new();
    let mut i: usize = 0;
    while i < instruments.len()
        invariant
            i <= instruments.len(),
            slots == slots_of(instruments@),
            first_outside(slots, i as int) is None,
            texts_of(list@) == references_upto(slots, i as int),
        decreases instruments.len() - i,
    {
        match &instruments[i] {
            Instrument::Sampler { sample_path, .. } => {
                if sample_path.as_str().unicode_len() > 0 {
                    if sample_path.as_str().get_char(0) == '/' {
                        proof {
                            lemma_first_outside_stays(slots, i + 1, slots.len() as int);
                        }
                        return Err(
                            M8FstoErr::SampleInBundleNotRelative {
                                sample_path: sample_path.clone(),
                                instrument: i,
                            },
                        );
                    }
                    list.push(sample_path.clone());
                }
            },
            _ => {},
        }
        i = i + 1;
    }
    Ok(list)
}

/// The reference under which a song would address a file of its bundle: what
/// is left of the file's path behind the folder of the song, written with
/// forward slashes. There is none for a file outside that folder.
pub open spec fn reference_in_song(song_folder: Seq<char>, file: Seq<char>) -> Option<Seq<char>> {
    match path_strip_prefix(file, song_folder) {
        Some(rest) => Some(slashed(rest)),
        None => None,
    }
}

/// Whether a file found in the sample folder is to be removed: it lies in the
/// folder of the song and no sampler refers to it.
pub open spec fn is_orphan(song_folder: Seq<char>, referenced: Seq<Seq<char>>, file: Seq<char>)
    -> bool {
    reference_in_song(song_folder, file) matches Some(reference) && !referenced.contains(
        reference,
    )
}

/// The orphans among the first `upto` files, in the order of the listing.
pub open spec fn orphans_upto(
    song_folder: Seq<char>,
    referenced: Seq<Seq<char>>,
    files: Seq<Seq<char>>,
    upto: int,
) -> Seq<Seq<char>>
    decreases upto,
{
    if upto <= 0 {
        Seq::empty()
    } else if is_orphan(song_folder, referenced, files[upto - 1]) {
        orphans_upto(song_folder, referenced, files, upto - 1).push(files[upto - 1])
    } else {
        orphans_upto(song_folder, referenced, files, upto - 1)
    }
}

/// What is known of a bundle before its sample folder is listed.
#[derive(Debug, Clone, PartialEq)]
pub struct PruneJob {
    /// The folder of the song.
    pub song_folder: String,
    /// The sample folder of the bundle, to list.
    pub sample_folder: String,
    /// The references of the song.
    pub referenced: Vec<String>,
}

/// The mathematical value of a `PruneJob`.
pub struct PruneView {
    pub song_folder: Seq<char>,
    pub sample_folder: Seq<char>,
    pub referenced: Seq<Seq<char>>,
}

impl View for PruneJob {
    type V = PruneView;

    open spec fn view(&self) -> PruneView {
        PruneView {
            song_folder: self.song_folder@,
            sample_folder: self.sample_folder@,
            referenced: texts_of(self.referenced@),
        }
    }
}

/// The reason given for a song path that lies in no folder.
pub open spec fn no_folder() -> Seq<char> {
    "Song path has no parent folder"@
}

/// What `on_file_blob` answers for the bytes of the song file of a bundle.
pub open spec fn prune_job(song_path: Seq<char>, bytes: Seq<u8>) -> Result<PruneView, Failure> {
    match decode_view(bytes) {
        Err(reason) => Err(Failure::UnparseableM8File { path: song_path, reason }),
        Ok(song) => match referenced(song.1) {
            Err(failure) => Err(failure),
            Ok(list) => match path_parent(song_path) {
                None => Err(Failure::InvalidPath { reason: no_folder() }),
                Some(folder) => Ok(
                    PruneView {
                        song_folder: folder,
                        sample_folder: path_join(folder, "Samples"@),
                        referenced: list,
                    },
                ),
            },
        },
    }
}

/// Decodes the song of a bundle and gathers what it refers to.
pub fn on_file_blob(song_path: &str, data: &Vec<u8>) -> (r: Result<PruneJob, M8FstoErr>)
    ensures
        match r {
            Ok(job) => prune_job(song_path@, data@) == Ok::<PruneView, Failure>(job@),
            Err(e) => prune_job(song_path@, data@) == Err::<PruneView, Failure>(e@),
        },
{
    let song = match decode(data) {
        Ok(song) => song,
        Err(reason) => {
            return Err(
                M8FstoErr::UnparseableM8File { path: String::from_str(song_path), reason },
            );
        },
    };
    let referenced = match referenced_samples(&song.instruments) {
        Ok(list) => list,
        Err(e) => {
            return Err(e);
        },
    };
    match parent(song_path) {
        None => Err(
            M8FstoErr::InvalidPath { reason: String::from_str("Song path has no parent folder") },
        ),
        Some(song_folder) => {
            let sample_folder = join(song_folder.as_str(), "Samples");
            Ok(PruneJob { song_folder, sample_folder, referenced })
        },
    }
}

impl PruneJob {
    /// The files to remove: those of the listing that no sampler refers to,
    /// in the order of the listing. `files` is what was found in the sample
    /// folder.
    pub fn candidates(&self, files: &Vec<String>) -> (r: Vec<String>)
        ensures
            texts_of(r@) == orphans_upto(
                self@.song_folder,
                self@.referenced,
                texts_of(files@),
                files@.len() as int,
            ),
    {
        let mut orphans: Vec<String> = Vec::new();
        let mut i: usize = 0;
        while i < files.len()
            invariant
                i <= files.len(),
                texts_of(orphans@) == orphans_upto(
                    self@.song_folder,
                    self@.referenced,
                    texts_of(files@),
                    i as int,
                ),
            decreases files.len() - i,
        {
            match strip_base(files[i].as_str(), self.song_folder.as_str()) {
                None => {},
                Some(rest) => {
                    let reference = forward_slashes(rest.as_str());
                    if !contains_text(&self.referenced, reference.as_str()) {
                        orphans.push(files[i].clone());
                    }
                },
            }
            i = i + 1;
        }
        orphans
    }
}

/// What a prune does once the files to remove are known.
#[derive(Debug, Clone, Copy, PartialEq, Eq, Structural)]
pub enum PruneAction {
    /// Nothing is to remove: the sample folder is clean.
    Clean,
    /// The files to remove are listed and left alone.
    Report,
    /// The files to remove are removed.
    Remove,
}

/// Decides what a prune does with `count` files to remove. A clean folder is
/// reported as clean whether or not this is a dry run.
pub fn prune_action(dry_run: bool, count: usize) -> (r: PruneAction)
    ensures
        r == if count == 0 {
            PruneAction::Clean
        } else if dry_run {
            PruneAction::Report
        } else {
            PruneAction::Remove
        },
{
    if count == 0 {
        PruneAction::Clean
    } else if dry_run {
        PruneAction::Report
    } else {
        PruneAction::Remove
    }
}

/// The reason why the removal of file `i` failed, if it did. A file without
/// an answer counts as removed.
pub open spec fn removal_failed(outcomes: Seq<Option<String>>, i: int) -> bool {
    0 <= i < outcomes.len() && outcomes[i] is Some
}

/// The failures among the first `upto` removals, in the order of the files.
pub open spec fn removal_failures(
    files: Seq<Seq<char>>,
    outcomes: Seq<Option<String>>,
    upto: int,
) -> Seq<Failure>
    decreases upto,
{
    if upto <= 0 {
        Seq::empty()
    } else if removal_failed(outcomes, upto - 1) {
        removal_failures(files, outcomes, upto - 1).push(
            Failure::FileRemovalFailure {
                path: files[upto - 1],
                reason: outcomes[upto - 1]->Some_0@,
            },
        )
    } else {
        removal_failures(files, outcomes, upto - 1)
    }
}

/// The result of the removals: every file is tried, and the failures are
/// gathered. `outcomes[i]` holds the reason why `files[i]` could not be
/// removed, or nothing where it was removed.
pub fn removal_result(files: &Vec<String>, outcomes: &Vec<Option<String>>) -> (r: Result<
    (),
    M8FstoErr,
>)
    ensures
        verdict_of(r) == collapsed(
            removal_failures(texts_of(files@), outcomes@, files@.len() as int),
        ),
{
    let mut errors: Vec<M8FstoErr> = Vec::new();
    let mut i: usize = 0;
    while i < files.len()
        invariant
            i <= files.len(),
            failures_of(errors@) == removal_failures(texts_of(files@), outcomes@, i as int),
        decreases files.len() - i,
    {
        if i < outcomes.len() {
            match &outcomes[i] {
                Some(reason) => {
                    errors.push(
                        M8FstoErr::FileRemovalFailure {
                            path: files[i].clone(),
                            reason: reason.clone(),
                        },
                    );
                },
                None => {},
            }
        }
        i = i + 1;
    }
    collapse(errors)
}

/// Whether `file` is one of the first `upto` files of a listing.
pub open spec fn is_listed(files: Seq<Seq<char>>, upto: int, file: Seq<char>) -> bool {
    exists|w: int| 0 <= w < upto && w < files.len() && #[trigger] files[w] == file
}

/// The files to remove are exactly the orphans of the listing: each of them
/// was listed, lies under the folder of the song and is referred to by no
/// sampler, and no orphan of the listing is left out.
pub proof fn lemma_orphans_are_unreferenced(
    song_folder: Seq<char>,
    referenced: Seq<Seq<char>>,
    files: Seq<Seq<char>>,
    upto: int,
)
    requires
        0 <= upto <= files.len(),
    ensures
        forall|k: int|
            0 <= k < orphans_upto(song_folder, referenced, files, upto).len() ==> is_orphan(
                song_folder,
                referenced,
                #[trigger] orphans_upto(song_folder, referenced, files, upto)[k],
            ) && is_listed(files, upto, orphans_upto(song_folder, referenced, files, upto)[k]),
        forall|i: int|
            0 <= i < upto && is_orphan(song_folder, referenced, #[trigger] files[i])
                ==> orphans_upto(song_folder, referenced, files, upto).contains(files[i]),
    decreases upto,
{
    if upto > 0 {
        lemma_orphans_are_unreferenced(song_folder, referenced, files, upto - 1);
        let before = orphans_upto(song_folder, referenced, files, upto - 1);
        let now = orphans_upto(song_folder, referenced, files, upto);
        assert forall|i: int|
            0 <= i < upto && is_orphan(
                song_folder,
                referenced,
                #[trigger] files[i],
            ) implies now.contains(files[i]) by {
            if i < upto - 1 {
                let w = choose|w: int| 0 <= w < before.len() && before[w] == files[i];
                assert(now[w] == files[i]);
            } else {
                assert(now[now.len() - 1] == files[i]);
            }
        }
    }
}

} // verus!
