use crate::paths::{
    checks_of, is_present, join, parent, path_debug, path_join, path_parent, quoted,
    sample_checks, sample_files, CheckView, SampleCheck,
};
use crate::song::{decode, decode_view};
use crate::text::{decimal, decimal_string, ends_with, same_text, texts_of};
use crate::types::{failures_of, Failure, M8FstoErr};
use vstd::prelude::*;
use vstd::string::*;

verus! {

/// A sample that a song refers to and that is not on disk, with the slots of
/// the samplers that refer to it.
#[derive(Debug, Clone, PartialEq)]
pub struct BrokenSample {
    pub sample_path: String,
    pub instruments: Vec<usize>,
}

/// The mathematical value of a `BrokenSample`.
pub struct BrokenView {
    pub sample_path: Seq<char>,
    pub instruments: Seq<usize>,
}

impl View for BrokenSample {
    type V = BrokenView;

    open spec fn view(&self) -> BrokenView {
        BrokenView { sample_path: self.sample_path@, instruments: self.instruments@ }
    }
}

/// The values of a list of broken samples.
pub open spec fn broken_of(list: Seq<BrokenSample>) -> Seq<BrokenView> {
    Seq::new(list.len(), |i: int| list[i]@)
}

/// The position, among the first `upto` entries of a report, of the entry for
/// a reference.
pub open spec fn entry_for(report: Seq<BrokenView>, reference: Seq<char>, upto: int) -> Option<
    int,
>
    decreases upto,
{
    if upto <= 0 {
        None
    } else {
        match entry_for(report, reference, upto - 1) {
            Some(at) => Some(at),
            None => if report[upto - 1].sample_path == reference {
                Some(upto - 1)
            } else {
                None
            },
        }
    }
}

/// A report with one more missing sample taken in: the slot joins the entry
/// of its reference, or opens a new entry behind the others.
pub open spec fn report_with(report: Seq<BrokenView>, reference: Seq<char>, slot: usize) -> Seq<
    BrokenView,
> {
    match entry_for(report, reference, report.len() as int) {
        Some(at) => report.update(
            at,
            BrokenView { sample_path: reference, instruments: report[at].instruments.push(slot) },
        ),
        None => report.push(BrokenView { sample_path: reference, instruments: seq![slot] }),
    }
}

/// The report for the first `upto` checks: the references whose files are
/// missing, in the order in which they are first met, each with the slots
/// that use it in ascending order.
pub open spec fn report_upto(checks: Seq<CheckView>, present: Seq<bool>, upto: int) -> Seq<
    BrokenView,
>
    decreases upto,
{
    if upto <= 0 {
        Seq::empty()
    } else if is_present(present, upto - 1) {
        report_upto(checks, present, upto - 1)
    } else {
        report_with(
            report_upto(checks, present, upto - 1),
            checks[upto - 1].reference,
            checks[upto - 1].slot as usize,
        )
    }
}

/// Once the entry for a reference was found, looking further changes nothing.
pub proof fn lemma_entry_stays(
    report: Seq<BrokenView>,
    reference: Seq<char>,
    upto: int,
    further: int,
)
    requires
        upto <= further,
        entry_for(report, reference, upto) is Some,
    ensures
        entry_for(report, reference, further) == entry_for(report, reference, upto),
    decreases further - upto,
{
    if upto < further {
        lemma_entry_stays(report, reference, upto, further - 1);
    }
}

/// The entry found for a reference lies in the report and carries it.
pub proof fn lemma_entry_for(report: Seq<BrokenView>, reference: Seq<char>, upto: int)
    requires
        upto <= report.len(),
    ensures
        entry_for(report, reference, upto) matches Some(at) ==> 0 <= at < upto
            && report[at].sample_path == reference,
    decreases upto,
{
    if upto > 0 {
        lemma_entry_for(report, reference, upto - 1);
    }
}

/// Where no entry was found for a reference, no entry carries it.
pub proof fn lemma_no_entry(report: Seq<BrokenView>, reference: Seq<char>, upto: int)
    requires
        upto <= report.len(),
        entry_for(report, reference, upto) is None,
    ensures
        forall|g: int| 0 <= g < upto ==> (#[trigger] report[g]).sample_path != reference,
    decreases upto,
{
    if upto > 0 {
        lemma_no_entry(report, reference, upto - 1);
    }
}

/// The slots of the samplers, among the first `upto` checks, whose file is
/// missing and whose reference is `reference`, in ascending order.
pub open spec fn slots_missing(
    checks: Seq<CheckView>,
    present: Seq<bool>,
    reference: Seq<char>,
    upto: int,
) -> Seq<usize>
    decreases upto,
{
    if upto <= 0 {
        Seq::empty()
    } else if !is_present(present, upto - 1) && checks[upto - 1].reference == reference {
        slots_missing(checks, present, reference, upto - 1).push(checks[upto - 1].slot as usize)
    } else {
        slots_missing(checks, present, reference, upto - 1)
    }
}

/// Whether check `i` is among the first `upto`, misses its file and carries
/// `reference`.
pub open spec fn misses(
    checks: Seq<CheckView>,
    present: Seq<bool>,
    reference: Seq<char>,
    upto: int,
    i: int,
) -> bool {
    0 <= i < upto && !is_present(present, i) && checks[i].reference == reference
}

/// A report says exactly what is missing: each entry lists all the slots
/// that miss its reference and at least one, no two entries carry the same
/// reference, and every missing reference has its entry.
pub open spec fn is_exact(
    report: Seq<BrokenView>,
    checks: Seq<CheckView>,
    present: Seq<bool>,
    upto: int,
) -> bool {
    &&& forall|g: int|
        0 <= g < report.len() ==> (#[trigger] report[g]).instruments == slots_missing(
            checks,
            present,
            report[g].sample_path,
            upto,
        ) && report[g].instruments.len() > 0
    &&& forall|g: int, h: int|
        0 <= g < h < report.len() ==> (#[trigger] report[g]).sample_path != (
        #[trigger] report[h]).sample_path
    &&& forall|reference: Seq<char>, i: int| #[trigger]
        misses(checks, present, reference, upto, i) ==> entry_for(
            report,
            reference,
            report.len() as int,
        ) is Some
}

/// A reference that no check misses has no slots.
pub proof fn lemma_nothing_missing(
    checks: Seq<CheckView>,
    present: Seq<bool>,
    reference: Seq<char>,
    upto: int,
)
    requires
        forall|i: int| !#[trigger] misses(checks, present, reference, upto, i),
    ensures
        slots_missing(checks, present, reference, upto) == Seq::<usize>::empty(),
    decreases upto,
{
    if upto > 0 {
        let shorter = upto - 1;
        assert forall|i: int| !#[trigger] misses(checks, present, reference, shorter, i) by {
            assert(!misses(checks, present, reference, upto, i));
        }
        assert(!misses(checks, present, reference, upto, shorter));
        lemma_nothing_missing(checks, present, reference, shorter);
    }
}

/// The entry for a reference is found in a report that has one.
pub proof fn lemma_entry_found(report: Seq<BrokenView>, reference: Seq<char>, at: int, upto: int)
    requires
        0 <= at < upto <= report.len(),
        report[at].sample_path == reference,
    ensures
        entry_for(report, reference, upto) is Some,
    decreases upto,
{
    if at < upto - 1 {
        lemma_entry_found(report, reference, at, upto - 1);
    }
}

/// The report of a song is exact.
pub proof fn lemma_report_is_exact(checks: Seq<CheckView>, present: Seq<bool>, upto: int)
    requires
        0 <= upto,
    ensures
        is_exact(report_upto(checks, present, upto), checks, present, upto),
    decreases upto,
{
    if upto > 0 {
        let i = upto - 1;
        lemma_report_is_exact(checks, present, i);
        let before = report_upto(checks, present, i);
        let now = report_upto(checks, present, upto);
        if is_present(present, i) {
            assert forall|reference: Seq<char>, j: int| #[trigger]
                misses(checks, present, reference, upto, j) implies entry_for(
                now,
                reference,
                now.len() as int,
            ) is Some by {
                assert(misses(checks, present, reference, i, j));
            }
        } else {
            let r = checks[i].reference;
            match entry_for(before, r, before.len() as int) {
                Some(at) => {
                    lemma_entry_for(before, r, before.len() as int);
                    assert forall|reference: Seq<char>, j: int| #[trigger]
                        misses(checks, present, reference, upto, j) implies entry_for(
                        now,
                        reference,
                        now.len() as int,
                    ) is Some by {
                        if j < i {
                            assert(misses(checks, present, reference, i, j));
                            lemma_entry_for(before, reference, before.len() as int);
                            let found = entry_for(before, reference, before.len() as int)->Some_0;
                            lemma_entry_found(now, reference, found, now.len() as int);
                        } else {
                            lemma_entry_found(now, reference, at, now.len() as int);
                        }
                    }
                },
                None => {
                    lemma_no_entry(before, r, before.len() as int);
                    lemma_nothing_missing(checks, present, r, i);
                    assert forall|reference: Seq<char>, j: int| #[trigger]
                        misses(checks, present, reference, upto, j) implies entry_for(
                        now,
                        reference,
                        now.len() as int,
                    ) is Some by {
                        if j < i {
                            assert(misses(checks, present, reference, i, j));
                            lemma_entry_for(before, reference, before.len() as int);
                            let found = entry_for(before, reference, before.len() as int)->Some_0;
                            lemma_entry_found(now, reference, found, now.len() as int);
                        } else {
                            lemma_entry_found(
                                now,
                                reference,
                                before.len() as int,
                                now.len() as int,
                            );
                        }
                    }
                },
            }
        }
    }
}

/// The position of the entry for `reference` in a report.
fn find_entry(report: &Vec<BrokenSample>, reference: &str) -> (r: Option<usize>)
    ensures
        match r {
            Some(at) => entry_for(broken_of(report@), reference@, report@.len() as int) == Some(
                at as int,
            ) && at < report@.len(),
            None => entry_for(broken_of(report@), reference@, report@.len() as int) is None,
        },
{
    let mut i: usize = 0;
    while i < report.len()
        invariant
            i <= report.len(),
            entry_for(broken_of(report@), reference@, i as int) is None,
        decreases report.len() - i,
    {
        if same_text(report[i].sample_path.as_str(), reference) {
            proof {
                lemma_entry_stays(broken_of(report@), reference@, i + 1, report@.len() as int);
            }
            return Some(i);
        }
        i = i + 1;
    }
    None
}

/// Groups the missing samples of a song by their reference. `present[i]`
/// says whether the file of `checks[i]` was found on disk; a check without an
/// answer counts as missing.
pub fn broken_samples(checks: &Vec<SampleCheck>, present: &Vec<bool>) -> (r: Vec<BrokenSample>)
    ensures
        broken_of(r@) == report_upto(checks_of(checks@), present@, checks@.len() as int),
{
    let mut report: Vec<BrokenSample> = Vec::new();
    let mut i: usize = 0;
    while i < checks.len()
        invariant
            i <= checks.len(),
            broken_of(report@) == report_upto(checks_of(checks@), present@, i as int),
        decreases checks.len() - i,
    {
        let ghost before = broken_of(report@);
        if i >= present.len() || !present[i] {
            let check = &checks[i];
            match find_entry(&report, check.reference.as_str()) {
                Some(at) => {
                    let mut entry = report.remove(at);
                    entry.instruments.push(check.slot);
                    report.insert(at, entry);
                    assert(broken_of(report@) =~= before.update(
                        at as int,
                        BrokenView {
                            sample_path: check.reference@,
                            instruments: before[at as int].instruments.push(check.slot),
                        },
                    )) by {
                        lemma_entry_for(before, check.reference@, before.len() as int);
                    }
                },
                None => {
                    let mut slots: Vec<usize> = Vec::new();
                    slots.push(check.slot);
                    report.push(
                        BrokenSample { sample_path: check.reference.clone(), instruments: slots },
                    );
                },
            }
        }
        i = i + 1;
    }
    report
}

/// The slots of a report line, each followed by a comma and a space.
pub open spec fn slot_list(slots: Seq<usize>, upto: int) -> Seq<char>
    decreases upto,
{
    if upto <= 0 {
        Seq::empty()
    } else {
        slot_list(slots, upto - 1) + decimal(slots[upto - 1] as nat) + ", "@
    }
}

/// The line that reports one broken sample.
pub open spec fn broken_line(entry: BrokenView) -> Seq<char> {
    " * '"@ + entry.sample_path + "' in instruments ["@ + slot_list(
        entry.instruments,
        entry.instruments.len() as int,
    ) + "]"@
}

/// The line that heads the report of one song.
pub open spec fn broken_heading(song_path: Seq<char>) -> Seq<char> {
    "== Broken song "@ + path_debug(song_path)
}

impl BrokenSample {
    /// The line of the report for this sample.
    pub fn line(&self) -> (r: String)
        ensures
            r@ == broken_line(self@),
    {
        let mut out = String::from_str(" * '");
        out.append(self.sample_path.as_str());
        out.append("' in instruments [");
        let ghost head = out@;
        let mut i: usize = 0;
        while i < self.instruments.len()
            invariant
                i <= self.instruments.len(),
                out@ == head + slot_list(self.instruments@, i as int),
            decreases self.instruments.len() - i,
        {
            out.append(decimal_string(self.instruments[i]).as_str());
            out.append(", ");
            i = i + 1;
        }
        out.append("]");
        out
    }
}

/// The heading of the report of the song at `song_path`.
pub fn heading(song_path: &str) -> (r: String)
    ensures
        r@ == broken_heading(song_path@),
{
    let mut out = String::from_str("== Broken song ");
    out.append(quoted(song_path).as_str());
    out
}

/// The reason given for a song path that lies in no folder.
pub open spec fn no_folder() -> Seq<char> {
    "Song path has no parent folder"@
}

/// What `on_file_blob` answers for the bytes of a song file: the sample files
/// to look for, or the failure. A song path that lies in no folder leaves no
/// place to resolve against and is refused.
pub open spec fn search_job(cwd: Seq<char>, path: Seq<char>, bytes: Seq<u8>) -> Result<
    Seq<CheckView>,
    Failure,
> {
    match decode_view(bytes) {
        Err(reason) => Err(Failure::UnparseableM8File { path, reason }),
        Ok(song) => match path_parent(path) {
            None => Err(Failure::InvalidPath { reason: no_folder() }),
            Some(folder) => Ok(sample_files(cwd, folder, song.1)),
        },
    }
}

/// Decodes a song file and resolves the references of its samplers.
pub fn on_file_blob(cwd: &str, path: &str, data: &Vec<u8>) -> (r: Result<
    Vec<SampleCheck>,
    M8FstoErr,
>)
    ensures
        match r {
            Ok(checks) => search_job(cwd@, path@, data@) == Ok::<Seq<CheckView>, Failure>(
                checks_of(checks@),
            ),
            Err(e) => search_job(cwd@, path@, data@) == Err::<Seq<CheckView>, Failure>(e@),
        },
{
    let song = match decode(data) {
        Ok(song) => song,
        Err(reason) => {
            return Err(M8FstoErr::UnparseableM8File { path: String::from_str(path), reason });
        },
    };
    match parent(path) {
        Some(folder) => Ok(sample_checks(cwd, folder.as_str(), &song.instruments)),
        None => Err(
            M8FstoErr::InvalidPath { reason: String::from_str("Song path has no parent folder") },
        ),
    }
}

/// What is found on disk at a path given to the search.
#[derive(Debug, Clone, Copy, PartialEq, Eq, Structural)]
pub enum PathKind {
    Directory,
    File,
    /// Nothing, or something that is neither a folder nor a plain file.
    Other,
}

/// What the search does with a path.
#[derive(Debug, Clone, Copy, PartialEq, Eq, Structural)]
pub enum Target {
    /// A folder: every song under it is searched.
    Root,
    /// A song file: it is searched.
    Song,
    /// Anything else: it is reported and passed over.
    Invalid,
}

/// The kind found for path `i`; a path without an answer counts as `Other`.
pub open spec fn kind_at(kinds: Seq<PathKind>, i: int) -> PathKind {
    if 0 <= i < kinds.len() {
        kinds[i]
    } else {
        PathKind::Other
    }
}

/// What the search does with a path of a given kind: a folder is a root, a
/// plain file whose name ends in `.m8s` is a song.
pub open spec fn target_of(path: Seq<char>, kind: PathKind) -> Target {
    if kind == PathKind::Directory {
        Target::Root
    } else if kind == PathKind::File && ".m8s"@.is_suffix_of(path) {
        Target::Song
    } else {
        Target::Invalid
    }
}

/// The paths among the first `upto` that the search treats as `target`.
pub open spec fn targets_upto(
    paths: Seq<Seq<char>>,
    kinds: Seq<PathKind>,
    target: Target,
    upto: int,
) -> Seq<Seq<char>>
    decreases upto,
{
    if upto <= 0 {
        Seq::empty()
    } else if target_of(paths[upto - 1], kind_at(kinds, upto - 1)) == target {
        targets_upto(paths, kinds, target, upto - 1).push(paths[upto - 1])
    } else {
        targets_upto(paths, kinds, target, upto - 1)
    }
}

/// What a search goes through.
#[derive(Debug, PartialEq)]
pub struct SearchPlan {
    /// The folders to search.
    pub roots: Vec<String>,
    /// The song files to search.
    pub songs: Vec<String>,
    /// The paths that are neither, each reported as a failure.
    pub errors: Vec<M8FstoErr>,
}

/// The failures for a list of paths that cannot be searched.
pub open spec fn rejected(paths: Seq<Seq<char>>) -> Seq<Failure> {
    Seq::new(paths.len(), |i: int| Failure::InvalidSearchPattern { pattern: paths[i] })
}

/// The folders that a search goes through: the backup root where no path
/// was given, else the folders among the paths.
pub open spec fn search_roots(cwd: Seq<char>, paths: Seq<Seq<char>>, kinds: Seq<PathKind>)
    -> Seq<Seq<char>> {
    if paths.len() == 0 {
        seq![cwd]
    } else {
        targets_upto(paths, kinds, Target::Root, paths.len() as int)
    }
}

/// Sorts the paths given to a search into folders, song files and the rest.
/// `kinds[i]` says what was found on disk at `paths[i]`.
pub fn search_plan(cwd: &str, paths: &Vec<String>, kinds: &Vec<PathKind>) -> (r: SearchPlan)
    ensures
        texts_of(r.roots@) == search_roots(cwd@, texts_of(paths@), kinds@),
        texts_of(r.songs@) == targets_upto(
            texts_of(paths@),
            kinds@,
            Target::Song,
            paths@.len() as int,
        ),
        failures_of(r.errors@) == rejected(
            targets_upto(texts_of(paths@), kinds@, Target::Invalid, paths@.len() as int),
        ),
{
    let mut roots: Vec<String> = Vec::new();
    let mut songs: Vec<String> = Vec::new();
    let mut errors: Vec<M8FstoErr> = Vec::new();
    let ghost all = texts_of(paths@);
    if paths.len() == 0 {
        roots.push(String::from_str(cwd));
    }
    let ghost first_roots = texts_of(roots@);
    let mut i: usize = 0;
    while i < paths.len()
        invariant
            i <= paths.len(),
            all == texts_of(paths@),
            texts_of(roots@) == first_roots + targets_upto(all, kinds@, Target::Root, i as int),
            texts_of(songs@) == targets_upto(all, kinds@, Target::Song, i as int),
            failures_of(errors@) == rejected(
                targets_upto(all, kinds@, Target::Invalid, i as int),
            ),
        decreases paths.len() - i,
    {
        let ghost roots_before = texts_of(roots@);
        let ghost errors_before = failures_of(errors@);
        let kind = if i < kinds.len() {
            kinds[i]
        } else {
            PathKind::Other
        };
        if kind == PathKind::Directory {
            roots.push(paths[i].clone());
            assert(texts_of(roots@) =~= roots_before.push(all[i as int]));
        } else if kind == PathKind::File && ends_with(paths[i].as_str(), ".m8s") {
            songs.push(paths[i].clone());
        } else {
            errors.push(M8FstoErr::InvalidSearchPattern { pattern: paths[i].clone() });
            proof {
                let failure = Failure::InvalidSearchPattern { pattern: all[i as int] };
                assert(failures_of(errors@) =~= errors_before.push(failure));
            }
        }
        i = i + 1;
    }
    SearchPlan { roots, songs, errors }
}

/// The pattern that finds every song file under a folder.
pub fn song_pattern(cwd: &str) -> (r: String)
    ensures
        r@ == path_join(path_join(cwd@, "**"@), "*.m8s"@),
{
    join(join(cwd, "**").as_str(), "*.m8s")
}

} // verus!
