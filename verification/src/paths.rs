use crate::song::{slots_of, Instrument, Slot};
use std::path::Component;
use std::path::Path;
use vstd::prelude::*;
use vstd::string::*;

verus! {

/// What `Path::join` of std makes of a base path and a path to adjoin, both
/// as text, on the platform the library is built for.
pub uninterp spec fn path_join(base: Seq<char>, rel: Seq<char>) -> Seq<char>;

/// What `Path::parent` of std answers for a path.
pub uninterp spec fn path_parent(path: Seq<char>) -> Option<Seq<char>>;

/// What `Path::file_name` of std answers for a path.
pub uninterp spec fn path_file_name(path: Seq<char>) -> Option<Seq<char>>;

/// What `Path::strip_prefix` of std leaves of `path` behind `base`; nothing
/// where `base` is not a prefix of it.
pub uninterp spec fn path_strip_prefix(path: Seq<char>, base: Seq<char>) -> Option<Seq<char>>;

/// What `Path::is_relative` of std answers for a path.
pub uninterp spec fn path_is_relative(path: Seq<char>) -> bool;

/// The components that `Path::components` of std walks through for a path.
pub uninterp spec fn path_parts(path: Seq<char>) -> Seq<Part>;

/// How the `Debug` formatting of std writes a path: between double quotes,
/// with its special characters escaped.
pub uninterp spec fn path_debug(path: Seq<char>) -> Seq<char>;

/// One component of a path, with the text it was written as.
#[derive(Debug, Clone, PartialEq)]
pub enum PathPart {
    Prefix(String),
    RootDir(String),
    CurDir,
    ParentDir,
    Normal(String),
}

/// The mathematical value of a `PathPart`.
pub enum Part {
    Prefix(Seq<char>),
    RootDir(Seq<char>),
    CurDir,
    ParentDir,
    Normal(Seq<char>),
}

impl View for PathPart {
    type V = Part;

    open spec fn view(&self) -> Part {
        match *self {
            PathPart::Prefix(t) => Part::Prefix(t@),
            PathPart::RootDir(t) => Part::RootDir(t@),
            PathPart::CurDir => Part::CurDir,
            PathPart::ParentDir => Part::ParentDir,
            PathPart::Normal(t) => Part::Normal(t@),
        }
    }
}

/// The values of a list of parts.
pub open spec fn parts_view(parts: Seq<PathPart>) -> Seq<Part> {
    parts.map_values(|p: PathPart| p@)
}

/// `Path::join` of std: `rel` adjoined to `base`.
#[verifier::external_body]
pub(crate) fn join(base: &str, rel: &str) -> (r: String)
    ensures
        r@ == path_join(base@, rel@),
{
    Path::new(base).join(rel).to_string_lossy().into_owned()
}

/// `Path::parent` of std: the path without its last component, if it has one.
#[verifier::external_body]
pub(crate) fn parent(path: &str) -> (r: Option<String>)
    ensures
        r is Some == path_parent(path@) is Some,
        r matches Some(p) ==> path_parent(path@) == Some(p@),
{
    Path::new(path).parent().map(|p| p.to_string_lossy().into_owned())
}

/// `Path::file_name` of std: the last component, if it is a plain name.
#[verifier::external_body]
pub(crate) fn file_name(path: &str) -> (r: Option<String>)
    ensures
        r is Some == path_file_name(path@) is Some,
        r matches Some(n) ==> path_file_name(path@) == Some(n@),
{
    Path::new(path).file_name().map(|n| n.to_string_lossy().into_owned())
}

/// `Path::strip_prefix` of std: what is left of `path` behind `base`.
#[verifier::external_body]
pub(crate) fn strip_base(path: &str, base: &str) -> (r: Option<String>)
    ensures
        r is Some == path_strip_prefix(path@, base@) is Some,
        r matches Some(rest) ==> path_strip_prefix(path@, base@) == Some(rest@),
{
    Path::new(path).strip_prefix(base).ok().map(|p| p.to_string_lossy().into_owned())
}

/// `Path::is_relative` of std.
#[verifier::external_body]
pub(crate) fn is_relative(path: &str) -> (r: bool)
    ensures
        r == path_is_relative(path@),
{
    Path::new(path).is_relative()
}

/// `Path::components` of std, each component handed out with its text.
#[verifier::external_body]
pub(crate) fn components(path: &str) -> (r: Vec<PathPart>)
    ensures
        parts_view(r@) == path_parts(path@),
{
    Path::new(path).components().map(|c| {
        let text = c.as_os_str().to_string_lossy().into_owned();
        match c {
            Component::Prefix(_) => PathPart::Prefix(text),
            Component::RootDir => PathPart::RootDir(text),
            Component::CurDir => PathPart::CurDir,
            Component::ParentDir => PathPart::ParentDir,
            Component::Normal(_) => PathPart::Normal(text),
        }
    }).collect()
}

/// The `Debug` formatting of `Path` of std.
#[verifier::external_body]
pub(crate) fn quoted(path: &str) -> (r: String)
    ensures
        r@ == path_debug(path@),
{
    format!("{:?}", Path::new(path))
}

/// Whether a sample reference is root-relative: it begins with the separator.
/// An empty reference stands for no sample and is no path: callers leave it out.
pub fn is_sample_absolute(sample_path: &str) -> (r: bool)
    requires
        sample_path@.len() > 0,
    ensures
        r == (sample_path@[0] == '/'),
{
    sample_path.get_char(0) == '/'
}

/// The two ways a sample reference addresses its file.
#[derive(Debug, Clone, Copy, PartialEq, Eq, Structural)]
pub enum Addressing {
    /// Relative to the declared backup root; written with a leading separator.
    RootRelative,
    /// Relative to the folder of the song that holds the reference.
    SongRelative,
}

/// The addressing mode of a reference that is not empty.
pub open spec fn addressing(sample_ref: Seq<char>) -> Addressing {
    if sample_ref[0] == '/' {
        Addressing::RootRelative
    } else {
        Addressing::SongRelative
    }
}

/// Tells which way a reference addresses its file.
pub fn classify(sample_ref: &str) -> (r: Addressing)
    requires
        sample_ref@.len() > 0,
    ensures
        r == addressing(sample_ref@),
{
    if is_sample_absolute(sample_ref) {
        Addressing::RootRelative
    } else {
        Addressing::SongRelative
    }
}

/// Where a reference points, given the backup root and the folder of the song:
/// a root-relative reference loses its leading separator and is adjoined to
/// the root, a song-relative one is adjoined to the song's folder.
pub open spec fn resolved(root: Seq<char>, song_folder: Seq<char>, sample_ref: Seq<char>) -> Seq<
    char,
> {
    if sample_ref[0] == '/' {
        path_join(root, sample_ref.skip(1))
    } else {
        path_join(song_folder, sample_ref)
    }
}

/// Resolves a reference against the backup root and the folder of its song.
pub fn resolve_in(backup_root: &str, song_folder: &str, sample_path: &str) -> (r: String)
    requires
        sample_path@.len() > 0,
    ensures
        r@ == resolved(backup_root@, song_folder@, sample_path@),
{
    if is_sample_absolute(sample_path) {
        let n = sample_path.unicode_len();
        let rel = sample_path.substring_char(1, n);
        join(backup_root, rel)
    } else {
        join(song_folder, sample_path)
    }
}

/// The file a reference points to, from the backup root and the path of the
/// song file. The song path has a parent folder, as every path of a file that
/// was read has.
pub fn sample_to_absolute_path(backup_root: &str, song_path: &str, sample_path: &str) -> (r:
    String)
    requires
        sample_path@.len() > 0,
        path_parent(song_path@) is Some,
    ensures
        r@ == resolved(backup_root@, path_parent(song_path@)->Some_0, sample_path@),
{
    match parent(song_path) {
        Some(folder) => resolve_in(backup_root, folder.as_str(), sample_path),
        None => String::new(),
    }
}

/// As `sample_to_absolute_path`, for any input: nothing for an empty
/// reference and for a song path without a parent folder.
pub fn resolve(backup_root: &str, song_path: &str, sample_path: &str) -> (r: Option<String>)
    ensures
        r is Some <==> sample_path@.len() > 0 && path_parent(song_path@) is Some,
        r matches Some(p) ==> p@ == resolved(
            backup_root@,
            path_parent(song_path@)->Some_0,
            sample_path@,
        ),
{
    if sample_path.unicode_len() == 0 || parent(song_path).is_none() {
        None
    } else {
        Some(sample_to_absolute_path(backup_root, song_path, sample_path))
    }
}

/// A sample file that a song refers to: the slot of the sampler and the path
/// of the file on disk.
#[derive(Debug, Clone, PartialEq)]
pub struct SampleCheck {
    /// The slot of the sampler.
    pub slot: usize,
    /// The reference as the song holds it.
    pub reference: String,
    /// The file that the reference points to.
    pub path: String,
}

/// The mathematical value of a `SampleCheck`.
pub struct CheckView {
    pub slot: int,
    pub reference: Seq<char>,
    pub path: Seq<char>,
}

impl View for SampleCheck {
    type V = CheckView;

    open spec fn view(&self) -> CheckView {
        CheckView { slot: self.slot as int, reference: self.reference@, path: self.path@ }
    }
}

/// The values of a list of checks.
pub open spec fn checks_of(list: Seq<SampleCheck>) -> Seq<CheckView> {
    Seq::new(list.len(), |i: int| list[i]@)
}

/// Whether slot `i` holds a sampler with a sample assigned: its reference is
/// not empty.
pub open spec fn has_sample(slots: Seq<Slot>, i: int) -> bool {
    0 <= i < slots.len() && slots[i] is Sampler && slots[i]->sample_path.len() > 0
}

/// The files that the first `upto` slots refer to, in ascending slot order.
pub open spec fn checks_upto(
    root: Seq<char>,
    song_folder: Seq<char>,
    slots: Seq<Slot>,
    upto: int,
) -> Seq<CheckView>
    decreases upto,
{
    if upto <= 0 {
        Seq::empty()
    } else if has_sample(slots, upto - 1) {
        checks_upto(root, song_folder, slots, upto - 1).push(
            CheckView {
                slot: upto - 1,
                reference: slots[upto - 1]->sample_path,
                path: resolved(root, song_folder, slots[upto - 1]->sample_path),
            },
        )
    } else {
        checks_upto(root, song_folder, slots, upto - 1)
    }
}

/// The files that a song refers to: one for every sampler with a sample
/// assigned, in ascending slot order.
pub open spec fn sample_files(root: Seq<char>, song_folder: Seq<char>, slots: Seq<Slot>) -> Seq<
    CheckView,
> {
    checks_upto(root, song_folder, slots, slots.len() as int)
}

/// Resolves the reference of every sampler that has a sample assigned,
/// against the backup root and the folder of the song.
pub fn sample_checks(backup_root: &str, song_folder: &str, instruments: &Vec<Instrument>) -> (r:
    Vec<SampleCheck>)
    ensures
        checks_of(r@) == sample_files(backup_root@, song_folder@, slots_of(instruments@)),
{
    let mut list: Vec<SampleCheck> = Vec::new();
    let ghost slots = slots_of(instruments@);
    let mut i: usize = 0;
    while i < instruments.len()
        invariant
            i <= instruments.len(),
            slots == slots_of(instruments@),
            checks_of(list@) == checks_upto(backup_root@, song_folder@, slots, i as int),
        decreases instruments.len() - i,
    {
        match &instruments[i] {
            Instrument::Sampler { sample_path, .. } => {
                if sample_path.as_str().unicode_len() > 0 {
                    let path = resolve_in(backup_root, song_folder, sample_path.as_str());
                    list.push(SampleCheck { slot: i, reference: sample_path.clone(), path });
                }
            },
            _ => {},
        }
        i = i + 1;
    }
    list
}

/// Whether the file of check `i` was found on disk. A check without an
/// answer counts as not found.
pub open spec fn is_present(present: Seq<bool>, i: int) -> bool {
    0 <= i < present.len() && present[i]
}

/// The first check, among the first `upto`, whose file was not found.
pub open spec fn first_absent(present: Seq<bool>, upto: int) -> Option<int>
    decreases upto,
{
    if upto <= 0 {
        None
    } else {
        match first_absent(present, upto - 1) {
            Some(i) => Some(i),
            None => if is_present(present, upto - 1) {
                None
            } else {
                Some(upto - 1)
            },
        }
    }
}

/// The position of the first check whose file is missing, if there is one.
/// `present[i]` says whether the file of `checks[i]` was found.
pub fn first_missing(checks: &Vec<SampleCheck>, present: &Vec<bool>) -> (r: Option<usize>)
    ensures
        match r {
            Some(i) => first_absent(present@, checks@.len() as int) == Some(i as int) && i
                < checks@.len(),
            None => first_absent(present@, checks@.len() as int) is None,
        },
{
    let mut i: usize = 0;
    while i < checks.len()
        invariant
            i <= checks.len(),
            first_absent(present@, i as int) is None,
        decreases checks.len() - i,
    {
        if i >= present.len() || !present[i] {
            proof {
                lemma_first_absent_stays(present@, i + 1, checks@.len() as int);
            }
            return Some(i);
        }
        i = i + 1;
    }
    None
}

/// Once an absent check was found, looking further changes nothing.
pub proof fn lemma_first_absent_stays(present: Seq<bool>, upto: int, further: int)
    requires
        upto <= further,
        first_absent(present, upto) is Some,
    ensures
        first_absent(present, further) == first_absent(present, upto),
    decreases further - upto,
{
    if upto < further {
        lemma_first_absent_stays(present, upto, further - 1);
    }
}

/// The first absent check comes before every other absent one, and every
/// check before it is present.
pub proof fn lemma_first_absent_is_least(present: Seq<bool>, upto: int)
    ensures
        match first_absent(present, upto) {
            Some(i) => 0 <= i < upto && !is_present(present, i) && forall|j: int|
                0 <= j < i ==> is_present(present, j),
            None => forall|j: int| 0 <= j < upto ==> is_present(present, j),
        },
    decreases upto,
{
    if upto > 0 {
        lemma_first_absent_is_least(present, upto - 1);
    }
}

} // verus!
