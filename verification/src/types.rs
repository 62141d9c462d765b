use crate::paths::{path_debug, quoted};
use crate::text::{debug_text, hex2, hex2_string, str_debug};
use vstd::prelude::*;
use vstd::string::*;

verus! {

/// Switches shared by the commands that change files.
#[derive(Debug, Clone, Copy)]
pub struct FlagBag {
    /// Compute and report only; nothing on disk is changed.
    pub dry_run: bool,
    /// Print more information to understand errors.
    pub verbose: bool,
    /// Commit a batch although some of its members failed.
    pub force: bool,
}

/// Every failure a command can report. Paths are carried as text.
#[derive(Debug, PartialEq)]
pub enum M8FstoErr {
    UnparseableM8File { path: String, reason: String },
    InvalidSearchPattern { pattern: String },
    CannotReadFile { path: String, reason: String },
    SampleCopyError { path: String, to: String, reason: String },
    SongSerializationError { destination: String, reason: String },
    MissingSample { instr: usize, path: String },
    MultiErrs { inner: Vec<M8FstoErr> },
    FolderCreationError { path: String, reason: String },
    SampleInBundleNotRelative { sample_path: String, instrument: usize },
    FileRemovalFailure { path: String, reason: String },
    InvalidPath { reason: String },
    RenameFailure { path: String },
    PrintError,
}

/// The mathematical value of an `M8FstoErr`.
pub enum Failure {
    UnparseableM8File { path: Seq<char>, reason: Seq<char> },
    InvalidSearchPattern { pattern: Seq<char> },
    CannotReadFile { path: Seq<char>, reason: Seq<char> },
    SampleCopyError { path: Seq<char>, to: Seq<char>, reason: Seq<char> },
    SongSerializationError { destination: Seq<char>, reason: Seq<char> },
    MissingSample { instr: nat, path: Seq<char> },
    MultiErrs { inner: Seq<Failure> },
    FolderCreationError { path: Seq<char>, reason: Seq<char> },
    SampleInBundleNotRelative { sample_path: Seq<char>, instrument: nat },
    FileRemovalFailure { path: Seq<char>, reason: Seq<char> },
    InvalidPath { reason: Seq<char> },
    RenameFailure { path: Seq<char> },
    PrintError,
}

/// The mathematical value of an error; of a composite, the composite of the
/// values of its members.
pub open spec fn failure_of(e: M8FstoErr) -> Failure
    decreases e,
{
    match e {
        M8FstoErr::UnparseableM8File { path, reason } => Failure::UnparseableM8File {
            path: path@,
            reason: reason@,
        },
        M8FstoErr::InvalidSearchPattern { pattern } => Failure::InvalidSearchPattern {
            pattern: pattern@,
        },
        M8FstoErr::CannotReadFile { path, reason } => Failure::CannotReadFile {
            path: path@,
            reason: reason@,
        },
        M8FstoErr::SampleCopyError { path, to, reason } => Failure::SampleCopyError {
            path: path@,
            to: to@,
            reason: reason@,
        },
        M8FstoErr::SongSerializationError {
            destination,
            reason,
        } => Failure::SongSerializationError { destination: destination@, reason: reason@ },
        M8FstoErr::MissingSample { instr, path } => Failure::MissingSample {
            instr: instr as nat,
            path: path@,
        },
        M8FstoErr::MultiErrs { inner } => Failure::MultiErrs {
            inner: Seq::new(
                inner@.len(),
                |i: int|
                    if 0 <= i < inner@.len() {
                        failure_of(inner@[i])
                    } else {
                        Failure::PrintError
                    },
            ),
        },
        M8FstoErr::FolderCreationError { path, reason } => Failure::FolderCreationError {
            path: path@,
            reason: reason@,
        },
        M8FstoErr::SampleInBundleNotRelative {
            sample_path,
            instrument,
        } => Failure::SampleInBundleNotRelative {
            sample_path: sample_path@,
            instrument: instrument as nat,
        },
        M8FstoErr::FileRemovalFailure { path, reason } => Failure::FileRemovalFailure {
            path: path@,
            reason: reason@,
        },
        M8FstoErr::InvalidPath { reason } => Failure::InvalidPath { reason: reason@ },
        M8FstoErr::RenameFailure { path } => Failure::RenameFailure { path: path@ },
        M8FstoErr::PrintError => Failure::PrintError,
    }
}

impl View for M8FstoErr {
    type V = Failure;

    open spec fn view(&self) -> Failure {
        failure_of(*self)
    }
}

/// The values of a list of errors.
pub open spec fn failures_of(list: Seq<M8FstoErr>) -> Seq<Failure> {
    Seq::new(list.len(), |i: int| list[i]@)
}

/// The value of an aggregate that may still be empty.
pub open spec fn aggregate_of(err: Option<M8FstoErr>) -> Option<Failure> {
    match err {
        Some(e) => Some(e@),
        None => None,
    }
}

/// The value of a result that carries nothing on success.
pub open spec fn verdict_of(r: Result<(), M8FstoErr>) -> Result<(), Failure> {
    match r {
        Ok(_) => Ok(()),
        Err(e) => Err(e@),
    }
}

/// The failures that `f` stands for: the members of a composite, else `f`
/// alone.
pub open spec fn members(f: Failure) -> Seq<Failure> {
    match f {
        Failure::MultiErrs { inner } => inner,
        _ => seq![f],
    }
}

/// No member of `s` is itself a composite.
pub open spec fn all_single(s: Seq<Failure>) -> bool {
    forall|i: int| 0 <= i < s.len() ==> !(#[trigger] s[i] is MultiErrs)
}

/// The canonical form of an aggregate: a lone failure stands unwrapped, and
/// a composite holds at least two failures, none of them a composite.
pub open spec fn is_canonical(f: Failure) -> bool {
    match f {
        Failure::MultiErrs { inner } => inner.len() >= 2 && all_single(inner),
        _ => true,
    }
}

/// Two aggregates joined: one composite of the members of both, in order.
pub open spec fn joined(a: Failure, b: Failure) -> Failure {
    Failure::MultiErrs { inner: members(a) + members(b) }
}

/// A running aggregate with one more failure: the first failure stands as it
/// is, every later one is joined to what was gathered.
pub open spec fn gathered(so_far: Option<Failure>, next: Failure) -> Option<Failure> {
    match so_far {
        None => Some(next),
        Some(f) => Some(joined(f, next)),
    }
}

/// The members of every failure in `s`, in order, as one list.
pub open spec fn all_members(s: Seq<Failure>) -> Seq<Failure>
    decreases s.len(),
{
    if s.len() == 0 {
        Seq::empty()
    } else {
        all_members(s.drop_last()) + members(s.last())
    }
}

/// The result of a batch that met the failures `s`: success for none, the
/// failure itself for exactly one, one flat composite for more.
pub open spec fn collapsed(s: Seq<Failure>) -> Result<(), Failure> {
    let flat = all_members(s);
    if flat.len() == 0 {
        Ok(())
    } else if flat.len() == 1 {
        Err(flat[0])
    } else {
        Err(Failure::MultiErrs { inner: flat })
    }
}

/// The value of a composite is the composite of the values of its members.
pub proof fn lemma_composite_view(inner: Vec<M8FstoErr>)
    ensures
        (M8FstoErr::MultiErrs { inner })@ == (Failure::MultiErrs { inner: failures_of(inner@) }),
{
    let e = M8FstoErr::MultiErrs { inner };
    assert(e@->inner =~= failures_of(inner@));
}

impl M8FstoErr {
    /// Joins two aggregates into one composite whose members are the failures
    /// of `self` followed by those of `other`. A composite on either side is
    /// taken apart, so the result is one flat list.
    pub fn combine(self, other: M8FstoErr) -> (r: M8FstoErr)
        ensures
            r@ == joined(self@, other@),
    {
        let ghost a = self@;
        let ghost b = other@;
        let mut list: Vec<M8FstoErr> = match self {
            M8FstoErr::MultiErrs { inner } => inner,
            single => {
                let mut v: Vec<M8FstoErr> = Vec::new();
                v.push(single);
                v
            },
        };
        match other {
            M8FstoErr::MultiErrs { inner } => {
                let mut tail = inner;
                list.append(&mut tail);
            },
            single => {
                list.push(single);
            },
        }
        assert(failures_of(list@) =~= members(a) + members(b));
        let r = M8FstoErr::MultiErrs { inner: list };
        assert(r@->inner =~= failures_of(list@));
        r
    }
}

/// Joining keeps the canonical form: of two canonical aggregates comes a
/// composite of at least two failures, none of them a composite.
pub proof fn lemma_joined_is_canonical(a: Failure, b: Failure)
    requires
        is_canonical(a),
        is_canonical(b),
    ensures
        is_canonical(joined(a, b)),
        members(joined(a, b)).len() == members(a).len() + members(b).len(),
{
}

/// Gathering keeps the canonical form, and a lone failure stays unwrapped.
pub proof fn lemma_gathered_is_canonical(so_far: Option<Failure>, next: Failure)
    requires
        so_far matches Some(f) ==> is_canonical(f),
        is_canonical(next),
    ensures
        gathered(so_far, next) matches Some(f) && is_canonical(f),
        so_far is None ==> gathered(so_far, next) == Some(next),
{
    if let Some(f) = so_far {
        lemma_joined_is_canonical(f, next);
    }
}

/// Adds one more failure to a running aggregate.
pub fn combine(err: Option<M8FstoErr>, other: M8FstoErr) -> (r: Option<M8FstoErr>)
    ensures
        aggregate_of(r) == gathered(aggregate_of(err), other@),
{
    match err {
        None => Some(other),
        Some(org) => Some(org.combine(other)),
    }
}

/// Turns the failures met over a batch into its result. Composites among
/// them are taken apart first, so the result is never nested.
pub fn collapse(errors: Vec<M8FstoErr>) -> (r: Result<(), M8FstoErr>)
    ensures
        verdict_of(r) == collapsed(failures_of(errors@)),
{
    let mut flat: Vec<M8FstoErr> = Vec::new();
    let ghost all = errors@;
    for e in it: errors
        invariant
            it.seq() == all,
            failures_of(flat@) == all_members(failures_of(all.take(it.index() as int))),
    {
        proof {
            assert(failures_of(all.take(it.index() + 1)).drop_last() =~= failures_of(
                all.take(it.index() as int),
            ));
        }
        match e {
            M8FstoErr::MultiErrs { inner } => {
                let mut tail = inner;
                flat.append(&mut tail);
            },
            single => {
                flat.push(single);
            },
        }
    }
    proof {
        assert(all.take(all.len() as int) == all);
    }
    if flat.len() == 0 {
        Ok(())
    } else if flat.len() == 1 {
        let only = flat.pop().unwrap();
        Err(only)
    } else {
        let r = M8FstoErr::MultiErrs { inner: flat };
        assert(r@->inner =~= failures_of(flat@));
        Err(r)
    }
}

/// The result of a batch is canonical whatever failures it met.
pub proof fn lemma_collapsed_is_canonical(s: Seq<Failure>)
    requires
        forall|i: int| 0 <= i < s.len() ==> is_canonical(#[trigger] s[i]),
    ensures
        collapsed(s) matches Err(f) ==> is_canonical(f) && members(f) == all_members(s),
        all_single(all_members(s)),
    decreases s.len(),
{
    if s.len() > 0 {
        lemma_collapsed_is_canonical(s.drop_last());
    }
}

/// The text of a failure: one line for a single failure, and for a
/// composite the lines of its members in order.
pub open spec fn message(f: Failure) -> Seq<char>
    decreases f, 0int,
{
    match f {
        Failure::PrintError => "Printing error?\n"@,
        Failure::UnparseableM8File { path, reason } => "Can't parse M8 file '"@ + path_debug(path)
            + "' : "@ + reason + "\n"@,
        Failure::InvalidSearchPattern { pattern } => "Invalid search pattern '"@ + pattern
            + "'\n"@,
        Failure::CannotReadFile { path, reason } => "Cannot read file '"@ + path_debug(path)
            + "' : "@ + reason + "\n"@,
        Failure::MultiErrs { inner } => messages(inner, inner.len() as int),
        Failure::MissingSample { instr, path } => "Missing sample '"@ + path_debug(path)
            + "' for instrument "@ + hex2(instr) + "\n"@,
        Failure::SampleCopyError { path, to, reason } => "Cannot copy file '"@ + path_debug(path)
            + "' to '"@ + path_debug(to) + "' : "@ + reason + "\n"@,
        Failure::SongSerializationError { destination, reason } => "Error while writing song \""@
            + destination + "\": "@ + reason + "\n"@,
        Failure::SampleInBundleNotRelative {
            sample_path,
            instrument,
        } => "The M8 song has non-relative sample \""@ + sample_path + "\" for instrument "@
            + hex2(instrument) + "\n"@,
        Failure::FolderCreationError { path, reason } => "Cannot create folder '"@ + path_debug(
            path,
        ) + "' for bundling : "@ + reason + "\n"@,
        Failure::FileRemovalFailure { path, reason } => "Cannot remove file "@ + path_debug(path)
            + " : '"@ + reason + "'\n"@,
        Failure::InvalidPath { reason } => "Invalid path "@ + reason + "\n"@,
        Failure::RenameFailure { path } => "Cannot rename file or folder \""@ + str_debug(path)
            + "\"\n"@,
    }
}

/// The texts of the first `upto` failures of a list, one behind the other.
pub open spec fn messages(list: Seq<Failure>, upto: int) -> Seq<char>
    decreases list, upto,
{
    if upto <= 0 || upto > list.len() {
        Seq::empty()
    } else {
        messages(list, upto - 1) + message(list[upto - 1])
    }
}

/// The texts of the first `upto` members of a composite, one behind the other.
fn describe_members(inner: &Vec<M8FstoErr>, upto: usize) -> (r: String)
    requires
        upto <= inner@.len(),
    ensures
        r@ == messages(failures_of(inner@), upto as int),
    decreases inner, upto,
{
    if upto == 0 {
        String::new()
    } else {
        let mut out = describe_members(inner, upto - 1);
        out.append(inner[upto - 1].describe().as_str());
        out
    }
}

impl M8FstoErr {
    /// The text that reports this failure: one line for each failure it
    /// stands for.
    pub fn describe(&self) -> (r: String)
        ensures
            r@ == message(self@),
        decreases self, 0int,
    {
        match self {
            M8FstoErr::PrintError => String::from_str("Printing error?\n"),
            M8FstoErr::UnparseableM8File { path, reason } => {
                let mut out = String::from_str("Can't parse M8 file '");
                out.append(quoted(path.as_str()).as_str());
                out.append("' : ");
                out.append(reason.as_str());
                out.append("\n");
                out
            },
            M8FstoErr::InvalidSearchPattern { pattern } => {
                let mut out = String::from_str("Invalid search pattern '");
                out.append(pattern.as_str());
                out.append("'\n");
                out
            },
            M8FstoErr::CannotReadFile { path, reason } => {
                let mut out = String::from_str("Cannot read file '");
                out.append(quoted(path.as_str()).as_str());
                out.append("' : ");
                out.append(reason.as_str());
                out.append("\n");
                out
            },
            M8FstoErr::MultiErrs { inner } => {
                proof {
                    lemma_composite_view(*inner);
                }
                describe_members(inner, inner.len())
            },
            M8FstoErr::MissingSample { instr, path } => {
                let mut out = String::from_str("Missing sample '");
                out.append(quoted(path.as_str()).as_str());
                out.append("' for instrument ");
                out.append(hex2_string(*instr).as_str());
                out.append("\n");
                out
            },
            M8FstoErr::SampleCopyError { path, to, reason } => {
                let mut out = String::from_str("Cannot copy file '");
                out.append(quoted(path.as_str()).as_str());
                out.append("' to '");
                out.append(quoted(to.as_str()).as_str());
                out.append("' : ");
                out.append(reason.as_str());
                out.append("\n");
                out
            },
            M8FstoErr::SongSerializationError { destination, reason } => {
                let mut out = String::from_str("Error while writing song \"");
                out.append(destination.as_str());
                out.append("\": ");
                out.append(reason.as_str());
                out.append("\n");
                out
            },
            M8FstoErr::SampleInBundleNotRelative { sample_path, instrument } => {
                let mut out = String::from_str("The M8 song has non-relative sample \"");
                out.append(sample_path.as_str());
                out.append("\" for instrument ");
                out.append(hex2_string(*instrument).as_str());
                out.append("\n");
                out
            },
            M8FstoErr::FolderCreationError { path, reason } => {
                let mut out = String::from_str("Cannot create folder '");
                out.append(quoted(path.as_str()).as_str());
                out.append("' for bundling : ");
                out.append(reason.as_str());
                out.append("\n");
                out
            },
            M8FstoErr::FileRemovalFailure { path, reason } => {
                let mut out = String::from_str("Cannot remove file ");
                out.append(quoted(path.as_str()).as_str());
                out.append(" : '");
                out.append(reason.as_str());
                out.append("'\n");
                out
            },
            M8FstoErr::InvalidPath { reason } => {
                let mut out = String::from_str("Invalid path ");
                out.append(reason.as_str());
                out.append("\n");
                out
            },
            M8FstoErr::RenameFailure { path } => {
                let mut out = String::from_str("Cannot rename file or folder \"");
                out.append(debug_text(path.as_str()).as_str());
                out.append("\"\n");
                out
            },
        }
    }
}

} // verus!
