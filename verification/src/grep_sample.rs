use crate::ls_sample::{relative_to, shown_path};
use crate::song::{decode, decode_view, slots_of, Instrument, Slot};
use crate::text::{hex2, hex2_string, texts_of};
use crate::types::{Failure, M8FstoErr};
use glob::Pattern;
use vstd::prelude::*;
use vstd::string::*;

verus! {

/// `Pattern` of glob, a compiled pattern: the library carries it and never
/// looks inside.
#[verifier::external_type_specification]
#[verifier::external_body]
pub struct ExPattern(glob::Pattern);

/// What `Pattern::new` of glob makes of a pattern text: the compiled pattern,
/// or the `Debug` text of its error.
pub uninterp spec fn compiled(pattern: Seq<char>) -> Result<Pattern, Seq<char>>;

/// What `Pattern::matches` of glob answers for a text.
pub uninterp spec fn pattern_accepts(pattern: Pattern, text: Seq<char>) -> bool;

/// `Pattern::new` of glob.
#[verifier::external_body]
fn compile(pattern: &str) -> (r: Result<Pattern, String>)
    ensures
        match r {
            Ok(p) => compiled(pattern@) == Ok::<Pattern, Seq<char>>(p),
            Err(reason) => compiled(pattern@) == Err::<Pattern, Seq<char>>(reason@),
        },
{
    Pattern::new(pattern).map_err(|e| format!("{:?}", e))
}

/// `Pattern::matches` of glob.
#[verifier::external_body]
fn accepts(pattern: &Pattern, text: &str) -> (r: bool)
    ensures
        r == pattern_accepts(*pattern, text@),
{
    pattern.matches(text)
}

/// Compiles the pattern of a search. A pattern that glob refuses is reported
/// with the text of its error.
pub fn compile_pattern(pattern: &str) -> (r: Result<Pattern, M8FstoErr>)
    ensures
        match r {
            Ok(p) => compiled(pattern@) == Ok::<Pattern, Seq<char>>(p),
            Err(e) => compiled(pattern@) matches Err(reason) && e@ == (
            Failure::InvalidSearchPattern { pattern: reason }),
        },
{
    match compile(pattern) {
        Ok(p) => Ok(p),
        Err(reason) => Err(M8FstoErr::InvalidSearchPattern { pattern: reason }),
    }
}

/// The line for a sampler whose sample reference matches: the path of the
/// song, the slot in two hexadecimal digits, the name and the reference.
pub open spec fn match_line(shown: Seq<char>, slot: int, name: Seq<char>, sample_path: Seq<char>)
    -> Seq<char> {
    shown + ":"@ + hex2(slot as nat) + " "@ + name + " : "@ + sample_path
}

/// Whether the sampler in slot `i` refers to a sample that the pattern
/// accepts.
pub open spec fn is_match(pattern: Pattern, slots: Seq<Slot>, i: int) -> bool {
    0 <= i < slots.len() && slots[i] is Sampler && pattern_accepts(
        pattern,
        slots[i]->sample_path,
    )
}

/// The lines for the matching samplers among the first `upto` slots.
pub open spec fn match_lines(pattern: Pattern, shown: Seq<char>, slots: Seq<Slot>, upto: int)
    -> Seq<Seq<char>>
    decreases upto,
{
    if upto <= 0 {
        Seq::empty()
    } else if is_match(pattern, slots, upto - 1) {
        match_lines(pattern, shown, slots, upto - 1).push(
            match_line(shown, upto - 1, slots[upto - 1]->name, slots[upto - 1]->sample_path),
        )
    } else {
        match_lines(pattern, shown, slots, upto - 1)
    }
}

/// The lines for the samplers of an instrument list whose sample reference
/// the pattern accepts, in ascending slot order.
pub fn grep_instruments(pattern: &Pattern, shown: &str, instruments: &Vec<Instrument>) -> (r: Vec<
    String,
>)
    ensures
        texts_of(r@) == match_lines(
            *pattern,
            shown@,
            slots_of(instruments@),
            instruments@.len() as int,
        ),
{
    let ghost slots = slots_of(instruments@);
    let mut out: Vec<String> = Vec::new();
    let mut i: usize = 0;
    while i < instruments.len()
        invariant
            i <= instruments.len(),
            slots == slots_of(instruments@),
            texts_of(out@) == match_lines(*pattern, shown@, slots, i as int),
        decreases instruments.len() - i,
    {
        match &instruments[i] {
            Instrument::Sampler { name, sample_path } => {
                if accepts(pattern, sample_path.as_str()) {
                    let mut line = String::from_str(shown);
                    line.append(":");
                    line.append(hex2_string(i).as_str());
                    line.append(" ");
                    line.append(name.as_str());
                    line.append(" : ");
                    line.append(sample_path.as_str());
                    out.push(line);
                }
            },
            _ => {},
        }
        i = i + 1;
    }
    out
}

/// What `on_file_blob` answers for the bytes of a song file.
pub open spec fn grepped(pattern: Pattern, cwd: Seq<char>, path: Seq<char>, bytes: Seq<u8>)
    -> Result<Seq<Seq<char>>, Failure> {
    match decode_view(bytes) {
        Err(reason) => Err(Failure::UnparseableM8File { path, reason }),
        Ok(song) => Ok(match_lines(pattern, shown_path(cwd, path), song.1, song.1.len() as int)),
    }
}

/// Decodes a song file and reports the samplers whose sample reference the
/// pattern accepts, one line each.
pub fn on_file_blob(cwd: &str, pattern: &Pattern, path: &str, data: &Vec<u8>) -> (r: Result<
    Vec<String>,
    M8FstoErr,
>)
    ensures
        match r {
            Ok(lines) => grepped(*pattern, cwd@, path@, data@) == Ok::<
                Seq<Seq<char>>,
                Failure,
            >(texts_of(lines@)),
            Err(e) => grepped(*pattern, cwd@, path@, data@) == Err::<Seq<Seq<char>>, Failure>(
                e@,
            ),
        },
{
    match decode(data) {
        Err(reason) => Err(M8FstoErr::UnparseableM8File { path: String::from_str(path), reason }),
        Ok(song) => Ok(
            grep_instruments(pattern, relative_to(cwd, path).as_str(), &song.instruments),
        ),
    }
}

} // verus!
