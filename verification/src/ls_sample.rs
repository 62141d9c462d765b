use crate::paths::{path_strip_prefix, strip_base};
use crate::song::{decode, decode_view, slots_of, Instrument, Slot};
use crate::text::{hex2, hex2_string, texts_of};
use crate::types::{Failure, M8FstoErr};
use vstd::prelude::*;
use vstd::string::*;

verus! {

/// A path as a listing shows it: relative to the working folder where it
/// lies under it, and as it is where it does not.
pub open spec fn shown_path(cwd: Seq<char>, path: Seq<char>) -> Seq<char> {
    match path_strip_prefix(path, cwd) {
        Some(rest) => rest,
        None => path,
    }
}

/// The path of a song as a listing shows it.
pub fn relative_to(cwd: &str, path: &str) -> (r: String)
    ensures
        r@ == shown_path(cwd@, path@),
{
    match strip_base(path, cwd) {
        Some(rest) => rest,
        None => String::from_str(path),
    }
}

/// The line that lists the sampler in `slot`: the slot in two hexadecimal
/// digits, the name where the sampler has one, and the sample reference.
pub open spec fn sampler_line(slot: int, name: Seq<char>, sample_path: Seq<char>) -> Seq<char> {
    if name.len() > 0 {
        "  "@ + hex2(slot as nat) + " "@ + name + " : "@ + sample_path
    } else {
        "  "@ + hex2(slot as nat) + " : "@ + sample_path
    }
}

/// The lines for the samplers among the first `upto` slots.
pub open spec fn sampler_lines(slots: Seq<Slot>, upto: int) -> Seq<Seq<char>>
    decreases upto,
{
    if upto <= 0 {
        Seq::empty()
    } else if slots[upto - 1] is Sampler {
        sampler_lines(slots, upto - 1).push(
            sampler_line(upto - 1, slots[upto - 1]->name, slots[upto - 1]->sample_path),
        )
    } else {
        sampler_lines(slots, upto - 1)
    }
}

/// The listing of a song: nothing for a song without a sampler, else the
/// path of the song behind an empty line, then one line for each sampler.
pub open spec fn listing(shown: Seq<char>, slots: Seq<Slot>) -> Seq<Seq<char>> {
    let lines = sampler_lines(slots, slots.len() as int);
    if lines.len() == 0 {
        Seq::empty()
    } else {
        seq!["\n"@ + shown] + lines
    }
}

/// Lists the samplers of an instrument list under the path `shown`.
pub fn list_samples(shown: &str, instruments: &Vec<Instrument>) -> (r: Vec<String>)
    ensures
        texts_of(r@) == listing(shown@, slots_of(instruments@)),
{
    let ghost slots = slots_of(instruments@);
    let mut heading = String::from_str("\n");
    heading.append(shown);
    let mut out: Vec<String> = Vec::new();
    out.push(heading);
    let ghost head = texts_of(out@);
    let mut i: usize = 0;
    while i < instruments.len()
        invariant
            i <= instruments.len(),
            slots == slots_of(instruments@),
            head.len() == 1,
            texts_of(out@) == head + sampler_lines(slots, i as int),
        decreases instruments.len() - i,
    {
        let ghost before = texts_of(out@);
        match &instruments[i] {
            Instrument::Sampler { name, sample_path } => {
                let mut line = String::from_str("  ");
                line.append(hex2_string(i).as_str());
                if name.as_str().unicode_len() > 0 {
                    line.append(" ");
                    line.append(name.as_str());
                }
                line.append(" : ");
                line.append(sample_path.as_str());
                out.push(line);
                assert(texts_of(out@) =~= before.push(
                    sampler_line(i as int, name@, sample_path@),
                ));
            },
            _ => {},
        }
        i = i + 1;
    }
    if out.len() == 1 {
        let none: Vec<String> = Vec::new();
        none
    } else {
        out
    }
}

/// What `on_file_blob` answers for the bytes of a song file.
pub open spec fn listed(cwd: Seq<char>, path: Seq<char>, bytes: Seq<u8>) -> Result<
    Seq<Seq<char>>,
    Failure,
> {
    match decode_view(bytes) {
        Err(reason) => Err(Failure::UnparseableM8File { path, reason }),
        Ok(song) => Ok(listing(shown_path(cwd, path), song.1)),
    }
}

/// Decodes a song file and lists its samplers, one line each.
pub fn on_file_blob(cwd: &str, path: &str, data: &Vec<u8>) -> (r: Result<Vec<String>, M8FstoErr>)
    ensures
        match r {
            Ok(lines) => listed(cwd@, path@, data@) == Ok::<Seq<Seq<char>>, Failure>(
                texts_of(lines@),
            ),
            Err(e) => listed(cwd@, path@, data@) == Err::<Seq<Seq<char>>, Failure>(e@),
        },
{
    match decode(data) {
        Err(reason) => Err(M8FstoErr::UnparseableM8File { path: String::from_str(path), reason }),
        Ok(song) => Ok(list_samples(relative_to(cwd, path).as_str(), &song.instruments)),
    }
}

} // verus!
