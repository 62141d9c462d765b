use m8_fsto::grep_sample::{compile_pattern, grep_instruments};
use m8_fsto::ls_sample::{list_samples, relative_to};
use m8_fsto::song::Instrument;
use m8_fsto::types::M8FstoErr;

const INSTRUMENTS_AT: usize = 0x13A3E;
const INSTRUMENT_SIZE: usize = 215;

fn song_with(samplers: &[(usize, &str, &str)]) -> Vec<u8> {
    let mut bytes = vec![0u8; 0x1AFE6];
    bytes[..9].copy_from_slice(b"M8VERSION");
    bytes[11] = 4;
    bytes[13] = 0x10;
    for slot in 0..128 {
        bytes[INSTRUMENTS_AT + slot * INSTRUMENT_SIZE] = 0xFF;
    }
    for (slot, name, path) in samplers {
        let at = INSTRUMENTS_AT + slot * INSTRUMENT_SIZE;
        bytes[at] = 0x02;
        bytes[at + 1..at + 1 + name.len()].copy_from_slice(name.as_bytes());
        bytes[at + 0x57..at + 0x57 + path.len()].copy_from_slice(path.as_bytes());
    }
    bytes
}

fn sampler(name: &str, path: &str) -> Instrument {
    Instrument::Sampler { name: name.to_string(), sample_path: path.to_string() }
}

fn instruments() -> Vec<Instrument> {
    let mut list = vec![Instrument::Empty; 12];
    list[1] = sampler("KICK", "/Samples/Kick/808.wav");
    list[2] = Instrument::WavSynth;
    list[10] = sampler("", "/Samples/Hat/h.wav");
    list[11] = sampler("EMPTY", "");
    list
}

#[test]
fn a_song_is_shown_relative_to_the_working_folder() {
    assert_eq!(relative_to("/backup", "/backup/Songs/a.m8s"), "Songs/a.m8s");
    assert_eq!(relative_to("/backup", "/elsewhere/a.m8s"), "/elsewhere/a.m8s");
    assert_eq!(relative_to("/backup", "a.m8s"), "a.m8s");
}

#[test]
fn samplers_are_listed_under_their_song() {
    assert_eq!(
        list_samples("Songs/a.m8s", &instruments()),
        vec![
            "\nSongs/a.m8s".to_string(),
            "  01 KICK : /Samples/Kick/808.wav".to_string(),
            "  0A : /Samples/Hat/h.wav".to_string(),
            "  0B EMPTY : ".to_string(),
        ]
    );
}

#[test]
fn a_song_without_a_sampler_lists_nothing() {
    assert_eq!(list_samples("a.m8s", &vec![Instrument::FMSynth]), Vec::<String>::new());
    assert_eq!(list_samples("a.m8s", &Vec::new()), Vec::<String>::new());
}

#[test]
fn a_song_file_is_listed() {
    let bytes = song_with(&[(31, "SNARE", "s.wav")]);
    assert_eq!(
        m8_fsto::ls_sample::on_file_blob("/backup", "/backup/a.m8s", &bytes),
        Ok(vec!["\na.m8s".to_string(), "  1F SNARE : s.wav".to_string()])
    );
    assert!(matches!(
        m8_fsto::ls_sample::on_file_blob("/backup", "/backup/a.m8s", &vec![0u8; 1]),
        Err(M8FstoErr::UnparseableM8File { .. })
    ));
}

#[test]
fn matching_samplers_are_reported() {
    let pattern = compile_pattern("/Samples/Kick/*").unwrap();
    assert_eq!(
        grep_instruments(&pattern, "Songs/a.m8s", &instruments()),
        vec!["Songs/a.m8s:01 KICK : /Samples/Kick/808.wav".to_string()]
    );
    let pattern = compile_pattern("/Samples/*/?.wav").unwrap();
    assert_eq!(
        grep_instruments(&pattern, "a.m8s", &instruments()),
        vec!["a.m8s:0A  : /Samples/Hat/h.wav".to_string()]
    );
    let pattern = compile_pattern("*").unwrap();
    assert_eq!(grep_instruments(&pattern, "a.m8s", &instruments()).len(), 3);
    let pattern = compile_pattern("nothing").unwrap();
    assert_eq!(grep_instruments(&pattern, "a.m8s", &instruments()), Vec::<String>::new());
}

#[test]
fn a_bad_pattern_is_refused() {
    assert_eq!(
        compile_pattern("a[").unwrap_err(),
        M8FstoErr::InvalidSearchPattern {
            pattern: "PatternError { pos: 1, msg: \"invalid range pattern\" }".to_string(),
        }
    );
    assert!(compile_pattern("a***").is_err());
}

#[test]
fn a_song_file_is_searched() {
    let bytes = song_with(&[(0, "KICK", "/Samples/k.wav"), (3, "HAT", "/Other/h.wav")]);
    let pattern = compile_pattern("/Samples/*").unwrap();
    assert_eq!(
        m8_fsto::grep_sample::on_file_blob("/backup", &pattern, "/backup/Songs/a.m8s", &bytes),
        Ok(vec!["Songs/a.m8s:00 KICK : /Samples/k.wav".to_string()])
    );
}
