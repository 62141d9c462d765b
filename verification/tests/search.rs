use m8_fsto::broken_search::{
    broken_samples, heading, on_file_blob, search_plan, song_pattern, BrokenSample, PathKind,
};
use m8_fsto::paths::{sample_checks, SampleCheck};
use m8_fsto::song::Instrument;
use m8_fsto::types::M8FstoErr;

const INSTRUMENTS_AT: usize = 0x13A3E;
const INSTRUMENT_SIZE: usize = 215;

fn song_with(samplers: &[(usize, &str, &str)]) -> Vec<u8> {
    let mut bytes = vec![0u8; 0x1AFE6];
    bytes[..9].copy_from_slice(b"M8VERSION");
    bytes[11] = 4;
    bytes[13] = 0x10;
    for slot in 0..128 {
        bytes[INSTRUMENTS_AT + slot * INSTRUMENT_SIZE] = 0xFF;
    }
    for (slot, name, path) in samplers {
        let at = INSTRUMENTS_AT + slot * INSTRUMENT_SIZE;
        bytes[at] = 0x02;
        bytes[at + 1..at + 1 + name.len()].copy_from_slice(name.as_bytes());
        bytes[at + 0x57..at + 0x57 + path.len()].copy_from_slice(path.as_bytes());
    }
    bytes
}

fn sampler(name: &str, path: &str) -> Instrument {
    Instrument::Sampler { name: name.to_string(), sample_path: path.to_string() }
}

fn broken(path: &str, slots: &[usize]) -> BrokenSample {
    BrokenSample { sample_path: path.to_string(), instruments: slots.to_vec() }
}

fn checks() -> Vec<SampleCheck> {
    sample_checks(
        "/backup",
        "/backup/Songs",
        &vec![
            sampler("A", "/Samples/a.wav"),
            sampler("B", "/Samples/b.wav"),
            Instrument::Empty,
            sampler("A2", "/Samples/a.wav"),
            sampler("C", "c.wav"),
            sampler("B2", "/Samples/b.wav"),
            sampler("A3", "/Samples/a.wav"),
        ],
    )
}

#[test]
fn missing_samples_are_grouped_by_reference() {
    assert_eq!(
        broken_samples(&checks(), &vec![false, false, false, true, false, false]),
        vec![broken("/Samples/a.wav", &[0, 3, 6]), broken("/Samples/b.wav", &[1, 5])]
    );
    assert_eq!(
        broken_samples(&checks(), &vec![true, false, true, false, true, true]),
        vec![broken("/Samples/b.wav", &[1]), broken("c.wav", &[4])]
    );
}

#[test]
fn a_song_with_all_its_samples_is_not_broken() {
    assert_eq!(broken_samples(&checks(), &vec![true; 6]), Vec::new());
    assert_eq!(broken_samples(&Vec::new(), &Vec::new()), Vec::new());
}

#[test]
fn a_check_without_an_answer_counts_as_missing() {
    assert_eq!(
        broken_samples(&checks(), &vec![true, true, true, true]),
        vec![broken("/Samples/b.wav", &[5]), broken("/Samples/a.wav", &[6])]
    );
}

#[test]
fn a_broken_sample_has_its_line() {
    assert_eq!(
        broken("/Samples/a.wav", &[0, 3, 16]).line(),
        " * '/Samples/a.wav' in instruments [0, 3, 16, ]"
    );
    assert_eq!(broken("x", &[]).line(), " * 'x' in instruments []");
    assert_eq!(heading("/backup/Songs/a.m8s"), "== Broken song \"/backup/Songs/a.m8s\"");
}

#[test]
fn a_song_file_gives_its_checks() {
    let bytes = song_with(&[(1, "A", "/Samples/a.wav"), (2, "E", ""), (9, "C", "c.wav")]);
    assert_eq!(
        on_file_blob("/backup", "/backup/Songs/s.m8s", &bytes),
        Ok(vec![
            SampleCheck {
                slot: 1,
                reference: "/Samples/a.wav".to_string(),
                path: "/backup/Samples/a.wav".to_string(),
            },
            SampleCheck {
                slot: 9,
                reference: "c.wav".to_string(),
                path: "/backup/Songs/c.wav".to_string(),
            },
        ])
    );
    assert!(matches!(
        on_file_blob("/backup", "/backup/Songs/s.m8s", &vec![7u8; 9]),
        Err(M8FstoErr::UnparseableM8File { .. })
    ));
    assert_eq!(
        on_file_blob("/backup", "/", &bytes),
        Err(M8FstoErr::InvalidPath { reason: "Song path has no parent folder".to_string() })
    );
}

#[test]
fn paths_are_sorted_into_folders_and_songs() {
    let paths = vec![
        "/backup/Songs".to_string(),
        "/backup/a.m8s".to_string(),
        "/backup/notes.txt".to_string(),
        "/backup/folder.m8s".to_string(),
        "/backup/gone.m8s".to_string(),
        "/backup/late.m8s".to_string(),
    ];
    let kinds = vec![
        PathKind::Directory,
        PathKind::File,
        PathKind::File,
        PathKind::Directory,
        PathKind::Other,
    ];
    let plan = search_plan("/backup", &paths, &kinds);
    assert_eq!(plan.roots, vec!["/backup/Songs".to_string(), "/backup/folder.m8s".to_string()]);
    assert_eq!(plan.songs, vec!["/backup/a.m8s".to_string()]);
    assert_eq!(
        plan.errors,
        vec![
            M8FstoErr::InvalidSearchPattern { pattern: "/backup/notes.txt".to_string() },
            M8FstoErr::InvalidSearchPattern { pattern: "/backup/gone.m8s".to_string() },
            M8FstoErr::InvalidSearchPattern { pattern: "/backup/late.m8s".to_string() },
        ]
    );
}

#[test]
fn without_a_path_the_root_is_searched() {
    let plan = search_plan("/backup", &Vec::new(), &Vec::new());
    assert_eq!(plan.roots, vec!["/backup".to_string()]);
    assert_eq!(plan.songs, Vec::<String>::new());
    assert_eq!(plan.errors, Vec::new());
}

#[test]
fn songs_are_looked_for_in_every_folder_below() {
    assert_eq!(song_pattern("/backup"), "/backup/**/*.m8s");
}
