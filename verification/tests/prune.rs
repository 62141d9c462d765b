use m8_fsto::prune_bundle::{
    on_file_blob, prune_action, referenced_samples, removal_result, PruneAction, PruneJob,
};
use m8_fsto::song::Instrument;
use m8_fsto::types::M8FstoErr;

const INSTRUMENTS_AT: usize = 0x13A3E;
const INSTRUMENT_SIZE: usize = 215;

fn song_with(samplers: &[(usize, &str, &str)]) -> Vec<u8> {
    let mut bytes = vec![0u8; 0x1AFE6];
    bytes[..9].copy_from_slice(b"M8VERSION");
    bytes[11] = 4;
    bytes[13] = 0x10;
    for slot in 0..128 {
        bytes[INSTRUMENTS_AT + slot * INSTRUMENT_SIZE] = 0xFF;
    }
    for (slot, name, path) in samplers {
        let at = INSTRUMENTS_AT + slot * INSTRUMENT_SIZE;
        bytes[at] = 0x02;
        bytes[at + 1..at + 1 + name.len()].copy_from_slice(name.as_bytes());
        bytes[at + 0x57..at + 0x57 + path.len()].copy_from_slice(path.as_bytes());
    }
    bytes
}

fn sampler(name: &str, path: &str) -> Instrument {
    Instrument::Sampler { name: name.to_string(), sample_path: path.to_string() }
}

fn texts(list: &[&str]) -> Vec<String> {
    list.iter().map(|s| s.to_string()).collect()
}

fn job(referenced: &[&str]) -> PruneJob {
    PruneJob {
        song_folder: "/b/TUNE".to_string(),
        sample_folder: "/b/TUNE/Samples".to_string(),
        referenced: texts(referenced),
    }
}

#[test]
fn the_references_of_a_bundle_are_gathered() {
    let instruments = vec![
        sampler("A", "Samples/0_a.wav"),
        Instrument::HyperSynth,
        sampler("NONE", ""),
        sampler("B", "Samples/3_b.wav"),
        sampler("A2", "Samples/0_a.wav"),
    ];
    assert_eq!(
        referenced_samples(&instruments),
        Ok(texts(&["Samples/0_a.wav", "Samples/3_b.wav", "Samples/0_a.wav"]))
    );
    assert_eq!(referenced_samples(&Vec::new()), Ok(Vec::new()));
}

#[test]
fn a_reference_from_the_root_breaks_a_bundle() {
    let instruments = vec![
        sampler("A", "Samples/0_a.wav"),
        sampler("B", "/Samples/b.wav"),
        sampler("C", "/Samples/c.wav"),
    ];
    assert_eq!(
        referenced_samples(&instruments),
        Err(M8FstoErr::SampleInBundleNotRelative {
            sample_path: "/Samples/b.wav".to_string(),
            instrument: 1,
        })
    );
}

#[test]
fn the_song_of_a_bundle_becomes_a_job() {
    let bytes = song_with(&[(0, "A", "Samples/0_a.wav"), (5, "B", "Samples/5_b.wav")]);
    assert_eq!(
        on_file_blob("/b/TUNE/a.m8s", &bytes),
        Ok(PruneJob {
            song_folder: "/b/TUNE".to_string(),
            sample_folder: "/b/TUNE/Samples".to_string(),
            referenced: texts(&["Samples/0_a.wav", "Samples/5_b.wav"]),
        })
    );
    let rooted = song_with(&[(4, "A", "/Samples/a.wav")]);
    assert_eq!(
        on_file_blob("/b/TUNE/a.m8s", &rooted),
        Err(M8FstoErr::SampleInBundleNotRelative {
            sample_path: "/Samples/a.wav".to_string(),
            instrument: 4,
        })
    );
    assert_eq!(
        on_file_blob("/", &bytes),
        Err(M8FstoErr::InvalidPath { reason: "Song path has no parent folder".to_string() })
    );
    assert!(matches!(
        on_file_blob("/b/TUNE/a.m8s", &Vec::new()),
        Err(M8FstoErr::UnparseableM8File { .. })
    ));
}

#[test]
fn files_without_a_reference_are_to_remove() {
    let files = texts(&[
        "/b/TUNE/Samples/0_a.wav",
        "/b/TUNE/Samples/1_old.wav",
        "/b/TUNE/Samples/5_b.wav",
        "/b/TUNE/Samples/notes.txt",
    ]);
    assert_eq!(
        job(&["Samples/0_a.wav", "Samples/5_b.wav"]).candidates(&files),
        texts(&["/b/TUNE/Samples/1_old.wav", "/b/TUNE/Samples/notes.txt"])
    );
    assert_eq!(job(&[]).candidates(&files), files);
}

#[test]
fn a_clean_sample_folder_has_nothing_to_remove() {
    let files = texts(&["/b/TUNE/Samples/0_a.wav", "/b/TUNE/Samples/5_b.wav"]);
    let candidates = job(&["Samples/5_b.wav", "Samples/0_a.wav"]).candidates(&files);
    assert_eq!(candidates, Vec::<String>::new());
    assert_eq!(prune_action(true, candidates.len()), PruneAction::Clean);
    assert_eq!(prune_action(false, candidates.len()), PruneAction::Clean);
    assert_eq!(job(&[]).candidates(&Vec::new()), Vec::<String>::new());
}

#[test]
fn files_outside_the_bundle_are_left_alone() {
    let files = texts(&["/elsewhere/x.wav", "/b/TUNE/Samples/x.wav"]);
    assert_eq!(job(&[]).candidates(&files), texts(&["/b/TUNE/Samples/x.wav"]));
}

#[test]
fn a_listing_with_backslashes_is_compared_with_separators() {
    let files = texts(&["/b/TUNE/Samples\\0_a.wav"]);
    assert_eq!(job(&["Samples/0_a.wav"]).candidates(&files), Vec::<String>::new());
}

#[test]
fn a_dry_run_only_reports() {
    assert_eq!(prune_action(true, 3), PruneAction::Report);
    assert_eq!(prune_action(false, 3), PruneAction::Remove);
    assert_eq!(prune_action(true, 0), PruneAction::Clean);
    assert_eq!(prune_action(false, 0), PruneAction::Clean);
}

#[test]
fn every_removal_is_tried_and_failures_are_gathered() {
    let files = texts(&["/s/a.wav", "/s/b.wav", "/s/c.wav"]);
    assert_eq!(removal_result(&files, &vec![None, None, None]), Ok(()));
    assert_eq!(removal_result(&files, &Vec::new()), Ok(()));
    assert_eq!(
        removal_result(&files, &vec![None, Some("busy".to_string()), None]),
        Err(M8FstoErr::FileRemovalFailure {
            path: "/s/b.wav".to_string(),
            reason: "busy".to_string(),
        })
    );
    assert_eq!(
        removal_result(&files, &vec![Some("busy".to_string()), None, Some("gone".to_string())]),
        Err(M8FstoErr::MultiErrs {
            inner: vec![
                M8FstoErr::FileRemovalFailure {
                    path: "/s/a.wav".to_string(),
                    reason: "busy".to_string(),
                },
                M8FstoErr::FileRemovalFailure {
                    path: "/s/c.wav".to_string(),
                    reason: "gone".to_string(),
                },
            ],
        })
    );
}
