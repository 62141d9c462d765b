use m8_fsto::types::{collapse, combine, M8FstoErr};

fn read_failure(name: &str) -> M8FstoErr {
    M8FstoErr::CannotReadFile { path: name.to_string(), reason: "denied".to_string() }
}

#[test]
fn no_failure_is_success() {
    assert_eq!(collapse(Vec::new()), Ok(()));
}

#[test]
fn one_failure_stands_unwrapped() {
    assert_eq!(collapse(vec![read_failure("a")]), Err(read_failure("a")));
    assert_eq!(combine(None, read_failure("a")), Some(read_failure("a")));
}

#[test]
fn two_failures_make_a_composite_of_two() {
    let expected = M8FstoErr::MultiErrs { inner: vec![read_failure("a"), read_failure("b")] };
    assert_eq!(collapse(vec![read_failure("a"), read_failure("b")]), Err(
        M8FstoErr::MultiErrs { inner: vec![read_failure("a"), read_failure("b")] }
    ));
    assert_eq!(combine(combine(None, read_failure("a")), read_failure("b")), Some(expected));
}

#[test]
fn combining_composites_flattens_them() {
    let left = M8FstoErr::MultiErrs { inner: vec![read_failure("a"), read_failure("b")] };
    let right = M8FstoErr::MultiErrs { inner: vec![read_failure("c"), read_failure("d")] };
    assert_eq!(
        left.combine(right),
        M8FstoErr::MultiErrs {
            inner: vec![
                read_failure("a"),
                read_failure("b"),
                read_failure("c"),
                read_failure("d"),
            ],
        }
    );
}

#[test]
fn a_composite_on_the_right_is_not_nested() {
    let right = M8FstoErr::MultiErrs { inner: vec![read_failure("b"), read_failure("c")] };
    assert_eq!(
        read_failure("a").combine(right),
        M8FstoErr::MultiErrs {
            inner: vec![read_failure("a"), read_failure("b"), read_failure("c")],
        }
    );
}

#[test]
fn a_third_failure_joins_the_composite() {
    let two = combine(combine(None, read_failure("a")), read_failure("b"));
    assert_eq!(
        combine(two, M8FstoErr::PrintError),
        Some(M8FstoErr::MultiErrs {
            inner: vec![read_failure("a"), read_failure("b"), M8FstoErr::PrintError],
        })
    );
}

#[test]
fn collapse_takes_composites_apart() {
    let nested = M8FstoErr::MultiErrs { inner: vec![read_failure("b"), read_failure("c")] };
    assert_eq!(
        collapse(vec![read_failure("a"), nested]),
        Err(M8FstoErr::MultiErrs {
            inner: vec![read_failure("a"), read_failure("b"), read_failure("c")],
        })
    );
    let lone = M8FstoErr::MultiErrs { inner: vec![read_failure("x")] };
    assert_eq!(collapse(vec![lone]), Err(read_failure("x")));
}

#[test]
fn each_failure_has_its_line() {
    let path = "/s/a.m8s".to_string();
    let reason = "why".to_string();
    assert_eq!(M8FstoErr::PrintError.describe(), "Printing error?\n");
    assert_eq!(
        M8FstoErr::UnparseableM8File { path: path.clone(), reason: reason.clone() }.describe(),
        "Can't parse M8 file '\"/s/a.m8s\"' : why\n"
    );
    assert_eq!(
        M8FstoErr::InvalidSearchPattern { pattern: "a[".to_string() }.describe(),
        "Invalid search pattern 'a['\n"
    );
    assert_eq!(
        M8FstoErr::CannotReadFile { path: path.clone(), reason: reason.clone() }.describe(),
        "Cannot read file '\"/s/a.m8s\"' : why\n"
    );
    assert_eq!(
        M8FstoErr::SampleCopyError {
            path: "/a".to_string(),
            to: "/b".to_string(),
            reason: reason.clone(),
        }
        .describe(),
        "Cannot copy file '\"/a\"' to '\"/b\"' : why\n"
    );
    assert_eq!(
        M8FstoErr::SongSerializationError {
            destination: "out.m8s".to_string(),
            reason: reason.clone(),
        }
        .describe(),
        "Error while writing song \"out.m8s\": why\n"
    );
    assert_eq!(
        M8FstoErr::MissingSample { instr: 10, path: "/k.wav".to_string() }.describe(),
        "Missing sample '\"/k.wav\"' for instrument 0A\n"
    );
    assert_eq!(
        M8FstoErr::FolderCreationError { path: "/out".to_string(), reason: reason.clone() }
            .describe(),
        "Cannot create folder '\"/out\"' for bundling : why\n"
    );
    assert_eq!(
        M8FstoErr::SampleInBundleNotRelative {
            sample_path: "/abs.wav".to_string(),
            instrument: 127,
        }
        .describe(),
        "The M8 song has non-relative sample \"/abs.wav\" for instrument 7F\n"
    );
    assert_eq!(
        M8FstoErr::FileRemovalFailure { path: "/x".to_string(), reason: reason.clone() }
            .describe(),
        "Cannot remove file \"/x\" : 'why'\n"
    );
    assert_eq!(
        M8FstoErr::InvalidPath { reason: "nowhere".to_string() }.describe(),
        "Invalid path nowhere\n"
    );
    assert_eq!(
        M8FstoErr::RenameFailure { path: "\"/a b\"".to_string() }.describe(),
        "Cannot rename file or folder \"\"\\\"/a b\\\"\"\"\n"
    );
}

#[test]
fn a_composite_has_one_line_for_each_member() {
    let both = M8FstoErr::MultiErrs {
        inner: vec![
            M8FstoErr::InvalidPath { reason: "one".to_string() },
            M8FstoErr::InvalidPath { reason: "two".to_string() },
        ],
    };
    assert_eq!(both.describe(), "Invalid path one\nInvalid path two\n");
    assert_eq!(M8FstoErr::MultiErrs { inner: Vec::new() }.describe(), "");
}
