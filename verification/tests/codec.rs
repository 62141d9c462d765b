use m8_fsto::song::{decode, encode, Instrument};

const INSTRUMENTS_AT: usize = 0x13A3E;
const INSTRUMENT_SIZE: usize = 215;

fn blank_song(major: u8, minor: u8, len: usize) -> Vec<u8> {
    let mut bytes = vec![0u8; len];
    bytes[..9].copy_from_slice(b"M8VERSION");
    bytes[10] = minor << 4;
    bytes[11] = major;
    bytes[13] = 0x10;
    let title = b"TESTSONG";
    bytes[148..148 + title.len()].copy_from_slice(title);
    for slot in 0..128 {
        bytes[INSTRUMENTS_AT + slot * INSTRUMENT_SIZE] = 0xFF;
    }
    bytes
}

fn put_sampler(bytes: &mut Vec<u8>, slot: usize, name: &str, path: &str) {
    let at = INSTRUMENTS_AT + slot * INSTRUMENT_SIZE;
    for b in bytes[at..at + INSTRUMENT_SIZE].iter_mut() {
        *b = 0;
    }
    bytes[at] = 0x02;
    bytes[at + 1..at + 1 + name.len()].copy_from_slice(name.as_bytes());
    bytes[at + 0x57..at + 0x57 + path.len()].copy_from_slice(path.as_bytes());
}

fn sampler(name: &str, path: &str) -> Instrument {
    Instrument::Sampler { name: name.to_string(), sample_path: path.to_string() }
}

#[test]
fn a_song_decodes_into_its_name_and_its_slots() {
    let mut bytes = blank_song(4, 0, 0x1AFE6);
    put_sampler(&mut bytes, 3, "KICK", "/Samples/Kick/808.wav");
    bytes[INSTRUMENTS_AT + 5 * INSTRUMENT_SIZE] = 0x00;
    bytes[INSTRUMENTS_AT + 6 * INSTRUMENT_SIZE] = 0x01;
    let song = decode(&bytes).unwrap();
    assert_eq!(song.name, "TESTSONG");
    assert_eq!(song.instruments.len(), 128);
    assert_eq!(song.instruments[0], Instrument::Empty);
    assert_eq!(song.instruments[3], sampler("KICK", "/Samples/Kick/808.wav"));
    assert_eq!(song.instruments[5], Instrument::WavSynth);
    assert_eq!(song.instruments[6], Instrument::MacroSynth);
    assert_eq!(song.instruments[127], Instrument::Empty);
}

#[test]
fn every_kind_of_instrument_is_told_apart() {
    let mut bytes = blank_song(6, 0, 0x1B6A6);
    for (slot, kind) in [(0usize, 0u8), (1, 1), (2, 2), (3, 3), (4, 4), (5, 5), (6, 6)] {
        let at = INSTRUMENTS_AT + slot * INSTRUMENT_SIZE;
        for b in bytes[at..at + INSTRUMENT_SIZE].iter_mut() {
            *b = 0;
        }
        bytes[at] = kind;
    }
    let song = decode(&bytes).unwrap();
    assert_eq!(song.instruments[0], Instrument::WavSynth);
    assert_eq!(song.instruments[1], Instrument::MacroSynth);
    assert_eq!(song.instruments[2], sampler("", ""));
    assert!(matches!(song.instruments[3], Instrument::MIDIOut { .. }));
    assert_eq!(song.instruments[4], Instrument::FMSynth);
    assert_eq!(song.instruments[5], Instrument::HyperSynth);
    assert!(matches!(song.instruments[6], Instrument::External { .. }));
    assert_eq!(song.instruments[7], Instrument::Empty);
}

#[test]
fn a_short_file_is_refused_by_the_codec() {
    let reason = decode(&vec![0u8; 100]).unwrap_err();
    assert_eq!(reason, "ParseError(\"File is not long enough to be a M8 song\")");
    assert!(decode(&Vec::new()).is_err());
}

#[test]
fn a_file_cut_short_is_refused() {
    let whole = blank_song(4, 0, 0x1AFE6);
    let cut = whole[..0x1AD20].to_vec();
    assert_eq!(decode(&cut).unwrap_err(), "File ends before the end of its song data");
    let whole = blank_song(6, 0, 0x1B6A6);
    let cut = whole[..0x1B65D].to_vec();
    assert_eq!(decode(&cut).unwrap_err(), "File ends before the end of its song data");
    let whole = blank_song(3, 0, 0x1AD1E);
    let cut = whole[..0x1AD1D].to_vec();
    assert_eq!(decode(&cut).unwrap_err(), "File ends before the end of its song data");
    assert_eq!(
        encode(cut, &Vec::new()).unwrap_err(),
        "File ends before the end of its song data"
    );
}

#[test]
fn a_file_that_ends_with_its_last_equalizer_decodes() {
    let mut bytes = blank_song(4, 0, 0x1AF9E);
    put_sampler(&mut bytes, 0, "KICK", "kick.wav");
    let song = decode(&bytes).unwrap();
    assert_eq!(song.instruments[0], sampler("KICK", "kick.wav"));
    let written = encode(bytes, &song.instruments).unwrap();
    assert_eq!(written.len(), 0x1AF9E);
    assert!(decode(&blank_song(4, 0, 0x1AF9D)).is_err());
    let mut bytes = blank_song(6, 0, 0x1B65E);
    put_sampler(&mut bytes, 5, "HAT", "hat.wav");
    let mut instruments = decode(&bytes).unwrap().instruments;
    instruments[5] = sampler("HAT", "/h.wav");
    let again = decode(&encode(bytes, &instruments).unwrap()).unwrap();
    assert_eq!(again.instruments[5], sampler("HAT", "/h.wav"));
    assert!(decode(&blank_song(6, 0, 0x1B65D)).is_err());
}

#[test]
fn whole_files_of_every_generation_decode() {
    assert!(decode(&blank_song(2, 0, 0x1A97E)).is_ok());
    assert!(decode(&blank_song(3, 0, 0x1AD1E)).is_ok());
    assert!(decode(&blank_song(4, 0, 0x1AFE6)).is_ok());
    assert!(decode(&blank_song(4, 1, 0x1B6A6)).is_ok());
    assert!(decode(&blank_song(6, 5, 0x1B6C6)).is_ok());
    assert!(decode(&blank_song(6, 6, 0x1B7C6)).is_ok());
}

#[test]
fn encoding_stores_the_new_paths() {
    let mut bytes = blank_song(4, 1, 0x1B6A6);
    put_sampler(&mut bytes, 0, "KICK", "/Samples/kick.wav");
    put_sampler(&mut bytes, 9, "SNARE", "/Samples/snare.wav");
    let mut instruments = decode(&bytes).unwrap().instruments;
    instruments[9] = sampler("SNARE", "/Drums/snare.wav");
    let written = encode(bytes.clone(), &instruments).unwrap();
    assert_eq!(written.len(), bytes.len());
    let again = decode(&written).unwrap();
    assert_eq!(again.name, "TESTSONG");
    assert_eq!(again.instruments[0], sampler("KICK", "/Samples/kick.wav"));
    assert_eq!(again.instruments[9], sampler("SNARE", "/Drums/snare.wav"));
    assert_eq!(again.instruments[1], Instrument::Empty);
}

#[test]
fn encoding_changes_nothing_but_sample_paths() {
    let mut bytes = blank_song(4, 0, 0x1AFE6);
    put_sampler(&mut bytes, 2, "KICK", "kick.wav");
    let mut wanted = decode(&bytes).unwrap().instruments;
    wanted[2] = sampler("OTHER", "new.wav");
    wanted[3] = sampler("GHOST", "ghost.wav");
    wanted.truncate(4);
    let again = decode(&encode(bytes, &wanted).unwrap()).unwrap();
    assert_eq!(again.instruments.len(), 128);
    assert_eq!(again.instruments[2], sampler("KICK", "new.wav"));
    assert_eq!(again.instruments[3], Instrument::Empty);
}

#[test]
fn decoding_what_was_encoded_gives_the_same_instruments() {
    let mut bytes = blank_song(6, 0, 0x1B6A6);
    put_sampler(&mut bytes, 1, "A", "a.wav");
    put_sampler(&mut bytes, 100, "B", "/x/b.wav");
    bytes[INSTRUMENTS_AT + 7 * INSTRUMENT_SIZE] = 0x00;
    let first = decode(&bytes).unwrap();
    let written = encode(bytes, &first.instruments).unwrap();
    let second = decode(&written).unwrap();
    assert_eq!(first.instruments, second.instruments);
    assert_eq!(first.name, second.name);
}

#[test]
fn an_old_song_cannot_be_written_again() {
    let mut bytes = blank_song(3, 0, 0x1AD1E);
    put_sampler(&mut bytes, 0, "KICK", "kick.wav");
    let instruments = decode(&bytes).unwrap().instruments;
    assert_eq!(
        encode(bytes, &instruments).unwrap_err(),
        "Only version 4.0 or above song can be rewritten"
    );
}

#[test]
fn a_path_without_room_is_refused() {
    let mut bytes = blank_song(4, 0, 0x1AFE6);
    put_sampler(&mut bytes, 0, "KICK", "kick.wav");
    let mut instruments = decode(&bytes).unwrap().instruments;
    instruments[0] = sampler("KICK", &"k".repeat(129));
    assert_eq!(
        encode(bytes.clone(), &instruments).unwrap_err(),
        "Sample path is longer than the song format allows"
    );
    instruments[0] = sampler("KICK", &"k".repeat(128));
    let again = decode(&encode(bytes.clone(), &instruments).unwrap()).unwrap();
    assert_eq!(again.instruments[0], sampler("KICK", &"k".repeat(128)));
    instruments[0] = sampler("KICK", &"é".repeat(65));
    assert!(encode(bytes, &instruments).is_err());
}

#[test]
fn no_bytes_make_the_decoder_fail_hard() {
    let mut state: u64 = 0x2545F4914F6CDD1D;
    for (major, minor, len) in [
        (1u8, 0u8, 0x1A97Eusize),
        (2, 5, 0x1AD1E),
        (3, 0, 0x1AD1E),
        (4, 0, 0x1AF9E),
        (4, 1, 0x1B65E),
        (6, 2, 0x1B6A6),
        (6, 5, 0x1B6C6),
        (6, 6, 0x1B7C6),
        (15, 15, 0x1B7C6),
    ] {
        for round in 0..3 {
            let mut bytes = vec![0u8; len + round * 7];
            for b in bytes.iter_mut() {
                state ^= state << 13;
                state ^= state >> 7;
                state ^= state << 17;
                *b = (state >> 24) as u8;
            }
            bytes[10] = minor << 4;
            bytes[11] = major;
            if round == 2 {
                for slot in 0..128 {
                    bytes[INSTRUMENTS_AT + slot * INSTRUMENT_SIZE] = (slot % 8) as u8;
                }
            }
            if let Ok(song) = decode(&bytes) {
                assert_eq!(song.instruments.len(), 128);
                let _ = encode(bytes, &song.instruments);
            }
        }
    }
}
