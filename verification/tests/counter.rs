use m8_fsto::show_song::{instrument_kind, meter, InstrumentCounter};
use m8_fsto::song::Instrument;

fn sampler() -> Instrument {
    Instrument::Sampler { name: "S".to_string(), sample_path: "s.wav".to_string() }
}

#[test]
fn a_fresh_counter_has_counted_nothing() {
    let counter = InstrumentCounter::default();
    assert_eq!(counter.total(), 0);
    assert!(counter.used_midi_channel.is_empty());
}

#[test]
fn each_kind_has_its_own_count() {
    let counter = InstrumentCounter::default()
        .count(&Instrument::WavSynth)
        .count(&Instrument::MacroSynth)
        .count(&Instrument::MacroSynth)
        .count(&sampler())
        .count(&Instrument::MIDIOut { channel: 3 })
        .count(&Instrument::FMSynth)
        .count(&Instrument::HyperSynth)
        .count(&Instrument::External { channel: 9 })
        .count(&Instrument::External { channel: 3 })
        .count(&Instrument::Empty);
    assert_eq!(counter.wavsynth_count, 1);
    assert_eq!(counter.macrosynth_count, 2);
    assert_eq!(counter.sampler_count, 1);
    assert_eq!(counter.midi_count, 1);
    assert_eq!(counter.fm_count, 1);
    assert_eq!(counter.hypersynth_count, 1);
    assert_eq!(counter.external_count, 2);
    assert_eq!(counter.total(), 9);
    assert_eq!(counter.used_midi_channel.len(), 2);
    assert!(counter.used_midi_channel.contains(&3));
    assert!(counter.used_midi_channel.contains(&9));
}

#[test]
fn a_whole_song_is_counted() {
    let instruments =
        vec![sampler(), Instrument::Empty, sampler(), Instrument::MIDIOut { channel: 1 }];
    let counter = InstrumentCounter::count_all(&instruments);
    assert_eq!(counter.sampler_count, 2);
    assert_eq!(counter.midi_count, 1);
    assert_eq!(counter.total(), 3);
    assert_eq!(InstrumentCounter::count_all(&Vec::new()).total(), 0);
}

#[test]
fn kinds_have_names() {
    assert_eq!(instrument_kind(&Instrument::WavSynth), "WavSynth");
    assert_eq!(instrument_kind(&Instrument::MacroSynth), "MacroSynth");
    assert_eq!(instrument_kind(&sampler()), "Sample");
    assert_eq!(instrument_kind(&Instrument::MIDIOut { channel: 0 }), "MIDIOut");
    assert_eq!(instrument_kind(&Instrument::FMSynth), "FMSynth");
    assert_eq!(instrument_kind(&Instrument::HyperSynth), "HyperSynth");
    assert_eq!(instrument_kind(&Instrument::External { channel: 0 }), "External");
    assert_eq!(instrument_kind(&Instrument::Empty), "None");
}

#[test]
fn a_meter_is_as_wide_as_its_value() {
    assert_eq!(meter(0), format!("\u{258E}{}", "\u{2591}".repeat(31)));
    assert_eq!(meter(7), format!("\u{2589}\u{258F}{}", "\u{2591}".repeat(31)));
    assert_eq!(meter(0x80), format!("{}\u{258E}{}", "\u{2589}".repeat(16), "\u{2591}".repeat(15)));
    assert_eq!(meter(255), format!("{}\u{258F}", "\u{2589}".repeat(32)));
    for val in 0..=255u8 {
        let bar = val as usize + 1;
        assert_eq!(meter(val).chars().count(), bar / 8 + 1 + (256 - bar) / 8);
    }
}
