use crate::song::{slots_of, Instrument, Slot};
use std::collections::HashSet;
use vstd::prelude::*;
use vstd::string::*;

verus! {

broadcast use vstd::std_specs::hash::group_hash_axioms;

/// The name of the kind of an instrument, as the reports show it.
pub open spec fn kind_text(slot: Slot) -> Seq<char> {
    match slot {
        Slot::WavSynth => "WavSynth"@,
        Slot::MacroSynth => "MacroSynth"@,
        Slot::Sampler { .. } => "Sample"@,
        Slot::MIDIOut { .. } => "MIDIOut"@,
        Slot::FMSynth => "FMSynth"@,
        Slot::HyperSynth => "HyperSynth"@,
        Slot::External { .. } => "External"@,
        Slot::Empty => "None"@,
    }
}

/// The name of the kind of an instrument.
pub fn instrument_kind(i: &Instrument) -> (r: &'static str)
    ensures
        r@ == kind_text(i@),
{
    match i {
        Instrument::WavSynth => "WavSynth",
        Instrument::MacroSynth => "MacroSynth",
        Instrument::Sampler { .. } => "Sample",
        Instrument::MIDIOut { .. } => "MIDIOut",
        Instrument::FMSynth => "FMSynth",
        Instrument::HyperSynth => "HyperSynth",
        Instrument::External { .. } => "External",
        Instrument::Empty => "None",
    }
}

/// Counts the instruments of a song by kind, and gathers the MIDI channels
/// that its MIDI and external instruments send on.
#[derive(Debug)]
pub struct InstrumentCounter {
    pub wavsynth_count: usize,
    pub macrosynth_count: usize,
    pub fm_count: usize,
    pub sampler_count: usize,
    pub midi_count: usize,
    pub external_count: usize,
    pub hypersynth_count: usize,
    pub used_midi_channel: HashSet<u8>,
}

/// The mathematical value of an `InstrumentCounter`.
pub struct Tally {
    pub wavsynth: int,
    pub macrosynth: int,
    pub fm: int,
    pub sampler: int,
    pub midi: int,
    pub external: int,
    pub hypersynth: int,
    pub channels: Set<u8>,
}

impl Tally {
    /// A tally in which nothing was counted yet.
    pub open spec fn zero() -> Tally {
        Tally {
            wavsynth: 0,
            macrosynth: 0,
            fm: 0,
            sampler: 0,
            midi: 0,
            external: 0,
            hypersynth: 0,
            channels: Set::empty(),
        }
    }

    /// The number of instruments counted: an empty slot counts for nothing.
    pub open spec fn total(self) -> int {
        self.wavsynth + self.macrosynth + self.fm + self.sampler + self.midi + self.external
            + self.hypersynth
    }

    /// The tally with one more instrument counted.
    pub open spec fn with(self, slot: Slot) -> Tally {
        match slot {
            Slot::Empty => self,
            Slot::WavSynth => Tally { wavsynth: self.wavsynth + 1, ..self },
            Slot::MacroSynth => Tally { macrosynth: self.macrosynth + 1, ..self },
            Slot::Sampler { .. } => Tally { sampler: self.sampler + 1, ..self },
            Slot::MIDIOut { channel } => Tally {
                midi: self.midi + 1,
                channels: self.channels.insert(channel),
                ..self
            },
            Slot::FMSynth => Tally { fm: self.fm + 1, ..self },
            Slot::HyperSynth => Tally { hypersynth: self.hypersynth + 1, ..self },
            Slot::External { channel } => Tally {
                external: self.external + 1,
                channels: self.channels.insert(channel),
                ..self
            },
        }
    }

    /// No count is negative.
    pub open spec fn is_count(self) -> bool {
        self.wavsynth >= 0 && self.macrosynth >= 0 && self.fm >= 0 && self.sampler >= 0
            && self.midi >= 0 && self.external >= 0 && self.hypersynth >= 0
    }
}

/// The tally of the first `upto` slots of an instrument list.
pub open spec fn tally_upto(slots: Seq<Slot>, upto: int) -> Tally
    decreases upto,
{
    if upto <= 0 {
        Tally::zero()
    } else {
        tally_upto(slots, upto - 1).with(slots[upto - 1])
    }
}

/// The tally of some slots counts each of them at most once.
pub proof fn lemma_tally_is_bounded(slots: Seq<Slot>, upto: int)
    requires
        0 <= upto,
    ensures
        tally_upto(slots, upto).is_count(),
        0 <= tally_upto(slots, upto).total() <= upto,
    decreases upto,
{
    if upto > 0 {
        lemma_tally_is_bounded(slots, upto - 1);
    }
}

impl View for InstrumentCounter {
    type V = Tally;

    open spec fn view(&self) -> Tally {
        Tally {
            wavsynth: self.wavsynth_count as int,
            macrosynth: self.macrosynth_count as int,
            fm: self.fm_count as int,
            sampler: self.sampler_count as int,
            midi: self.midi_count as int,
            external: self.external_count as int,
            hypersynth: self.hypersynth_count as int,
            channels: self.used_midi_channel@,
        }
    }
}

impl Default for InstrumentCounter {
    fn default() -> (r: Self)
        ensures
            r@ == Tally::zero(),
    {
        InstrumentCounter {
            wavsynth_count: 0,
            macrosynth_count: 0,
            fm_count: 0,
            sampler_count: 0,
            midi_count: 0,
            external_count: 0,
            hypersynth_count: 0,
            used_midi_channel: HashSet::new(),
        }
    }
}

impl InstrumentCounter {
    /// The number of instruments counted so far.
    pub fn total(&self) -> (r: usize)
        requires
            self@.total() <= usize::MAX,
        ensures
            r == self@.total(),
    {
        self.wavsynth_count + self.macrosynth_count + self.fm_count + self.sampler_count
            + self.midi_count + self.external_count + self.hypersynth_count
    }

    /// Counts one more instrument.
    pub fn count(self, instr: &Instrument) -> (r: Self)
        requires
            self@.total() < usize::MAX,
        ensures
            r@ == self@.with(instr@),
    {
        let mut counter = self;
        match instr {
            Instrument::Empty => (),
            Instrument::WavSynth => counter.wavsynth_count += 1,
            Instrument::MacroSynth => counter.macrosynth_count += 1,
            Instrument::Sampler { .. } => counter.sampler_count += 1,
            Instrument::MIDIOut { channel } => {
                counter.midi_count += 1;
                counter.used_midi_channel.insert(*channel);
            },
            Instrument::FMSynth => counter.fm_count += 1,
            Instrument::HyperSynth => counter.hypersynth_count += 1,
            Instrument::External { channel } => {
                counter.external_count += 1;
                counter.used_midi_channel.insert(*channel);
            },
        };
        counter
    }

    /// Counts the instruments of a whole song.
    pub fn count_all(instruments: &Vec<Instrument>) -> (r: Self)
        ensures
            r@ == tally_upto(slots_of(instruments@), instruments@.len() as int),
            r@.total() <= instruments@.len(),
    {
        let mut counter = InstrumentCounter::default();
        let mut i: usize = 0;
        while i < instruments.len()
            invariant
                i <= instruments.len(),
                counter@ == tally_upto(slots_of(instruments@), i as int),
            decreases instruments.len() - i,
        {
            proof {
                lemma_tally_is_bounded(slots_of(instruments@), i as int);
            }
            counter = counter.count(&instruments[i]);
            i = i + 1;
        }
        proof {
            lemma_tally_is_bounded(slots_of(instruments@), instruments@.len() as int);
        }
        counter
    }
}

/// The character that ends the filled part of a meter: the wider, the more of
/// the next eighth is reached.
pub open spec fn block_char(eighth: int) -> char {
    if eighth == 0 {
        '\u{258F}'
    } else if eighth == 1 {
        '\u{258E}'
    } else if eighth == 2 {
        '\u{258C}'
    } else if eighth == 3 {
        '\u{258D}'
    } else if eighth == 4 {
        '\u{2588}'
    } else if eighth == 5 {
        '\u{258B}'
    } else if eighth == 6 {
        '\u{258A}'
    } else {
        '\u{2589}'
    }
}

/// `count` times the character `c`.
pub open spec fn run_of(c: char, count: int) -> Seq<char> {
    Seq::new(
        if count < 0 {
            0nat
        } else {
            count as nat
        },
        |i: int| c,
    )
}

/// The meter drawn for a value between 0 and 255: one filled block for every
/// eight steps of the value and one, one block for what is left over, and
/// shade up to the full width.
pub open spec fn meter_text(val: u8) -> Seq<char> {
    run_of('\u{2589}', (val + 1) / 8) + seq![block_char((val + 1) % 8)] + run_of(
        '\u{2591}',
        (255 - val) / 8,
    )
}

/// The block for an eighth, as a text.
fn block_text(eighth: usize) -> (r: &'static str)
    requires
        eighth < 8,
    ensures
        r@ == seq![block_char(eighth as int)],
{
    proof {
        reveal_strlit("\u{258F}");
        reveal_strlit("\u{258E}");
        reveal_strlit("\u{258C}");
        reveal_strlit("\u{258D}");
        reveal_strlit("\u{2588}");
        reveal_strlit("\u{258B}");
        reveal_strlit("\u{258A}");
        reveal_strlit("\u{2589}");
    }
    let r = if eighth == 0 {
        "\u{258F}"
    } else if eighth == 1 {
        "\u{258E}"
    } else if eighth == 2 {
        "\u{258C}"
    } else if eighth == 3 {
        "\u{258D}"
    } else if eighth == 4 {
        "\u{2588}"
    } else if eighth == 5 {
        "\u{258B}"
    } else if eighth == 6 {
        "\u{258A}"
    } else {
        "\u{2589}"
    };
    r
}

/// Draws the meter for a value.
pub fn meter(val: u8) -> (r: String)
    ensures
        r@ == meter_text(val),
{
    let bar: usize = val as usize + 1;
    let full: usize = bar / 8;
    let shade: usize = (256 - bar) / 8;
    proof {
        reveal_strlit("\u{2589}");
        reveal_strlit("\u{2591}");
    }
    let mut out = String::new();
    let mut i: usize = 0;
    while i < full
        invariant
            i <= full,
            "\u{2589}"@ == seq!['\u{2589}'],
            out@ == run_of('\u{2589}', i as int),
        decreases full - i,
    {
        out.append("\u{2589}");
        i = i + 1;
    }
    out.append(block_text(bar % 8));
    let ghost head = out@;
    let mut j: usize = 0;
    while j < shade
        invariant
            j <= shade,
            "\u{2591}"@ == seq!['\u{2591}'],
            out@ == head + run_of('\u{2591}', j as int),
        decreases shade - j,
    {
        out.append("\u{2591}");
        j = j + 1;
    }
    out
}

} // verus!
