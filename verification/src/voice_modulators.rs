//! The modulators of one voice, merged at note-on from the SF2 default modulators and the
//! instrument and preset zones' modulators: an instrument modulator replaces an identical
//! default modulator, and a preset modulator adds its amount to the identical instrument or
//! default one.

use vstd::prelude::*;

use crate::generator_type::GeneratorType;
use crate::modulator::{spec_same_identity, Modulator};

verus! {

/// The number of SF2 default modulators.
pub const DEFAULT_MODULATOR_COUNT: usize = 10;

/// The most non-default modulators a voice keeps; the rest are ignored.
pub const MAX_VOICE_MODULATORS: usize = 32;

/// The SF2 default modulators, in the order of their table.
#[derive(Clone, Copy, Debug, PartialEq, Eq, Structural)]
pub enum DefaultModulator {
    VelocityToAttenuation,
    VelocityToFilterCutoff,
    ChannelPressureToVibrato,
    ModulationWheelToVibrato,
    VolumeToAttenuation,
    PanToPan,
    ExpressionToAttenuation,
    ReverbSend,
    ChorusSend,
    PitchWheelToFineTune,
}

/// The position of a default modulator in the table.
pub open spec fn spec_default_index(m: DefaultModulator) -> int {
    match m {
        DefaultModulator::VelocityToAttenuation => 0,
        DefaultModulator::VelocityToFilterCutoff => 1,
        DefaultModulator::ChannelPressureToVibrato => 2,
        DefaultModulator::ModulationWheelToVibrato => 3,
        DefaultModulator::VolumeToAttenuation => 4,
        DefaultModulator::PanToPan => 5,
        DefaultModulator::ExpressionToAttenuation => 6,
        DefaultModulator::ReverbSend => 7,
        DefaultModulator::ChorusSend => 8,
        DefaultModulator::PitchWheelToFineTune => 9,
    }
}

impl DefaultModulator {
    /// The position of the default modulator in the table.
    pub fn index(self) -> (r: usize)
        ensures
            r == spec_default_index(self),
    {
        match self {
            DefaultModulator::VelocityToAttenuation => 0,
            DefaultModulator::VelocityToFilterCutoff => 1,
            DefaultModulator::ChannelPressureToVibrato => 2,
            DefaultModulator::ModulationWheelToVibrato => 3,
            DefaultModulator::VolumeToAttenuation => 4,
            DefaultModulator::PanToPan => 5,
            DefaultModulator::ExpressionToAttenuation => 6,
            DefaultModulator::ReverbSend => 7,
            DefaultModulator::ChorusSend => 8,
            DefaultModulator::PitchWheelToFineTune => 9,
        }
    }
}

/// A modulator with no transform.
pub open spec fn spec_modulator(source: u16, destination: u16, amount: i16, amount_source: u16) -> Modulator {
    Modulator { source, destination, amount, amount_source, transform: 0 }
}

/// A modulator with no transform.
pub fn default_modulator(source: u16, destination: u16, amount: i16, amount_source: u16) -> (r: Modulator)
    ensures
        r == spec_modulator(source, destination, amount, amount_source),
{
    Modulator { source, destination, amount, amount_source, transform: 0 }
}

/// The SF2.04 default modulator at position `k` (section 8.4).
pub open spec fn spec_default_modulator(k: int) -> Modulator {
    if k == 0 {
        spec_modulator(0x0502, GeneratorType::INITIAL_ATTENUATION, 960, 0)
    } else if k == 1 {
        spec_modulator(0x0102, GeneratorType::INITIAL_FILTER_CUTOFF_FREQUENCY, -2400i16, 0x0D02)
    } else if k == 2 {
        spec_modulator(0x000D, GeneratorType::VIBRATO_LFO_TO_PITCH, 50, 0)
    } else if k == 3 {
        spec_modulator(0x0081, GeneratorType::VIBRATO_LFO_TO_PITCH, 50, 0)
    } else if k == 4 {
        spec_modulator(0x0587, GeneratorType::INITIAL_ATTENUATION, 960, 0)
    } else if k == 5 {
        spec_modulator(0x028A, GeneratorType::PAN, 1000, 0)
    } else if k == 6 {
        spec_modulator(0x058B, GeneratorType::INITIAL_ATTENUATION, 960, 0)
    } else if k == 7 {
        spec_modulator(0x00DB, GeneratorType::REVERB_EFFECTS_SEND, 200, 0)
    } else if k == 8 {
        spec_modulator(0x00DD, GeneratorType::CHORUS_EFFECTS_SEND, 200, 0)
    } else {
        spec_modulator(0x020E, GeneratorType::FINE_TUNE, 12700, 0x0010)
    }
}

/// The default modulator at position `k`.
pub fn default_modulator_at(k: usize) -> (r: Modulator)
    requires
        k < DEFAULT_MODULATOR_COUNT,
    ensures
        r == spec_default_modulator(k as int),
{
    if k == 0 {
        default_modulator(0x0502, GeneratorType::INITIAL_ATTENUATION, 960, 0)
    } else if k == 1 {
        default_modulator(0x0102, GeneratorType::INITIAL_FILTER_CUTOFF_FREQUENCY, -2400, 0x0D02)
    } else if k == 2 {
        default_modulator(0x000D, GeneratorType::VIBRATO_LFO_TO_PITCH, 50, 0)
    } else if k == 3 {
        default_modulator(0x0081, GeneratorType::VIBRATO_LFO_TO_PITCH, 50, 0)
    } else if k == 4 {
        default_modulator(0x0587, GeneratorType::INITIAL_ATTENUATION, 960, 0)
    } else if k == 5 {
        default_modulator(0x028A, GeneratorType::PAN, 1000, 0)
    } else if k == 6 {
        default_modulator(0x058B, GeneratorType::INITIAL_ATTENUATION, 960, 0)
    } else if k == 7 {
        default_modulator(0x00DB, GeneratorType::REVERB_EFFECTS_SEND, 200, 0)
    } else if k == 8 {
        default_modulator(0x00DD, GeneratorType::CHORUS_EFFECTS_SEND, 200, 0)
    } else {
        default_modulator(0x020E, GeneratorType::FINE_TUNE, 12700, 0x0010)
    }
}

/// Whether the voice applies a destination on every block. Other destinations (envelope
/// and LFO timing, key scaling) are only read when the note starts.
pub open spec fn spec_is_realtime_destination(destination: u16) -> bool {
    ||| destination == GeneratorType::MODULATION_LFO_TO_PITCH
    ||| destination == GeneratorType::VIBRATO_LFO_TO_PITCH
    ||| destination == GeneratorType::MODULATION_ENVELOPE_TO_PITCH
    ||| destination == GeneratorType::INITIAL_FILTER_CUTOFF_FREQUENCY
    ||| destination == GeneratorType::INITIAL_FILTER_Q
    ||| destination == GeneratorType::MODULATION_LFO_TO_FILTER_CUTOFF_FREQUENCY
    ||| destination == GeneratorType::MODULATION_ENVELOPE_TO_FILTER_CUTOFF_FREQUENCY
    ||| destination == GeneratorType::MODULATION_LFO_TO_VOLUME
    ||| destination == GeneratorType::CHORUS_EFFECTS_SEND
    ||| destination == GeneratorType::REVERB_EFFECTS_SEND
    ||| destination == GeneratorType::PAN
    ||| destination == GeneratorType::INITIAL_ATTENUATION
    ||| destination == GeneratorType::COARSE_TUNE
    ||| destination == GeneratorType::FINE_TUNE
}

/// Whether the voice applies a destination on every block.
pub fn is_realtime_destination(destination: u16) -> (r: bool)
    ensures
        r == spec_is_realtime_destination(destination),
{
    destination == GeneratorType::MODULATION_LFO_TO_PITCH || destination
        == GeneratorType::VIBRATO_LFO_TO_PITCH || destination
        == GeneratorType::MODULATION_ENVELOPE_TO_PITCH || destination
        == GeneratorType::INITIAL_FILTER_CUTOFF_FREQUENCY || destination
        == GeneratorType::INITIAL_FILTER_Q || destination
        == GeneratorType::MODULATION_LFO_TO_FILTER_CUTOFF_FREQUENCY || destination
        == GeneratorType::MODULATION_ENVELOPE_TO_FILTER_CUTOFF_FREQUENCY || destination
        == GeneratorType::MODULATION_LFO_TO_VOLUME || destination
        == GeneratorType::CHORUS_EFFECTS_SEND || destination == GeneratorType::REVERB_EFFECTS_SEND
        || destination == GeneratorType::PAN || destination == GeneratorType::INITIAL_ATTENUATION
        || destination == GeneratorType::COARSE_TUNE || destination == GeneratorType::FINE_TUNE
}

/// The first position from `k` on whose default modulator has the identity of `m`.
pub open spec fn spec_find_default_from(m: Modulator, k: int) -> Option<int>
    decreases 10 - k,
{
    if k < 0 || k >= 10 {
        None
    } else if spec_same_identity(spec_default_modulator(k), m) {
        Some(k)
    } else {
        spec_find_default_from(m, k + 1)
    }
}

/// The default modulator with the identity of `m`, if there is one.
pub open spec fn spec_find_default(m: Modulator) -> Option<int> {
    spec_find_default_from(m, 0)
}

/// A default modulator found from `k` on is one of the table's, at or after `k`.
proof fn lemma_find_default_in_table(m: Modulator, k: int)
    ensures
        spec_find_default_from(m, k) matches Some(j) ==> k <= j < 10,
    decreases 10 - k,
{
    if 0 <= k < 10 && !spec_same_identity(spec_default_modulator(k), m) {
        lemma_find_default_in_table(m, k + 1);
    }
}

/// An item found from `i` on is one of the items, at or after `i`.
proof fn lemma_find_item_in_items(items: Seq<Modulator>, m: Modulator, i: int)
    ensures
        spec_find_item_from(items, m, i) matches Some(j) ==> i <= j < items.len(),
    decreases items.len() - i,
{
    if 0 <= i < items.len() && !spec_same_identity(items[i], m) {
        lemma_find_item_in_items(items, m, i + 1);
    }
}

/// The default modulator with the identity of `m`, if there is one.
fn find_default(m: &Modulator) -> (r: Option<usize>)
    ensures
        r == match spec_find_default(*m) {
            Some(k) => Some(k as usize),
            None => None::<usize>,
        },
        r matches Some(k) ==> k < DEFAULT_MODULATOR_COUNT,
        spec_find_default(*m) matches Some(j) ==> 0 <= j < 10,
{
    proof {
        lemma_find_default_in_table(*m, 0);
    }
    let mut k: usize = 0;
    while k < DEFAULT_MODULATOR_COUNT
        invariant
            k <= 10,
            spec_find_default(*m) == spec_find_default_from(*m, k as int),
        decreases 10 - k,
    {
        let d = default_modulator_at(k);
        if d.same_identity(m) {
            return Some(k);
        }
        k += 1;
    }
    None
}

/// The merged modulators of a voice: the non-default modulators with their amounts, and
/// the amount of each default modulator.
#[verifier::ext_equal]
pub struct MergeView {
    pub items: Seq<Modulator>,
    pub amounts: Seq<int>,
    pub defaults: Seq<int>,
}

/// The merge before any zone modulator: no item, and the SF2 default amounts, with the
/// velocity to filter cutoff modulator off when the setting turns it off.
pub open spec fn spec_merge_start(enable_velocity_to_filter_cutoff: bool) -> MergeView {
    MergeView {
        items: Seq::empty(),
        amounts: Seq::empty(),
        defaults: Seq::new(
            10,
            |k: int|
                if k == 1 && !enable_velocity_to_filter_cutoff {
                    0
                } else {
                    spec_default_modulator(k).amount as int
                },
        ),
    }
}

/// `v` with `m` appended as a new item, when there is room for it.
pub open spec fn spec_push_item(v: MergeView, m: Modulator) -> MergeView {
    if v.items.len() < 32 {
        MergeView { items: v.items.push(m), amounts: v.amounts.push(m.amount as int), ..v }
    } else {
        v
    }
}

/// The first item from `i` on with the identity of `m`, if there is one.
pub open spec fn spec_find_item_from(items: Seq<Modulator>, m: Modulator, i: int) -> Option<int>
    decreases items.len() - i,
{
    if i < 0 || i >= items.len() {
        None
    } else if spec_same_identity(items[i], m) {
        Some(i)
    } else {
        spec_find_item_from(items, m, i + 1)
    }
}

/// An instrument modulator merged: it replaces the amount of an identical default
/// modulator, or becomes an item.
pub open spec fn spec_instrument_step(v: MergeView, m: Modulator) -> MergeView {
    match spec_find_default(m) {
        Some(k) => MergeView { defaults: v.defaults.update(k, m.amount as int), ..v },
        None => spec_push_item(v, m),
    }
}

/// A preset modulator merged: it adds its amount to an identical default modulator or
/// item, or becomes an item.
pub open spec fn spec_preset_step(v: MergeView, m: Modulator) -> MergeView {
    match spec_find_default(m) {
        Some(k) => MergeView { defaults: v.defaults.update(k, v.defaults[k] + m.amount), ..v },
        None => match spec_find_item_from(v.items, m, 0) {
            Some(i) => MergeView { amounts: v.amounts.update(i, v.amounts[i] + m.amount), ..v },
            None => spec_push_item(v, m),
        },
    }
}

/// The merge after the first `n` instrument modulators.
pub open spec fn spec_merge_instrument(v: MergeView, ms: Seq<Modulator>, n: int) -> MergeView
    decreases n,
{
    if n <= 0 {
        v
    } else {
        spec_instrument_step(spec_merge_instrument(v, ms, n - 1), ms[n - 1])
    }
}

/// The merge after the first `n` preset modulators.
pub open spec fn spec_merge_preset(v: MergeView, ms: Seq<Modulator>, n: int) -> MergeView
    decreases n,
{
    if n <= 0 {
        v
    } else {
        spec_preset_step(spec_merge_preset(v, ms, n - 1), ms[n - 1])
    }
}

/// The merged modulators of a voice: the defaults, then the instrument's and the preset's
/// modulators when the setting allows SoundFont modulators.
pub open spec fn spec_merged(
    instrument: Seq<Modulator>,
    preset: Seq<Modulator>,
    enable_soundfont_modulators: bool,
    enable_velocity_to_filter_cutoff: bool,
) -> MergeView {
    let start = spec_merge_start(enable_velocity_to_filter_cutoff);
    if enable_soundfont_modulators {
        let after = spec_merge_instrument(start, instrument, instrument.len() as int);
        spec_merge_preset(after, preset, preset.len() as int)
    } else {
        start
    }
}

/// The amount of default modulator `k` after the first `n` instrument modulators: that of
/// the last of them with its identity, or `base` when none has it.
pub open spec fn spec_instrument_default(ms: Seq<Modulator>, k: int, n: int, base: int) -> int
    decreases n,
{
    if n <= 0 {
        base
    } else if spec_find_default(ms[n - 1]) == Some(k) {
        ms[n - 1].amount as int
    } else {
        spec_instrument_default(ms, k, n - 1, base)
    }
}

/// The sum of the amounts of the first `n` preset modulators with the identity of default
/// modulator `k`.
pub open spec fn spec_preset_default_sum(ms: Seq<Modulator>, k: int, n: int) -> int
    decreases n,
{
    if n <= 0 {
        0
    } else {
        spec_preset_default_sum(ms, k, n - 1) + if spec_find_default(ms[n - 1]) == Some(k) {
            ms[n - 1].amount as int
        } else {
            0
        }
    }
}

proof fn lemma_instrument_defaults(v: MergeView, ms: Seq<Modulator>, n: int, k: int)
    requires
        v.defaults.len() == 10,
        0 <= k < 10,
        0 <= n <= ms.len(),
    ensures
        spec_merge_instrument(v, ms, n).defaults.len() == 10,
        spec_merge_instrument(v, ms, n).defaults[k] == spec_instrument_default(
            ms,
            k,
            n,
            v.defaults[k],
        ),
    decreases n,
{
    if n > 0 {
        lemma_instrument_defaults(v, ms, n - 1, k);
        lemma_find_default_in_table(ms[n - 1], 0);
    }
}

proof fn lemma_preset_defaults(v: MergeView, ms: Seq<Modulator>, n: int, k: int)
    requires
        v.defaults.len() == 10,
        0 <= k < 10,
        0 <= n <= ms.len(),
    ensures
        spec_merge_preset(v, ms, n).defaults.len() == 10,
        spec_merge_preset(v, ms, n).defaults[k] == v.defaults[k] + spec_preset_default_sum(
            ms,
            k,
            n,
        ),
    decreases n,
{
    if n > 0 {
        lemma_preset_defaults(v, ms, n - 1, k);
        lemma_find_default_in_table(ms[n - 1], 0);
    }
}

/// With SoundFont modulators on, a default modulator's amount is that of the last
/// instrument modulator with its identity (the SF2 default when there is none), plus the
/// amounts of the preset modulators with its identity.
pub proof fn law_instrument_replaces_and_preset_adds(
    instrument: Seq<Modulator>,
    preset: Seq<Modulator>,
    enable_velocity_to_filter_cutoff: bool,
    k: int,
)
    requires
        0 <= k < 10,
    ensures
        spec_merged(instrument, preset, true, enable_velocity_to_filter_cutoff).defaults[k]
            == spec_instrument_default(
            instrument,
            k,
            instrument.len() as int,
            spec_merge_start(enable_velocity_to_filter_cutoff).defaults[k],
        ) + spec_preset_default_sum(preset, k, preset.len() as int),
{
    let start = spec_merge_start(enable_velocity_to_filter_cutoff);
    lemma_instrument_defaults(start, instrument, instrument.len() as int, k);
    let after = spec_merge_instrument(start, instrument, instrument.len() as int);
    lemma_preset_defaults(after, preset, preset.len() as int, k);
}

/// How many of the items have a destination applied on every block.
pub open spec fn spec_realtime_count(items: Seq<Modulator>) -> int
    decreases items.len(),
{
    if items.len() == 0 {
        0
    } else {
        spec_realtime_count(items.drop_last()) + if spec_is_realtime_destination(
            items.last().destination,
        ) {
            1int
        } else {
            0int
        }
    }
}

/// Every amount of the merge is at most `b` away from 0.
pub open spec fn spec_amounts_within(v: MergeView, b: int) -> bool {
    &&& forall|i: int| 0 <= i < v.amounts.len() ==> -b <= #[trigger] v.amounts[i] <= b
    &&& forall|k: int| 0 <= k < v.defaults.len() ==> -b <= #[trigger] v.defaults[k] <= b
}

/// The modulators that apply to one voice.
pub struct VoiceModulators {
    /// SoundFont modulators that do not override a default modulator.
    pub items: Vec<Modulator>,
    /// The merged amount of each item.
    pub item_amounts: Vec<i64>,
    /// The merged amount of each default modulator.
    pub default_amounts: [i64; 10],
    /// How many items have a destination applied on every block.
    pub realtime_len: usize,
}

impl VoiceModulators {
    /// The merge the modulators hold.
    pub open spec fn view_merge(&self) -> MergeView {
        MergeView {
            items: self.items@,
            amounts: Seq::new(self.item_amounts@.len(), |i: int| self.item_amounts@[i] as int),
            defaults: Seq::new(10, |k: int| self.default_amounts@[k] as int),
        }
    }

    /// No modulator: the SF2 default amounts and no item.
    pub fn new() -> (r: VoiceModulators)
        ensures
            r.view_merge() == spec_merge_start(true),
            r.realtime_len == 0,
    {
        let mut r = VoiceModulators {
            items: Vec::new(),
            item_amounts: Vec::new(),
            default_amounts: [0; 10],
            realtime_len: 0,
        };
        r.reset_defaults(true);
        assert(r.view_merge().items =~= Seq::<Modulator>::empty());
        assert(r.view_merge().amounts =~= Seq::<int>::empty());
        r
    }

    /// Sets every default amount to the SF2 default, the velocity to filter cutoff one to 0
    /// when `enable_velocity_to_filter_cutoff` is off.
    fn reset_defaults(&mut self, enable_velocity_to_filter_cutoff: bool)
        ensures
            final(self).items == old(self).items,
            final(self).item_amounts == old(self).item_amounts,
            final(self).realtime_len == old(self).realtime_len,
            final(self).view_merge().defaults == spec_merge_start(
                enable_velocity_to_filter_cutoff,
            ).defaults,
    {
        let mut k: usize = 0;
        while k < DEFAULT_MODULATOR_COUNT
            invariant
                k <= 10,
                self.items == old(self).items,
                self.item_amounts == old(self).item_amounts,
                self.realtime_len == old(self).realtime_len,
                forall|j: int|
                    0 <= j < k ==> self.default_amounts@[j] as int == spec_merge_start(
                        enable_velocity_to_filter_cutoff,
                    ).defaults[j],
            decreases 10 - k,
        {
            let amount = if k == 1 && !enable_velocity_to_filter_cutoff {
                0
            } else {
                default_modulator_at(k).amount as i64
            };
            self.default_amounts[k] = amount;
            k += 1;
        }
        assert(self.view_merge().defaults =~= spec_merge_start(
            enable_velocity_to_filter_cutoff,
        ).defaults);
    }

    /// The items and their amounts are as many, at most the voice's limit.
    pub open spec fn wf(&self) -> bool {
        &&& self.items@.len() == self.item_amounts@.len()
        &&& self.items@.len() <= MAX_VOICE_MODULATORS
    }

    /// Appends `m` as a new item, when there is room for it.
    fn push(&mut self, m: &Modulator)
        requires
            old(self).wf(),
        ensures
            final(self).wf(),
            final(self).view_merge() == spec_push_item(old(self).view_merge(), *m),
            final(self).default_amounts == old(self).default_amounts,
            final(self).realtime_len == old(self).realtime_len,
    {
        if self.items.len() < MAX_VOICE_MODULATORS {
            self.items.push(*m);
            self.item_amounts.push(m.amount as i64);
            assert(self.view_merge() =~= spec_push_item(old(self).view_merge(), *m));
        } else {
            assert(self.view_merge() =~= old(self).view_merge());
        }
    }

    /// The first item with the identity of `m`, if there is one.
    fn find_item(&self, m: &Modulator) -> (r: Option<usize>)
        ensures
            r == match spec_find_item_from(self.items@, *m, 0) {
                Some(i) => Some(i as usize),
                None => None::<usize>,
            },
            r matches Some(i) ==> i < self.items@.len(),
            spec_find_item_from(self.items@, *m, 0) matches Some(j) ==> 0 <= j < self.items@.len(),
    {
        proof {
            lemma_find_item_in_items(self.items@, *m, 0);
        }
        let mut i: usize = 0;
        while i < self.items.len()
            invariant
                i <= self.items@.len(),
                spec_find_item_from(self.items@, *m, 0) == spec_find_item_from(
                    self.items@,
                    *m,
                    i as int,
                ),
            decreases self.items@.len() - i,
        {
            if self.items[i].same_identity(m) {
                return Some(i);
            }
            i += 1;
        }
        None
    }

    /// Merges the modulators for a new note: the SF2 defaults (the velocity to filter
    /// cutoff one off when `enable_velocity_to_filter_cutoff` is), then, when
    /// `enable_soundfont_modulators` allows them, the instrument's and the preset's.
    pub fn start(
        &mut self,
        instrument: &[Modulator],
        preset: &[Modulator],
        enable_soundfont_modulators: bool,
        enable_velocity_to_filter_cutoff: bool,
    )
        requires
            instrument@.len() + preset@.len() <= u32::MAX,
        ensures
            final(self).wf(),
            final(self).view_merge() == spec_merged(
                instrument@,
                preset@,
                enable_soundfont_modulators,
                enable_velocity_to_filter_cutoff,
            ),
            final(self).realtime_len == spec_realtime_count(final(self).items@),
    {
        self.items = Vec::new();
        self.item_amounts = Vec::new();
        self.reset_defaults(enable_velocity_to_filter_cutoff);
        let ghost start = spec_merge_start(enable_velocity_to_filter_cutoff);
        assert(self.view_merge() =~= start);
        assert(spec_amounts_within(start, 32768)) by {
            assert forall|k: int| 0 <= k < start.defaults.len() implies -32768 <= #[trigger] start.defaults[k]
                <= 32768 by {
                let a = spec_default_modulator(k).amount;
                assert(-32768 <= a <= 32767);
            }
        }
        if enable_soundfont_modulators {
            let mut i: usize = 0;
            while i < instrument.len()
                invariant
                    i <= instrument@.len(),
                    instrument@.len() + preset@.len() <= u32::MAX,
                    self.wf(),
                    self.view_merge() == spec_merge_instrument(start, instrument@, i as int),
                    spec_amounts_within(self.view_merge(), 32768 * (i + 1)),
                decreases instrument@.len() - i,
            {
                let m = instrument[i];
                let ghost before = self.view_merge();
                match find_default(&m) {
                    Some(k) => {
                        self.default_amounts[k] = m.amount as i64;
                        assert(self.view_merge().defaults =~= before.defaults.update(
                            k as int,
                            m.amount as int,
                        ));
                        assert(self.view_merge().amounts =~= before.amounts);
                        assert(self.view_merge() =~= spec_instrument_step(before, m));
                    },
                    None => {
                        self.push(&m);
                    },
                }
                i += 1;
                assert(spec_amounts_within(self.view_merge(), 32768 * (i + 1))) by {
                    let v = self.view_merge();
                    assert forall|x: int| 0 <= x < v.amounts.len() implies -32768 * (i + 1) <= #[trigger] v.amounts[x]
                        <= 32768 * (i + 1) by {
                        if x < before.amounts.len() {
                            assert(v.amounts[x] == before.amounts[x]);
                        }
                    }
                    assert forall|k: int| 0 <= k < v.defaults.len() implies -32768 * (i + 1) <= #[trigger] v.defaults[k]
                        <= 32768 * (i + 1) by {
                        assert(v.defaults[k] == before.defaults[k] || v.defaults[k] == m.amount);
                    }
                }
            }
            let ghost after = self.view_merge();
            let mut j: usize = 0;
            while j < preset.len()
                invariant
                    j <= preset@.len(),
                    instrument@.len() + preset@.len() <= u32::MAX,
                    self.wf(),
                    after == spec_merge_instrument(start, instrument@, instrument@.len() as int),
                    self.view_merge() == spec_merge_preset(after, preset@, j as int),
                    spec_amounts_within(self.view_merge(), 32768 * (instrument@.len() + j + 1)),
                decreases preset@.len() - j,
            {
                let m = preset[j];
                let ghost before = self.view_merge();
                let ghost bound = 32768 * (instrument@.len() + j + 1);
                match find_default(&m) {
                    Some(k) => {
                        assert(-bound <= before.defaults[k as int] <= bound);
                        self.default_amounts[k] = self.default_amounts[k] + m.amount as i64;
                        assert(self.view_merge().defaults =~= before.defaults.update(
                            k as int,
                            before.defaults[k as int] + m.amount,
                        ));
                        assert(self.view_merge().amounts =~= before.amounts);
                        assert(self.view_merge() =~= spec_preset_step(before, m));
                    },
                    None => {
                        match self.find_item(&m) {
                            Some(x) => {
                                assert(-bound <= before.amounts[x as int] <= bound);
                                let a = self.item_amounts[x] + m.amount as i64;
                                self.item_amounts.set(x, a);
                                assert(self.view_merge().amounts =~= before.amounts.update(
                                    x as int,
                                    before.amounts[x as int] + m.amount,
                                ));
                                assert(self.view_merge().defaults =~= before.defaults);
                                assert(self.view_merge() =~= spec_preset_step(before, m));
                            },
                            None => {
                                self.push(&m);
                            },
                        }
                    },
                }
                j += 1;
                assert(spec_amounts_within(self.view_merge(), 32768 * (instrument@.len() + j + 1))) by {
                    let v = self.view_merge();
                    let nb = 32768 * (instrument@.len() + j + 1);
                    assert forall|x: int| 0 <= x < v.amounts.len() implies -nb <= #[trigger] v.amounts[x]
                        <= nb by {
                        if x < before.amounts.len() {
                            assert(v.amounts[x] == before.amounts[x] || v.amounts[x] == before.amounts[x]
                                + m.amount);
                        }
                    }
                    assert forall|k: int| 0 <= k < v.defaults.len() implies -nb <= #[trigger] v.defaults[k]
                        <= nb by {
                        assert(v.defaults[k] == before.defaults[k] || v.defaults[k] == before.defaults[k]
                            + m.amount);
                    }
                }
            }
        }
        let mut count: usize = 0;
        let mut x: usize = 0;
        while x < self.items.len()
            invariant
                x <= self.items@.len(),
                self.items@.len() <= MAX_VOICE_MODULATORS,
                count <= x,
                count == spec_realtime_count(self.items@.take(x as int)),
            decreases self.items@.len() - x,
        {
            assert(self.items@.take(x + 1).drop_last() =~= self.items@.take(x as int));
            if is_realtime_destination(self.items[x].destination) {
                count += 1;
            }
            x += 1;
        }
        assert(self.items@.take(x as int) =~= self.items@);
        self.realtime_len = count;
    }

    /// The merged amount of a default modulator.
    pub fn default_amount(&self, modulator: DefaultModulator) -> (r: i64)
        ensures
            r == self.default_amounts@[spec_default_index(modulator)],
    {
        self.default_amounts[modulator.index()]
    }

    /// True when some item targets a destination that is applied on every block.
    pub fn has_realtime_items(&self) -> (r: bool)
        ensures
            r == (self.realtime_len > 0),
    {
        self.realtime_len > 0
    }
}

/// Each SF2 default modulator reads the source and drives the generator of its name,
/// with the amount (and amount source) SF2.04 section 8.4 gives it.
/// A source's low seven bits are the controller index and bit 7 says whether it is a MIDI
/// controller: note-on velocity is general controller 2, channel pressure 13 and the pitch
/// wheel 14; the modulation wheel is CC 1, volume CC 7, pan CC 10, expression CC 11,
/// reverb send CC 91 and chorus send CC 93.
pub proof fn law_default_modulators_match_their_names(d: DefaultModulator)
    ensures
        ({
            let m = spec_default_modulator(spec_default_index(d));
            let index = m.source % 128;
            let is_cc = m.source / 128 % 2 == 1;
            match d {
                DefaultModulator::VelocityToAttenuation => index == 2 && !is_cc && m.destination
                    == GeneratorType::INITIAL_ATTENUATION && m.amount == 960 && m.amount_source == 0,
                DefaultModulator::VelocityToFilterCutoff => index == 2 && !is_cc && m.destination
                    == GeneratorType::INITIAL_FILTER_CUTOFF_FREQUENCY && m.amount == -2400
                    && m.amount_source == 0x0D02,
                DefaultModulator::ChannelPressureToVibrato => index == 13 && !is_cc && m.destination
                    == GeneratorType::VIBRATO_LFO_TO_PITCH && m.amount == 50 && m.amount_source == 0,
                DefaultModulator::ModulationWheelToVibrato => index == 1 && is_cc && m.destination
                    == GeneratorType::VIBRATO_LFO_TO_PITCH && m.amount == 50 && m.amount_source == 0,
                DefaultModulator::VolumeToAttenuation => index == 7 && is_cc && m.destination
                    == GeneratorType::INITIAL_ATTENUATION && m.amount == 960 && m.amount_source == 0,
                DefaultModulator::PanToPan => index == 10 && is_cc && m.destination
                    == GeneratorType::PAN && m.amount == 1000 && m.amount_source == 0,
                DefaultModulator::ExpressionToAttenuation => index == 11 && is_cc && m.destination
                    == GeneratorType::INITIAL_ATTENUATION && m.amount == 960 && m.amount_source == 0,
                DefaultModulator::ReverbSend => index == 91 && is_cc && m.destination
                    == GeneratorType::REVERB_EFFECTS_SEND && m.amount == 200 && m.amount_source == 0,
                DefaultModulator::ChorusSend => index == 93 && is_cc && m.destination
                    == GeneratorType::CHORUS_EFFECTS_SEND && m.amount == 200 && m.amount_source == 0,
                DefaultModulator::PitchWheelToFineTune => index == 14 && !is_cc && m.destination
                    == GeneratorType::FINE_TUNE && m.amount == 12700 && m.amount_source == 0x0010,
            }
        }),
{
}

} // verus!
