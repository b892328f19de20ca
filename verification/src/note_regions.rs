//! Which regions a note on sounds: every region of the preset whose key and velocity
//! ranges hold the note, and in the instrument each of those plays, every region whose
//! ranges hold it.

use vstd::prelude::*;

use crate::generator_type::GeneratorType;
use crate::instrument_region::{spec_range_contains, InstrumentRegion};
use crate::preset_lookup::{spec_find, PresetLookup};
use crate::preset_region::PresetRegion;
use crate::soundfont::SoundFont;
use crate::voice_pool::{spec_requests, SlotChoice, VoicePool, VoiceTag};

verus! {

/// The preset region's key and velocity ranges hold the note.
pub open spec fn spec_preset_region_holds(r: PresetRegion, key: i32, velocity: i32) -> bool {
    spec_range_contains(r.gs@[GeneratorType::KEY_RANGE as int], key as int) && spec_range_contains(
        r.gs@[GeneratorType::VELOCITY_RANGE as int],
        velocity as int,
    )
}

/// The instrument region's key and velocity ranges hold the note.
pub open spec fn spec_instrument_region_holds(r: InstrumentRegion, key: i32, velocity: i32) -> bool {
    spec_range_contains(r.gs@[GeneratorType::KEY_RANGE as int], key as int) && spec_range_contains(
        r.gs@[GeneratorType::VELOCITY_RANGE as int],
        velocity as int,
    )
}

/// The pairs `(j, k)` for preset region `j` with the first `n` regions of its instrument
/// `regions`: one for each of those that holds the note, in order.
pub open spec fn spec_instrument_pairs(
    regions: Seq<InstrumentRegion>,
    j: int,
    key: i32,
    velocity: i32,
    n: int,
) -> Seq<(usize, usize)>
    decreases n,
{
    if n <= 0 {
        Seq::empty()
    } else {
        let before = spec_instrument_pairs(regions, j, key, velocity, n - 1);
        if spec_instrument_region_holds(regions[n - 1], key, velocity) {
            before.push((j as usize, (n - 1) as usize))
        } else {
            before
        }
    }
}

/// The pairs of (preset region, instrument region) indices the first `n` regions of
/// preset `p` sound for the note, in order.
pub open spec fn spec_note_pairs(sf: SoundFont, p: int, key: i32, velocity: i32, n: int) -> Seq<
    (usize, usize),
>
    decreases n,
{
    if n <= 0 {
        Seq::empty()
    } else {
        let before = spec_note_pairs(sf, p, key, velocity, n - 1);
        let pr = sf.presets@[p].regions@[n - 1];
        if spec_preset_region_holds(pr, key, velocity) {
            let regions = sf.instruments@[pr.instrument as int].regions@;
            before + spec_instrument_pairs(regions, n - 1, key, velocity, regions.len() as int)
        } else {
            before
        }
    }
}

/// The regions a note on sounds in preset `preset`: pairs of a preset region index and
/// an index among the regions of the instrument it plays, in the order they start.
pub fn regions_for_note(sf: &SoundFont, preset: usize, key: i32, velocity: i32) -> (r: Vec<
    (usize, usize),
>)
    requires
        sf.wf(),
        preset < sf.presets@.len(),
    ensures
        r@ == spec_note_pairs(
            *sf,
            preset as int,
            key,
            velocity,
            sf.presets@[preset as int].regions@.len() as int,
        ),
{
    let regions = &sf.presets[preset].regions;
    let mut out: Vec<(usize, usize)> = Vec::new();
    let mut j: usize = 0;
    while j < regions.len()
        invariant
            sf.wf(),
            preset < sf.presets@.len(),
            regions@ == sf.presets@[preset as int].regions@,
            j <= regions@.len(),
            out@ == spec_note_pairs(*sf, preset as int, key, velocity, j as int),
        decreases regions@.len() - j,
    {
        let pr = &regions[j];
        assert(pr.wf() && pr.instrument < sf.instruments@.len());
        if pr.contains(key, velocity) {
            let inst = &sf.instruments[pr.instrument];
            let ghost before = out@;
            let mut k: usize = 0;
            while k < inst.regions.len()
                invariant
                    sf.wf(),
                    pr.instrument < sf.instruments@.len(),
                    inst == sf.instruments@[pr.instrument as int],
                    k <= inst.regions@.len(),
                    out@ == before + spec_instrument_pairs(
                        inst.regions@,
                        j as int,
                        key,
                        velocity,
                        k as int,
                    ),
                decreases inst.regions@.len() - k,
            {
                let ir = &inst.regions[k];
                assert(ir.wf());
                if ir.contains(key, velocity) {
                    out.push((j, k));
                    assert(out@ == before + spec_instrument_pairs(
                        inst.regions@,
                        j as int,
                        key,
                        velocity,
                        k + 1,
                    ));
                }
                k += 1;
            }
        }
        j += 1;
    }
    out
}

/// The tag of a voice of channel `channel` and key `key` for the region pair `pair` of
/// preset `p`: its exclusive class is that of the instrument region.
pub open spec fn spec_region_tag(sf: SoundFont, p: int, pair: (usize, usize), channel: i32, key: i32) -> VoiceTag {
    let pr = sf.presets@[p].regions@[pair.0 as int];
    let ir = sf.instruments@[pr.instrument as int].regions@[pair.1 as int];
    VoiceTag { channel, key, exclusive_class: ir.g(GeneratorType::EXCLUSIVE_CLASS) as i32 }
}

/// The tags of the voices a note starts for these region pairs of preset `p`.
pub open spec fn spec_note_tags(
    sf: SoundFont,
    p: int,
    pairs: Seq<(usize, usize)>,
    channel: i32,
    key: i32,
) -> Seq<VoiceTag> {
    Seq::new(pairs.len(), |t: int| spec_region_tag(sf, p, pairs[t], channel, key))
}

/// The voices a note on starts: the preset it plays, the pairs of (preset region,
/// instrument region) indices it sounds, and the slot of each.
pub struct NoteStart {
    pub preset: usize,
    pub regions: Vec<(usize, usize)>,
    pub slots: Vec<SlotChoice>,
}

/// Starts a note: finds the preset that `bank` and `patch` select, the regions that hold
/// the note, and a voice slot for each region in turn. A slot reported busy is for the
/// renderer to steal.
pub fn start_note(
    sf: &SoundFont,
    lookup: &PresetLookup,
    voices: &mut VoicePool,
    channel: i32,
    key: i32,
    velocity: i32,
    bank: i32,
    patch: i32,
) -> (r: NoteStart)
    requires
        sf.wf(),
        old(voices).wf(),
    ensures
        final(voices).wf(),
        final(voices).capacity() == old(voices).capacity(),
        r.preset == spec_find(lookup.map(), lookup.default_index(), bank, patch),
        r.preset < sf.presets@.len() ==> {
            &&& r.regions@ == spec_note_pairs(
                *sf,
                r.preset as int,
                key,
                velocity,
                sf.presets@[r.preset as int].regions@.len() as int,
            )
            &&& (r.slots@, final(voices)@) == spec_requests(
                old(voices)@,
                old(voices).capacity(),
                spec_note_tags(*sf, r.preset as int, r.regions@, channel, key),
            )
        },
        r.preset >= sf.presets@.len() ==> r.regions@.len() == 0 && r.slots@.len() == 0
            && final(voices)@ == old(voices)@,
{
    let preset = lookup.find(bank, patch);
    if preset >= sf.presets.len() {
        return NoteStart { preset, regions: Vec::new(), slots: Vec::new() };
    }
    let ghost start = voices@;
    let ghost capacity = voices.capacity();
    let preset_regions = &sf.presets[preset].regions;
    let mut regions: Vec<(usize, usize)> = Vec::new();
    let mut slots: Vec<SlotChoice> = Vec::new();
    let mut j: usize = 0;
    while j < preset_regions.len()
        invariant
            sf.wf(),
            preset < sf.presets@.len(),
            preset_regions@ == sf.presets@[preset as int].regions@,
            j <= preset_regions@.len(),
            regions@ == spec_note_pairs(*sf, preset as int, key, velocity, j as int),
            voices.wf(),
            voices.capacity() == capacity,
            (slots@, voices@) == spec_requests(
                start,
                capacity,
                spec_note_tags(*sf, preset as int, regions@, channel, key),
            ),
        decreases preset_regions@.len() - j,
    {
        let pr = &preset_regions[j];
        assert(pr.wf() && pr.instrument < sf.instruments@.len());
        if pr.contains(key, velocity) {
            let inst = &sf.instruments[pr.instrument];
            let ghost before = regions@;
            let mut k: usize = 0;
            while k < inst.regions.len()
                invariant
                    sf.wf(),
                    preset < sf.presets@.len(),
                    j < sf.presets@[preset as int].regions@.len(),
                    pr == sf.presets@[preset as int].regions@[j as int],
                    pr.instrument < sf.instruments@.len(),
                    inst == sf.instruments@[pr.instrument as int],
                    k <= inst.regions@.len(),
                    regions@ == before + spec_instrument_pairs(
                        inst.regions@,
                        j as int,
                        key,
                        velocity,
                        k as int,
                    ),
                    voices.wf(),
                    voices.capacity() == capacity,
                    (slots@, voices@) == spec_requests(
                        start,
                        capacity,
                        spec_note_tags(*sf, preset as int, regions@, channel, key),
                    ),
                decreases inst.regions@.len() - k,
            {
                let ir = &inst.regions[k];
                assert(ir.wf());
                if ir.contains(key, velocity) {
                    let ghost tags = spec_note_tags(*sf, preset as int, regions@, channel, key);
                    let tag = VoiceTag { channel, key, exclusive_class: ir.get_exclusive_class() };
                    let choice = voices.request(tag);
                    regions.push((j, k));
                    slots.push(choice);
                    proof {
                        let longer = spec_note_tags(*sf, preset as int, regions@, channel, key);
                        assert(longer.drop_last() =~= tags);
                        assert(longer.last() == tag);
                    }
                    assert(regions@ == before + spec_instrument_pairs(
                        inst.regions@,
                        j as int,
                        key,
                        velocity,
                        k + 1,
                    ));
                }
                k += 1;
            }
        }
        j += 1;
    }
    NoteStart { preset, regions, slots }
}

} // verus!
