//! The pdta list of a SoundFont (SF2.04 section 7): the preset, instrument and
//! sample records, and the presets and instruments built from them.

use vstd::prelude::*;

use crate::binary_reader::{spec_four_cc, ByteReader};
use crate::error::SoundFontError;
use crate::four_cc::{code, FourCC};
use crate::generator::{spec_generator_at, Generator};
use crate::instrument::{
    spec_instrument_from,
    spec_instruments_reason_count,
    spec_instruments_room,
    spec_span_ok,
    Instrument,
};
use crate::instrument_info::{spec_instrument_info_at, InstrumentInfo};
use crate::modulator::{
    spec_bad_modulator_chunk_message,
    spec_modulator_at,
    spec_reason_messages,
    string_views,
    Modulator,
    ModulatorDropCounts,
    ModulatorDropReason,
};
use crate::preset::{
    spec_preset_base,
    spec_preset_fails,
    spec_preset_fails_at,
    spec_preset_from,
    spec_preset_zone_count,
    spec_preset_span_ok,
    spec_presets_reason_count,
    Preset,
};
use crate::preset_info::{spec_preset_info_at, PresetInfo};
use crate::preset_region::spec_preset_zone_error;
use crate::sample_header::{spec_sample_header_at, SampleHeader};
use crate::soundfont_info::{
    advance_counter,
    read_chunk_header,
    read_list_header,
    spec_chunk_size,
    spec_counter_ok,
    spec_list_header,
};
use crate::zone::{
    spec_generators_in_range,
    spec_out_of_range_count,
    spec_out_of_range_message,
    spec_zone_generators,
    spec_zone_modulators,
    Zone,
};
use crate::zone_info::{spec_zone_info_at, ZoneInfo};

verus! {

/// The code of the `k`-th of the nine pdta sub-chunks, in the order the format lists
/// them: phdr, pbag, pmod, pgen, inst, ibag, imod, igen, shdr.
pub open spec fn spec_pdta_code(k: int) -> FourCC {
    if k == 0 {
        code(0x70, 0x68, 0x64, 0x72)
    } else if k == 1 {
        code(0x70, 0x62, 0x61, 0x67)
    } else if k == 2 {
        code(0x70, 0x6d, 0x6f, 0x64)
    } else if k == 3 {
        code(0x70, 0x67, 0x65, 0x6e)
    } else if k == 4 {
        code(0x69, 0x6e, 0x73, 0x74)
    } else if k == 5 {
        code(0x69, 0x62, 0x61, 0x67)
    } else if k == 6 {
        code(0x69, 0x6d, 0x6f, 0x64)
    } else if k == 7 {
        code(0x69, 0x67, 0x65, 0x6e)
    } else {
        code(0x73, 0x68, 0x64, 0x72)
    }
}

/// The position of `id` among the nine pdta sub-chunks, or -1.
pub open spec fn spec_pdta_kind(id: FourCC) -> int {
    if id == spec_pdta_code(0) {
        0
    } else if id == spec_pdta_code(1) {
        1
    } else if id == spec_pdta_code(2) {
        2
    } else if id == spec_pdta_code(3) {
        3
    } else if id == spec_pdta_code(4) {
        4
    } else if id == spec_pdta_code(5) {
        5
    } else if id == spec_pdta_code(6) {
        6
    } else if id == spec_pdta_code(7) {
        7
    } else if id == spec_pdta_code(8) {
        8
    } else {
        -1
    }
}

/// Why sub-chunk `k` of `size` bytes, with `remaining` bytes after its header, cannot be
/// read: a size that is not a positive multiple of its record size, or too few bytes.
/// Modulator sub-chunks of a wrong size are read as empty instead.
pub open spec fn spec_record_error(k: int, size: int, remaining: int) -> Option<SoundFontError> {
    if k == 2 || k == 6 {
        if remaining < size {
            Some(SoundFontError::UnexpectedEndOfData)
        } else {
            None
        }
    } else {
        let record = if k == 0 {
            38
        } else if k == 4 {
            22
        } else if k == 8 {
            46
        } else {
            4
        };
        let e = if k == 0 {
            SoundFontError::InvalidPresetList
        } else if k == 1 || k == 5 {
            SoundFontError::InvalidZoneList
        } else if k == 3 || k == 7 {
            SoundFontError::InvalidGeneratorList
        } else if k == 4 {
            SoundFontError::InvalidInstrumentList
        } else {
            SoundFontError::InvalidSampleHeaderList
        };
        if size % record != 0 || size == 0 {
            Some(e)
        } else if remaining < size {
            Some(SoundFontError::UnexpectedEndOfData)
        } else {
            None
        }
    }
}

/// The warning a sub-chunk of `size` bytes adds: one for a modulator sub-chunk of a
/// wrong size.
pub open spec fn spec_chunk_warnings(k: int, size: int) -> Seq<Seq<char>> {
    if (k == 2 || k == 6) && (size == 0 || size % 10 != 0) {
        seq![spec_bad_modulator_chunk_message(size as nat)]
    } else {
        Seq::empty()
    }
}

/// The sub-chunks of a pdta list, read from `q` while the list's byte counter `pos` is
/// below `end`: where the data of the last sub-chunk of each kind lies (offset and
/// size), the warnings reading them gave, and where reading stopped.
pub open spec fn spec_pdta_chunks(
    d: Seq<u8>,
    q: int,
    pos: int,
    end: int,
    chunks: Map<int, (int, int)>,
    warnings: Seq<Seq<char>>,
) -> Result<(Map<int, (int, int)>, Seq<Seq<char>>, int), SoundFontError>
    decreases d.len() - q,
{
    if pos >= end {
        Ok((chunks, warnings, q))
    } else if q < 0 || d.len() < q + 8 {
        Err(SoundFontError::UnexpectedEndOfData)
    } else {
        let id = spec_four_cc(d, q);
        let size = spec_chunk_size(d, q);
        let k = spec_pdta_kind(id);
        if k < 0 {
            Err(SoundFontError::ListContainsUnknownId(id))
        } else if size < 0 {
            Err(SoundFontError::UnexpectedEndOfData)
        } else {
            match spec_record_error(k, size, d.len() - (q + 8)) {
                Some(e) => Err(e),
                None => if !spec_counter_ok(pos, size) {
                    Err(SoundFontError::UnexpectedEndOfData)
                } else {
                    spec_pdta_chunks(
                        d,
                        q + 8 + size,
                        pos + 8 + size,
                        end,
                        chunks.insert(k, (q + 8, size)),
                        warnings + spec_chunk_warnings(k, size),
                    )
                },
            }
        }
    }
}

/// The first of the sub-chunk kinds `k..9` that is missing.
pub open spec fn spec_first_missing(chunks: Map<int, (int, int)>, k: int) -> Option<int>
    decreases 9 - k,
{
    if k < 0 || k >= 9 {
        None
    } else if !chunks.dom().contains(k) {
        Some(k)
    } else {
        spec_first_missing(chunks, k + 1)
    }
}

/// The pdta list at `p`: where each of its nine sub-chunks lies, the warnings reading
/// them gave and where the list ends, or why it cannot be read.
pub open spec fn spec_pdta_layout(d: Seq<u8>, p: int) -> Result<
    (Map<int, (int, int)>, Seq<Seq<char>>, int),
    SoundFontError,
> {
    match spec_list_header(d, p, code(0x70, 0x64, 0x74, 0x61)) {
        Ok((end, q)) => spec_all_present(spec_pdta_chunks(d, q, 4, end, Map::empty(), Seq::empty())),
        Err(e) => Err(e),
    }
}

/// A pdta list read to its end must have had all nine sub-chunks.
pub open spec fn spec_all_present(
    r: Result<(Map<int, (int, int)>, Seq<Seq<char>>, int), SoundFontError>,
) -> Result<(Map<int, (int, int)>, Seq<Seq<char>>, int), SoundFontError> {
    match r {
        Ok((m, w, qe)) => match spec_first_missing(m, 0) {
            Some(k) => Err(SoundFontError::SubChunkNotFound(spec_pdta_code(k))),
            None => Ok((m, w, qe)),
        },
        Err(e) => Err(e),
    }
}

/// The bag records of a sub-chunk of `size` bytes at `p`.
pub open spec fn spec_zone_infos(d: Seq<u8>, p: int, size: int) -> Seq<ZoneInfo> {
    Seq::new((size / 4) as nat, |i: int| spec_zone_info_at(d, p, size / 4, i))
}

/// The generators of a sub-chunk of `size` bytes at `p`, without its terminal record.
pub open spec fn spec_generators(d: Seq<u8>, p: int, size: int) -> Seq<Generator> {
    Seq::new((size / 4 - 1) as nat, |i: int| spec_generator_at(d, p + 4 * i))
}

/// The modulators of a sub-chunk of `size` bytes at `p`, without its terminal record;
/// none when the size is not a positive multiple of 10.
pub open spec fn spec_modulators(d: Seq<u8>, p: int, size: int) -> Seq<Modulator> {
    if size > 0 && size % 10 == 0 {
        Seq::new((size / 10 - 1) as nat, |i: int| spec_modulator_at(d, p + 10 * i))
    } else {
        Seq::empty()
    }
}

/// `v` are the preset headers of a sub-chunk of `size` bytes at `p`.
pub open spec fn spec_preset_infos_at(v: Seq<PresetInfo>, d: Seq<u8>, p: int, size: int) -> bool {
    &&& v.len() == size / 38
    &&& forall|i: int|
        0 <= i < v.len() ==> spec_preset_info_at(#[trigger] v[i], d, p, size / 38, i)
}

/// `v` are the instrument headers of a sub-chunk of `size` bytes at `p`.
pub open spec fn spec_instrument_infos_at(
    v: Seq<InstrumentInfo>,
    d: Seq<u8>,
    p: int,
    size: int,
) -> bool {
    &&& v.len() == size / 22
    &&& forall|i: int|
        0 <= i < v.len() ==> spec_instrument_info_at(#[trigger] v[i], d, p, size / 22, i)
}

/// `v` are the sample headers of a sub-chunk of `size` bytes at `p`, without its
/// terminal record.
pub open spec fn spec_sample_headers_at(v: Seq<SampleHeader>, d: Seq<u8>, p: int, size: int) -> bool {
    &&& v.len() == size / 46 - 1
    &&& forall|i: int| 0 <= i < v.len() ==> spec_sample_header_at(#[trigger] v[i], d, p + 46 * i)
}

/// `zones` are the zones a bag list describes over these generators and modulators.
pub open spec fn spec_zones_from(
    zones: Seq<Zone>,
    infos: Seq<ZoneInfo>,
    generators: Seq<Generator>,
    modulators: Seq<Modulator>,
) -> bool {
    &&& infos.len() > 1
    &&& zones.len() == infos.len() - 1
    &&& forall|i: int|
        0 <= i < zones.len() ==> (#[trigger] zones[i]).generators@ == spec_zone_generators(
            infos[i],
            generators,
        ) && zones[i].modulators@ == spec_zone_modulators(infos[i], modulators)
}

/// The warning for a bag list whose zones have unusable modulator spans, if any does.
pub open spec fn spec_zone_warnings(infos: Seq<ZoneInfo>, modulator_count: int) -> Seq<Seq<char>> {
    let n = spec_out_of_range_count(infos, modulator_count, infos.len() - 1);
    if n > 0 {
        seq![spec_out_of_range_message(n)]
    } else {
        Seq::<Seq<char>>::empty()
    }
}

/// A bag list from which zones can be built: it has a zone besides its terminal record,
/// and every zone's generators lie inside the generator list.
pub open spec fn spec_bag_ok(bag: Seq<ZoneInfo>, generator_count: int) -> bool {
    &&& bag.len() > 1
    &&& forall|i: int| 0 <= i < bag.len() - 1 ==> spec_generators_in_range(#[trigger] bag[i], generator_count)
}

/// The drop counts of a load before any zone is validated.
pub open spec fn spec_no_drops() -> spec_fn(ModulatorDropReason) -> nat {
    |reason: ModulatorDropReason| 0nat
}

/// The instruments can be built from these headers and zones: there is an instrument
/// besides the terminal record, every span lies inside the zone list, and the drop counts
/// have room for every zone's modulators.
pub open spec fn spec_instruments_buildable(ii: Seq<InstrumentInfo>, iz: Seq<Zone>) -> bool {
    &&& ii.len() > 1
    &&& forall|i: int| 0 <= i < ii.len() - 1 ==> spec_span_ok(#[trigger] ii[i], iz.len() as int)
    &&& spec_instruments_room(ii, iz, spec_no_drops())
}

/// The drop counts after every instrument's zones are validated.
pub open spec fn spec_counts_after_instruments(
    ii: Seq<InstrumentInfo>,
    iz: Seq<Zone>,
) -> spec_fn(ModulatorDropReason) -> nat {
    |reason: ModulatorDropReason| spec_instruments_reason_count(ii, iz, ii.len() - 1, reason)
}

/// The presets can be built from these headers and zones, after the instruments: there is
/// a preset besides the terminal record, every span lies inside the zone list, and no zone
/// stops the load (see `spec_preset_zone_fails`).
pub open spec fn spec_presets_buildable(
    pi: Seq<PresetInfo>,
    pz: Seq<Zone>,
    ii: Seq<InstrumentInfo>,
    iz: Seq<Zone>,
) -> bool {
    &&& pi.len() > 1
    &&& forall|i: int| 0 <= i < pi.len() - 1 ==> spec_preset_span_ok(#[trigger] pi[i], pz.len() as int)
    &&& forall|i: int|
        0 <= i < pi.len() - 1 ==> !#[trigger] spec_preset_fails(
            pi,
            pz,
            i,
            ii.len() - 1,
            spec_counts_after_instruments(ii, iz),
        )
}

/// The presets and instruments of the pdta list that `m` lays out can be built: both bag
/// lists give zones, and every reading of the headers and zones can be built on.
pub open spec fn spec_pdta_buildable(d: Seq<u8>, m: Map<int, (int, int)>) -> bool {
    let pbag = spec_zone_infos(d, m[1].0, m[1].1);
    let pmod = spec_modulators(d, m[2].0, m[2].1);
    let pgen = spec_generators(d, m[3].0, m[3].1);
    let ibag = spec_zone_infos(d, m[5].0, m[5].1);
    let imod = spec_modulators(d, m[6].0, m[6].1);
    let igen = spec_generators(d, m[7].0, m[7].1);
    &&& spec_bag_ok(ibag, igen.len() as int)
    &&& spec_bag_ok(pbag, pgen.len() as int)
    &&& forall|ii: Seq<InstrumentInfo>, iz: Seq<Zone>|
        #[trigger] spec_instrument_infos_at(ii, d, m[4].0, m[4].1) && #[trigger] spec_zones_from(
            iz,
            ibag,
            igen,
            imod,
        ) ==> spec_instruments_buildable(ii, iz)
    &&& forall|ii: Seq<InstrumentInfo>, iz: Seq<Zone>, pi: Seq<PresetInfo>, pz: Seq<Zone>|
        #[trigger] spec_instrument_infos_at(ii, d, m[4].0, m[4].1) && #[trigger] spec_zones_from(
            iz,
            ibag,
            igen,
            imod,
        ) && #[trigger] spec_preset_infos_at(pi, d, m[0].0, m[0].1) && #[trigger] spec_zones_from(
            pz,
            pbag,
            pgen,
            pmod,
        ) ==> spec_presets_buildable(pi, pz, ii, iz)
}

/// `e` is the error of a bag list from which no zones can be built.
pub open spec fn spec_zone_error_is(bag: Seq<ZoneInfo>, e: SoundFontError) -> bool {
    if bag.len() <= 1 {
        e == SoundFontError::ZoneNotFound
    } else {
        e == SoundFontError::InvalidGeneratorList
    }
}

/// `e` is the error of building the instruments of these headers and zones, when they
/// cannot be built: no instrument, else the first instrument whose span leaves the zone
/// list, else drop counts without room.
pub open spec fn spec_instruments_error_is(
    ii: Seq<InstrumentInfo>,
    iz: Seq<Zone>,
    e: SoundFontError,
) -> bool {
    if ii.len() <= 1 {
        e == SoundFontError::InstrumentNotFound
    } else if exists|i: int| 0 <= i < ii.len() - 1 && !spec_span_ok(#[trigger] ii[i], iz.len() as int) {
        let k = e->InvalidInstrument_0 as int;
        &&& e is InvalidInstrument
        &&& 0 <= k < ii.len() - 1
        &&& !spec_span_ok(ii[k], iz.len() as int)
        &&& forall|j: int| 0 <= j < k ==> spec_span_ok(#[trigger] ii[j], iz.len() as int)
    } else {
        e == SoundFontError::InvalidZoneList
    }
}

/// `e` is the error of building the presets of these headers and zones over
/// `instrument_count` instruments and drop counts `base`, when they cannot be built: no
/// preset, else the first preset whose span leaves the zone list, else the error of the
/// first failing zone of the first failing preset.
pub open spec fn spec_presets_error_is(
    pi: Seq<PresetInfo>,
    pz: Seq<Zone>,
    instrument_count: int,
    base: spec_fn(ModulatorDropReason) -> nat,
    e: SoundFontError,
) -> bool {
    if pi.len() <= 1 {
        e == SoundFontError::PresetNotFound
    } else if exists|i: int|
        0 <= i < pi.len() - 1 && !spec_preset_span_ok(#[trigger] pi[i], pz.len() as int) {
        let k = e->InvalidPreset_0 as int;
        &&& e is InvalidPreset
        &&& 0 <= k < pi.len() - 1
        &&& !spec_preset_span_ok(pi[k], pz.len() as int)
        &&& forall|j: int| 0 <= j < k ==> spec_preset_span_ok(#[trigger] pi[j], pz.len() as int)
    } else {
        exists|i: int, k: int|
            0 <= i < pi.len() - 1 && #[trigger] spec_preset_fails_at(
                pi,
                pz,
                i,
                k,
                instrument_count,
                base,
            ) && (forall|j: int|
                0 <= j < i ==> !#[trigger] spec_preset_fails(pi, pz, j, instrument_count, base))
                && (forall|j: int|
                pi[i].zone_start_index <= j < k ==> !#[trigger] spec_preset_fails_at(
                    pi,
                    pz,
                    i,
                    j,
                    instrument_count,
                    base,
                )) && e == spec_preset_zone_error(
                pz,
                pi[i].zone_start_index as int,
                pi[i].zone_start_index + spec_preset_zone_count(pi[i]),
                k,
                i as usize,
                spec_preset_base(pi, pz, i, base),
            )
    }
}

/// `e` is the error of building the presets and instruments of the pdta list that `m`
/// lays out, stage by stage: the instrument zones, the instruments, the preset zones,
/// then the presets.
pub open spec fn spec_pdta_error_is(d: Seq<u8>, m: Map<int, (int, int)>, e: SoundFontError) -> bool {
    let pbag = spec_zone_infos(d, m[1].0, m[1].1);
    let pmod = spec_modulators(d, m[2].0, m[2].1);
    let pgen = spec_generators(d, m[3].0, m[3].1);
    let ibag = spec_zone_infos(d, m[5].0, m[5].1);
    let imod = spec_modulators(d, m[6].0, m[6].1);
    let igen = spec_generators(d, m[7].0, m[7].1);
    if !spec_bag_ok(ibag, igen.len() as int) {
        spec_zone_error_is(ibag, e)
    } else {
        exists|ii: Seq<InstrumentInfo>, iz: Seq<Zone>|
            #[trigger] spec_instrument_infos_at(ii, d, m[4].0, m[4].1) && #[trigger] spec_zones_from(
                iz,
                ibag,
                igen,
                imod,
            ) && if !spec_instruments_buildable(ii, iz) {
                spec_instruments_error_is(ii, iz, e)
            } else if !spec_bag_ok(pbag, pgen.len() as int) {
                spec_zone_error_is(pbag, e)
            } else {
                exists|pi: Seq<PresetInfo>, pz: Seq<Zone>|
                    #[trigger] spec_preset_infos_at(pi, d, m[0].0, m[0].1) && #[trigger] spec_zones_from(
                        pz,
                        pbag,
                        pgen,
                        pmod,
                    ) && spec_presets_error_is(
                        pi,
                        pz,
                        ii.len() - 1,
                        spec_counts_after_instruments(ii, iz),
                        e,
                    )
            }
    }
}

/// The sample headers, instruments, presets and warnings that the nine sub-chunks at
/// `m` describe, through the given headers and zones; `w` are the warnings of reading
/// the sub-chunks.
pub open spec fn spec_pdta_built_from(
    d: Seq<u8>,
    m: Map<int, (int, int)>,
    w: Seq<Seq<char>>,
    samples: Seq<SampleHeader>,
    instruments: Seq<Instrument>,
    presets: Seq<Preset>,
    warnings: Seq<Seq<char>>,
    preset_infos: Seq<PresetInfo>,
    instrument_infos: Seq<InstrumentInfo>,
    preset_zones: Seq<Zone>,
    instrument_zones: Seq<Zone>,
) -> bool {
    let pbag = spec_zone_infos(d, m[1].0, m[1].1);
    let pmod = spec_modulators(d, m[2].0, m[2].1);
    let pgen = spec_generators(d, m[3].0, m[3].1);
    let ibag = spec_zone_infos(d, m[5].0, m[5].1);
    let imod = spec_modulators(d, m[6].0, m[6].1);
    let igen = spec_generators(d, m[7].0, m[7].1);
    &&& spec_sample_headers_at(samples, d, m[8].0, m[8].1)
    &&& spec_preset_infos_at(preset_infos, d, m[0].0, m[0].1)
    &&& spec_instrument_infos_at(instrument_infos, d, m[4].0, m[4].1)
    &&& spec_zones_from(instrument_zones, ibag, igen, imod)
    &&& spec_zones_from(preset_zones, pbag, pgen, pmod)
    &&& instrument_infos.len() > 1
    &&& instruments.len() == instrument_infos.len() - 1
    &&& forall|i: int|
        0 <= i < instruments.len() ==> spec_span_ok(
            instrument_infos[i],
            instrument_zones.len() as int,
        ) && spec_instrument_from(
            #[trigger] instruments[i],
            instrument_infos[i],
            instrument_zones,
            samples,
        )
    &&& preset_infos.len() > 1
    &&& presets.len() == preset_infos.len() - 1
    &&& forall|i: int|
        0 <= i < presets.len() ==> spec_preset_span_ok(preset_infos[i], preset_zones.len() as int)
            && spec_preset_from(
            #[trigger] presets[i],
            preset_infos[i],
            preset_zones,
            instruments.len() as int,
        )
    &&& warnings == w + spec_zone_warnings(ibag, imod.len() as int) + spec_zone_warnings(
        pbag,
        pmod.len() as int,
    ) + spec_reason_messages(
        |r: ModulatorDropReason|
            spec_instruments_reason_count(
                instrument_infos,
                instrument_zones,
                instrument_infos.len() - 1,
                r,
            ) + spec_presets_reason_count(preset_infos, preset_zones, preset_infos.len() - 1, r),
    )
}

/// The sample headers, instruments, presets and warnings that the nine sub-chunks at
/// `m` describe.
#[verifier::opaque]
pub open spec fn spec_pdta_built(
    d: Seq<u8>,
    m: Map<int, (int, int)>,
    w: Seq<Seq<char>>,
    samples: Seq<SampleHeader>,
    instruments: Seq<Instrument>,
    presets: Seq<Preset>,
    warnings: Seq<Seq<char>>,
) -> bool {
    exists|
        preset_infos: Seq<PresetInfo>,
        instrument_infos: Seq<InstrumentInfo>,
        preset_zones: Seq<Zone>,
        instrument_zones: Seq<Zone>,
    |
        #[trigger] spec_pdta_built_from(
            d,
            m,
            w,
            samples,
            instruments,
            presets,
            warnings,
            preset_infos,
            instrument_infos,
            preset_zones,
            instrument_zones,
        )
}

/// What loading the pdta list guarantees of its result: every instrument region has a
/// slot for each generator, and every preset region has one too and names one of the
/// instruments.
pub proof fn lemma_built_regions(
    d: Seq<u8>,
    m: Map<int, (int, int)>,
    w: Seq<Seq<char>>,
    samples: Seq<SampleHeader>,
    instruments: Seq<Instrument>,
    presets: Seq<Preset>,
    warnings: Seq<Seq<char>>,
)
    requires
        spec_pdta_built(d, m, w, samples, instruments, presets, warnings),
    ensures
        forall|k: int, j: int|
            0 <= k < instruments.len() && 0 <= j < instruments[k].regions@.len() ==> (
            #[trigger] instruments[k].regions@[j]).wf(),
        forall|k: int, j: int|
            0 <= k < presets.len() && 0 <= j < presets[k].regions@.len() ==> (
            #[trigger] presets[k].regions@[j]).instrument < instruments.len()
                && presets[k].regions@[j].wf(),
{
    reveal(spec_pdta_built);
    let (pi, ii, pz, iz) = choose|
        preset_infos: Seq<PresetInfo>,
        instrument_infos: Seq<InstrumentInfo>,
        preset_zones: Seq<Zone>,
        instrument_zones: Seq<Zone>,
    |
        #[trigger] spec_pdta_built_from(
            d,
            m,
            w,
            samples,
            instruments,
            presets,
            warnings,
            preset_infos,
            instrument_infos,
            preset_zones,
            instrument_zones,
        );
    assert forall|k: int, j: int|
        0 <= k < instruments.len() && 0 <= j < instruments[k].regions@.len() implies (
        #[trigger] instruments[k].regions@[j]).wf() by {
        assert(spec_instrument_from(instruments[k], ii[k], iz, samples));
    }
    assert forall|k: int, j: int|
        0 <= k < presets.len() && 0 <= j < presets[k].regions@.len() implies (
        #[trigger] presets[k].regions@[j]).instrument < instruments.len()
            && presets[k].regions@[j].wf() by {
        assert(spec_preset_from(presets[k], pi[k], pz, instruments.len() as int));
    }
}

/// The sample headers, presets and instruments of a SoundFont, and the warnings their
/// loading gave.
pub struct SoundFontParameters {
    pub sample_headers: Vec<SampleHeader>,
    pub presets: Vec<Preset>,
    pub instruments: Vec<Instrument>,
    pub warnings: Vec<String>,
}

/// The position of `id` among the nine pdta sub-chunks, or -1.
fn pdta_kind(id: FourCC) -> (r: i32)
    ensures
        r == spec_pdta_kind(id),
{
    if id == (FourCC { b0: 0x70, b1: 0x68, b2: 0x64, b3: 0x72 }) {
        0
    } else if id == (FourCC { b0: 0x70, b1: 0x62, b2: 0x61, b3: 0x67 }) {
        1
    } else if id == (FourCC { b0: 0x70, b1: 0x6d, b2: 0x6f, b3: 0x64 }) {
        2
    } else if id == (FourCC { b0: 0x70, b1: 0x67, b2: 0x65, b3: 0x6e }) {
        3
    } else if id == (FourCC { b0: 0x69, b1: 0x6e, b2: 0x73, b3: 0x74 }) {
        4
    } else if id == (FourCC { b0: 0x69, b1: 0x62, b2: 0x61, b3: 0x67 }) {
        5
    } else if id == (FourCC { b0: 0x69, b1: 0x6d, b2: 0x6f, b3: 0x64 }) {
        6
    } else if id == (FourCC { b0: 0x69, b1: 0x67, b2: 0x65, b3: 0x6e }) {
        7
    } else if id == (FourCC { b0: 0x73, b1: 0x68, b2: 0x64, b3: 0x72 }) {
        8
    } else {
        -1
    }
}



/// The sub-chunks of a pdta list read so far, one slot per kind.
struct PdtaSlots {
    preset_infos: Option<Vec<PresetInfo>>,
    preset_bag: Option<Vec<ZoneInfo>>,
    preset_mods: Option<Vec<Modulator>>,
    preset_gens: Option<Vec<Generator>>,
    inst_infos: Option<Vec<InstrumentInfo>>,
    inst_bag: Option<Vec<ZoneInfo>>,
    inst_mods: Option<Vec<Modulator>>,
    inst_gens: Option<Vec<Generator>>,
    sample_headers: Option<Vec<SampleHeader>>,
}

/// Slot `k` has been filled.
spec fn slot_filled(s: PdtaSlots, k: int) -> bool {
    if k == 0 {
        s.preset_infos is Some
    } else if k == 1 {
        s.preset_bag is Some
    } else if k == 2 {
        s.preset_mods is Some
    } else if k == 3 {
        s.preset_gens is Some
    } else if k == 4 {
        s.inst_infos is Some
    } else if k == 5 {
        s.inst_bag is Some
    } else if k == 6 {
        s.inst_mods is Some
    } else if k == 7 {
        s.inst_gens is Some
    } else {
        s.sample_headers is Some
    }
}

/// Slot `k` holds the records of the sub-chunk of `size` bytes at `off`.
spec fn slot_holds(s: PdtaSlots, k: int, d: Seq<u8>, off: int, size: int) -> bool {
    if k == 0 {
        s.preset_infos is Some && spec_preset_infos_at(s.preset_infos->0@, d, off, size)
    } else if k == 1 {
        s.preset_bag is Some && s.preset_bag->0@ == spec_zone_infos(d, off, size)
    } else if k == 2 {
        s.preset_mods is Some && s.preset_mods->0@ == spec_modulators(d, off, size)
    } else if k == 3 {
        s.preset_gens is Some && s.preset_gens->0@ == spec_generators(d, off, size)
    } else if k == 4 {
        s.inst_infos is Some && spec_instrument_infos_at(s.inst_infos->0@, d, off, size)
    } else if k == 5 {
        s.inst_bag is Some && s.inst_bag->0@ == spec_zone_infos(d, off, size)
    } else if k == 6 {
        s.inst_mods is Some && s.inst_mods->0@ == spec_modulators(d, off, size)
    } else if k == 7 {
        s.inst_gens is Some && s.inst_gens->0@ == spec_generators(d, off, size)
    } else {
        s.sample_headers is Some && spec_sample_headers_at(s.sample_headers->0@, d, off, size)
    }
}

/// Slot `k` of `a` and `b` is the same.
spec fn slot_same(a: PdtaSlots, b: PdtaSlots, k: int) -> bool {
    if k == 0 {
        a.preset_infos == b.preset_infos
    } else if k == 1 {
        a.preset_bag == b.preset_bag
    } else if k == 2 {
        a.preset_mods == b.preset_mods
    } else if k == 3 {
        a.preset_gens == b.preset_gens
    } else if k == 4 {
        a.inst_infos == b.inst_infos
    } else if k == 5 {
        a.inst_bag == b.inst_bag
    } else if k == 6 {
        a.inst_mods == b.inst_mods
    } else if k == 7 {
        a.inst_gens == b.inst_gens
    } else {
        a.sample_headers == b.sample_headers
    }
}

/// The slots agree with the sub-chunks found so far.
spec fn slots_agree(s: PdtaSlots, d: Seq<u8>, m: Map<int, (int, int)>) -> bool {
    &&& forall|k: int| #[trigger] m.dom().contains(k) ==> 0 <= k < 9
    &&& forall|k: int| 0 <= k < 9 ==> (#[trigger] slot_filled(s, k) <==> m.dom().contains(k))
    &&& forall|k: int|
        #[trigger] m.dom().contains(k) ==> slot_holds(s, k, d, m[k].0, m[k].1)
}

/// Reads the data of a sub-chunk of kind `kind` and `size` bytes into its slot.
fn read_slot(
    reader: &mut ByteReader,
    kind: i32,
    size: usize,
    slots: &mut PdtaSlots,
    warnings: &mut Vec<String>,
) -> (r: Result<(), SoundFontError>)
    requires
        old(reader).pos <= old(reader).data@.len(),
        0 <= kind < 9,
    ensures
        final(reader).data == old(reader).data,
        final(reader).pos <= final(reader).data@.len(),
        spec_record_error(kind as int, size as int, old(reader).remaining()) is Some ==> r
            == Err::<(), SoundFontError>(
            spec_record_error(kind as int, size as int, old(reader).remaining())->0,
        ),
        spec_record_error(kind as int, size as int, old(reader).remaining()) is None ==> {
            &&& r is Ok
            &&& final(reader).pos == old(reader).pos + size
            &&& slot_holds(
                *final(slots),
                kind as int,
                old(reader).data@,
                old(reader).pos as int,
                size as int,
            )
            &&& forall|k: int|
                0 <= k < 9 && k != kind ==> #[trigger] slot_same(*final(slots), *old(slots), k)
            &&& string_views(final(warnings)@) == string_views(old(warnings)@)
                + spec_chunk_warnings(kind as int, size as int)
        },
{
    let ghost d = reader.data@;
    let ghost off = reader.pos as int;
    if kind == 0 {
        let v = PresetInfo::read_from_chunk(reader, size)?;
        slots.preset_infos = Some(v);
    } else if kind == 1 {
        let v = ZoneInfo::read_from_chunk(reader, size)?;
        assert(v@ =~= spec_zone_infos(d, off, size as int));
        slots.preset_bag = Some(v);
    } else if kind == 2 {
        let v = Modulator::read_from_chunk(reader, size, warnings)?;
        assert(v@ =~= spec_modulators(d, off, size as int));
        slots.preset_mods = Some(v);
    } else if kind == 3 {
        let v = Generator::read_from_chunk(reader, size)?;
        assert(v@ =~= spec_generators(d, off, size as int));
        slots.preset_gens = Some(v);
    } else if kind == 4 {
        let v = InstrumentInfo::read_from_chunk(reader, size)?;
        slots.inst_infos = Some(v);
    } else if kind == 5 {
        let v = ZoneInfo::read_from_chunk(reader, size)?;
        assert(v@ =~= spec_zone_infos(d, off, size as int));
        slots.inst_bag = Some(v);
    } else if kind == 6 {
        let v = Modulator::read_from_chunk(reader, size, warnings)?;
        assert(v@ =~= spec_modulators(d, off, size as int));
        slots.inst_mods = Some(v);
    } else if kind == 7 {
        let v = Generator::read_from_chunk(reader, size)?;
        assert(v@ =~= spec_generators(d, off, size as int));
        slots.inst_gens = Some(v);
    } else {
        let v = SampleHeader::read_from_chunk(reader, size)?;
        slots.sample_headers = Some(v);
    }
    assert(string_views(warnings@) =~= string_views(old(warnings)@) + spec_chunk_warnings(
        kind as int,
        size as int,
    ));
    Ok(())
}

impl SoundFontParameters {
    /// Reads the pdta list at the reader's position and builds the instruments and
    /// presets it describes.
    pub fn read(reader: &mut ByteReader) -> (r: Result<SoundFontParameters, SoundFontError>)
        requires
            old(reader).pos <= old(reader).data@.len(),
        ensures
            final(reader).data == old(reader).data,
            final(reader).pos <= final(reader).data@.len(),
            spec_pdta_layout(old(reader).data@, old(reader).pos as int) is Err ==> r is Err
                && r->Err_0 == spec_pdta_layout(old(reader).data@, old(reader).pos as int)->Err_0,
            r is Ok ==> {
                let layout = spec_pdta_layout(old(reader).data@, old(reader).pos as int);
                &&& layout is Ok
                &&& final(reader).pos == layout->Ok_0.2
                &&& spec_pdta_built(
                    old(reader).data@,
                    layout->Ok_0.0,
                    layout->Ok_0.1,
                    r->Ok_0.sample_headers@,
                    r->Ok_0.instruments@,
                    r->Ok_0.presets@,
                    string_views(r->Ok_0.warnings@),
                )
            },
            spec_pdta_layout(old(reader).data@, old(reader).pos as int) is Ok && spec_pdta_buildable(
                old(reader).data@,
                spec_pdta_layout(old(reader).data@, old(reader).pos as int)->Ok_0.0,
            ) ==> r is Ok,
            spec_pdta_layout(old(reader).data@, old(reader).pos as int) is Ok && r is Err ==> !spec_pdta_buildable(
                old(reader).data@,
                spec_pdta_layout(old(reader).data@, old(reader).pos as int)->Ok_0.0,
            ),
            r is Err && spec_pdta_layout(old(reader).data@, old(reader).pos as int) is Ok
                ==> spec_pdta_error_is(
                old(reader).data@,
                spec_pdta_layout(old(reader).data@, old(reader).pos as int)->Ok_0.0,
                r->Err_0,
            ),
    {
        let ghost d = reader.data@;
        let ghost p0 = reader.pos as int;
        let end = read_list_header(reader, FourCC { b0: 0x70, b1: 0x64, b2: 0x74, b3: 0x61 })?;
        let ghost q0 = reader.pos as int;
        assert(spec_pdta_layout(d, p0) == spec_all_present(
            spec_pdta_chunks(d, q0, 4, end as int, Map::empty(), Seq::empty()),
        ));
        let ghost mut m: Map<int, (int, int)> = Map::empty();
        let ghost mut w: Seq<Seq<char>> = Seq::empty();
        let mut warnings: Vec<String> = Vec::new();
        let mut slots = PdtaSlots {
            preset_infos: None,
            preset_bag: None,
            preset_mods: None,
            preset_gens: None,
            inst_infos: None,
            inst_bag: None,
            inst_mods: None,
            inst_gens: None,
            sample_headers: None,
        };
        assert(string_views(warnings@) =~= w);
        let mut pos: i32 = 4;
        while pos < end
            invariant
                reader.data == old(reader).data,
                reader.data@ == d,
                reader.pos <= d.len(),
                p0 == old(reader).pos,
                spec_pdta_layout(d, p0) == spec_all_present(
                    spec_pdta_chunks(d, q0, 4, end as int, Map::empty(), Seq::empty()),
                ),
                spec_pdta_chunks(d, q0, 4, end as int, Map::empty(), Seq::empty())
                    == spec_pdta_chunks(d, reader.pos as int, pos as int, end as int, m, w),
                string_views(warnings@) == w,
                slots_agree(slots, d, m),
            decreases d.len() - reader.pos,
        {
            let (id, size) = match read_chunk_header(reader) {
                Some(h) => h,
                None => return Err(SoundFontError::UnexpectedEndOfData),
            };
            let kind = pdta_kind(id);
            if kind < 0 {
                return Err(SoundFontError::ListContainsUnknownId(id));
            }
            if size < 0 {
                return Err(SoundFontError::UnexpectedEndOfData);
            }
            let ghost off = reader.pos as int;
            let ghost before = slots;
            read_slot(reader, kind, size as usize, &mut slots, &mut warnings)?;
            let next = match advance_counter(pos, size) {
                Some(v) => v,
                None => return Err(SoundFontError::UnexpectedEndOfData),
            };
            proof {
                let m2 = m.insert(kind as int, (off, size as int));
                assert forall|k: int| 0 <= k < 9 implies (#[trigger] slot_filled(slots, k)
                    <==> m2.dom().contains(k)) by {
                    if k != kind {
                        assert(slot_same(slots, before, k));
                        assert(slot_filled(before, k) <==> m.dom().contains(k));
                    } else {
                        assert(slot_holds(slots, kind as int, d, off, size as int));
                    }
                }
                assert forall|k: int| #[trigger] m2.dom().contains(k) implies slot_holds(
                    slots,
                    k,
                    d,
                    m2[k].0,
                    m2[k].1,
                ) by {
                    if k != kind {
                        assert(slot_same(slots, before, k));
                        assert(slot_holds(before, k, d, m[k].0, m[k].1));
                    }
                }
                m = m2;
                w = w + spec_chunk_warnings(kind as int, size as int);
            }
            pos = next;
        }
        proof {
            reveal_with_fuel(spec_first_missing, 10);
            assert(spec_pdta_layout(d, p0) == spec_all_present(
                Ok((m, w, reader.pos as int)),
            ));
            assert(slot_filled(slots, 0) == slots.preset_infos is Some);
            assert(slot_filled(slots, 1) == slots.preset_bag is Some);
            assert(slot_filled(slots, 2) == slots.preset_mods is Some);
            assert(slot_filled(slots, 3) == slots.preset_gens is Some);
            assert(slot_filled(slots, 4) == slots.inst_infos is Some);
            assert(slot_filled(slots, 5) == slots.inst_bag is Some);
            assert(slot_filled(slots, 6) == slots.inst_mods is Some);
            assert(slot_filled(slots, 7) == slots.inst_gens is Some);
            assert(slot_filled(slots, 8) == slots.sample_headers is Some);
        }
        let ghost all = slots;
        let PdtaSlots {
            preset_infos,
            preset_bag,
            preset_mods,
            preset_gens,
            inst_infos,
            inst_bag,
            inst_mods,
            inst_gens,
            sample_headers,
        } = slots;
        if preset_infos.is_none() {
            return Err(SoundFontError::SubChunkNotFound(FourCC { b0: 0x70, b1: 0x68, b2: 0x64, b3: 0x72 }));
        }
        if preset_bag.is_none() {
            return Err(SoundFontError::SubChunkNotFound(FourCC { b0: 0x70, b1: 0x62, b2: 0x61, b3: 0x67 }));
        }
        if preset_mods.is_none() {
            return Err(SoundFontError::SubChunkNotFound(FourCC { b0: 0x70, b1: 0x6d, b2: 0x6f, b3: 0x64 }));
        }
        if preset_gens.is_none() {
            return Err(SoundFontError::SubChunkNotFound(FourCC { b0: 0x70, b1: 0x67, b2: 0x65, b3: 0x6e }));
        }
        if inst_infos.is_none() {
            return Err(SoundFontError::SubChunkNotFound(FourCC { b0: 0x69, b1: 0x6e, b2: 0x73, b3: 0x74 }));
        }
        if inst_bag.is_none() {
            return Err(SoundFontError::SubChunkNotFound(FourCC { b0: 0x69, b1: 0x62, b2: 0x61, b3: 0x67 }));
        }
        if inst_mods.is_none() {
            return Err(SoundFontError::SubChunkNotFound(FourCC { b0: 0x69, b1: 0x6d, b2: 0x6f, b3: 0x64 }));
        }
        if inst_gens.is_none() {
            return Err(SoundFontError::SubChunkNotFound(FourCC { b0: 0x69, b1: 0x67, b2: 0x65, b3: 0x6e }));
        }
        if sample_headers.is_none() {
            return Err(SoundFontError::SubChunkNotFound(FourCC { b0: 0x73, b1: 0x68, b2: 0x64, b3: 0x72 }));
        }
        proof {
            assert(spec_first_missing(m, 0) is None);
            assert(slot_holds(all, 0, d, m[0].0, m[0].1));
            assert(slot_holds(all, 1, d, m[1].0, m[1].1));
            assert(slot_holds(all, 2, d, m[2].0, m[2].1));
            assert(slot_holds(all, 3, d, m[3].0, m[3].1));
            assert(slot_holds(all, 4, d, m[4].0, m[4].1));
            assert(slot_holds(all, 5, d, m[5].0, m[5].1));
            assert(slot_holds(all, 6, d, m[6].0, m[6].1));
            assert(slot_holds(all, 7, d, m[7].0, m[7].1));
            assert(slot_holds(all, 8, d, m[8].0, m[8].1));
        }
        let preset_infos = preset_infos.unwrap();
        let preset_bag = preset_bag.unwrap();
        let preset_mods = preset_mods.unwrap();
        let preset_gens = preset_gens.unwrap();
        let inst_infos = inst_infos.unwrap();
        let inst_bag = inst_bag.unwrap();
        let inst_mods = inst_mods.unwrap();
        let inst_gens = inst_gens.unwrap();
        let sample_headers = sample_headers.unwrap();
        let ghost w0 = string_views(warnings@);
        let instrument_zones = match Zone::create(
            inst_bag.as_slice(),
            inst_gens.as_slice(),
            inst_mods.as_slice(),
            &mut warnings,
        ) {
            Ok(zones) => zones,
            Err(e) => {
                assert(!spec_bag_ok(inst_bag@, inst_gens@.len() as int));
                return Err(e);
            },
        };
        let ghost w1 = string_views(warnings@);
        let mut counts = ModulatorDropCounts::default();
        proof {
            let ibag = spec_zone_infos(d, m[5].0, m[5].1);
            let imod = spec_modulators(d, m[6].0, m[6].1);
            let igen = spec_generators(d, m[7].0, m[7].1);
            assert(counts.counts() =~= spec_no_drops());
            assert(spec_instrument_infos_at(inst_infos@, d, m[4].0, m[4].1));
            assert(spec_zones_from(instrument_zones@, ibag, igen, imod));
        }
        let instruments = match Instrument::create(
            inst_infos.as_slice(),
            instrument_zones.as_slice(),
            sample_headers.as_slice(),
            &mut counts,
        ) {
            Ok(instruments) => instruments,
            Err(e) => {
                assert(!spec_instruments_buildable(inst_infos@, instrument_zones@));
                return Err(e);
            },
        };
        let ghost counts_after = counts;
        let preset_zones = match Zone::create(
            preset_bag.as_slice(),
            preset_gens.as_slice(),
            preset_mods.as_slice(),
            &mut warnings,
        ) {
            Ok(zones) => zones,
            Err(e) => {
                assert(!spec_bag_ok(preset_bag@, preset_gens@.len() as int));
                return Err(e);
            },
        };
        proof {
            let pbag = spec_zone_infos(d, m[1].0, m[1].1);
            let pmod = spec_modulators(d, m[2].0, m[2].1);
            let pgen = spec_generators(d, m[3].0, m[3].1);
            assert(counts.counts() =~= spec_counts_after_instruments(inst_infos@, instrument_zones@));
            assert(spec_preset_infos_at(preset_infos@, d, m[0].0, m[0].1));
            assert(spec_zones_from(preset_zones@, pbag, pgen, pmod));
        }
        let presets = match Preset::create(
            preset_infos.as_slice(),
            preset_zones.as_slice(),
            instruments.len(),
            &mut counts,
        ) {
            Ok(presets) => presets,
            Err(e) => {
                assert(!spec_presets_buildable(
                    preset_infos@,
                    preset_zones@,
                    inst_infos@,
                    instrument_zones@,
                ));
                return Err(e);
            },
        };
        let ghost final_counts = counts;
        let ghost w2 = string_views(warnings@);
        let mut messages = counts.into_messages();
        let ghost msgs = string_views(messages@);
        warnings.append(&mut messages);
        proof {
            assert(string_views(warnings@) =~= w2 + msgs);
            final_counts.lemma_messages_by_reason();
            let ibag = spec_zone_infos(d, m[5].0, m[5].1);
            let imod = spec_modulators(d, m[6].0, m[6].1);
            let pbag = spec_zone_infos(d, m[1].0, m[1].1);
            let pmod = spec_modulators(d, m[2].0, m[2].1);
            assert(w1 == w0 + spec_zone_warnings(ibag, imod.len() as int));
            assert(w2 == w1 + spec_zone_warnings(pbag, pmod.len() as int));
            let c = |r: ModulatorDropReason|
                spec_instruments_reason_count(
                    inst_infos@,
                    instrument_zones@,
                    inst_infos@.len() - 1,
                    r,
                ) + spec_presets_reason_count(
                    preset_infos@,
                    preset_zones@,
                    preset_infos@.len() - 1,
                    r,
                );
            assert((|r: ModulatorDropReason| final_counts.count_of(r)) =~= c);
            reveal(spec_pdta_built);
            assert(spec_pdta_built_from(
                d,
                m,
                w,
                sample_headers@,
                instruments@,
                presets@,
                string_views(warnings@),
                preset_infos@,
                inst_infos@,
                preset_zones@,
                instrument_zones@,
            ));
        }
        Ok(SoundFontParameters { sample_headers, presets, instruments, warnings })
    }
}

} // verus!

