//! Instruments: named lists of instrument regions.

use vstd::prelude::*;

use crate::error::SoundFontError;
use crate::instrument_info::InstrumentInfo;
use crate::instrument_region::{spec_instrument_regions_from, InstrumentRegion};
use crate::modulator::{ModulatorDropCounts, ModulatorDropReason, ModulatorLevel};
use crate::sample_header::SampleHeader;
use crate::zone::{spec_zones_reason_count, spec_zones_room, Zone};

verus! {

/// Represents an instrument in the SoundFont.
#[derive(Debug)]
pub struct Instrument {
    pub name: String,
    pub regions: Vec<InstrumentRegion>,
}

/// The number of zones an instrument header spans.
pub open spec fn spec_zone_count(info: InstrumentInfo) -> int {
    info.zone_end_index - info.zone_start_index + 1
}

/// The instrument header's zone span lies inside the zone list.
pub open spec fn spec_span_ok(info: InstrumentInfo, zones_len: int) -> bool {
    0 <= info.zone_start_index && 0 <= spec_zone_count(info) && info.zone_start_index
        + spec_zone_count(info) <= zones_len
}

/// How many modulators the first `n` instruments' zones drop for `reason`.
pub open spec fn spec_instruments_reason_count(
    infos: Seq<InstrumentInfo>,
    zones: Seq<Zone>,
    n: int,
    reason: ModulatorDropReason,
) -> nat
    decreases n,
{
    if n <= 0 {
        0
    } else {
        let info = infos[n - 1];
        spec_instruments_reason_count(infos, zones, n - 1, reason) + spec_zones_reason_count(
            zones,
            info.zone_start_index as int,
            info.zone_start_index + spec_zone_count(info),
            ModulatorLevel::Instrument,
            reason,
        )
    }
}

/// `inst` is the instrument built from header `info`.
pub open spec fn spec_instrument_from(
    inst: Instrument,
    info: InstrumentInfo,
    zones: Seq<Zone>,
    samples: Seq<SampleHeader>,
) -> bool {
    &&& inst.name@ == info.name@
    &&& spec_instrument_regions_from(
        inst.regions@,
        zones,
        info.zone_start_index as int,
        info.zone_start_index + spec_zone_count(info),
        samples,
    )
}

/// The drop counts before instrument `i`'s zones are validated, when they were `base`
/// before the first instrument's.
pub open spec fn spec_instrument_base(
    infos: Seq<InstrumentInfo>,
    zones: Seq<Zone>,
    i: int,
    base: spec_fn(ModulatorDropReason) -> nat,
) -> spec_fn(ModulatorDropReason) -> nat {
    |reason: ModulatorDropReason| base(reason) + spec_instruments_reason_count(infos, zones, i, reason)
}

/// The drop counts, `base` before the first instrument, have room for every zone of every
/// instrument in turn.
pub open spec fn spec_instruments_room(
    infos: Seq<InstrumentInfo>,
    zones: Seq<Zone>,
    base: spec_fn(ModulatorDropReason) -> nat,
) -> bool {
    forall|i: int|
        0 <= i < infos.len() - 1 ==> #[trigger] spec_zones_room(
            zones,
            infos[i].zone_start_index as int,
            infos[i].zone_start_index + spec_zone_count(infos[i]),
            ModulatorLevel::Instrument,
            spec_instrument_base(infos, zones, i, base),
        )
}

impl Instrument {
    /// Builds every instrument of the INST list (whose last record is the terminator).
    pub fn create(
        infos: &[InstrumentInfo],
        zones: &[Zone],
        samples: &[SampleHeader],
        counts: &mut ModulatorDropCounts,
    ) -> (r: Result<Vec<Instrument>, SoundFontError>)
        ensures
            infos@.len() <= 1 ==> r is Err && r->Err_0 == SoundFontError::InstrumentNotFound,
            infos@.len() > 1 && (exists|i: int|
                0 <= i < infos@.len() - 1 && !spec_span_ok(
                    #[trigger] infos@[i],
                    zones@.len() as int,
                )) ==> r is Err && {
                let k = r->Err_0->InvalidInstrument_0 as int;
                &&& r->Err_0 is InvalidInstrument
                &&& 0 <= k < infos@.len() - 1
                &&& !spec_span_ok(infos@[k], zones@.len() as int)
                &&& forall|j: int|
                    0 <= j < k ==> spec_span_ok(#[trigger] infos@[j], zones@.len() as int)
            },
            infos@.len() > 1 && (forall|i: int|
                0 <= i < infos@.len() - 1 ==> spec_span_ok(
                    #[trigger] infos@[i],
                    zones@.len() as int,
                )) ==> (r is Ok <==> spec_instruments_room(infos@, zones@, old(counts).counts()))
                && (r is Err ==> r->Err_0 == SoundFontError::InvalidZoneList),
            r is Ok ==> {
                &&& infos@.len() > 1
                &&& r->Ok_0@.len() == infos@.len() - 1
                &&& forall|i: int|
                    0 <= i < r->Ok_0@.len() ==> spec_span_ok(infos@[i], zones@.len() as int)
                        && spec_instrument_from(
                        #[trigger] r->Ok_0@[i],
                        infos@[i],
                        zones@,
                        samples@,
                    )
                &&& forall|reason: ModulatorDropReason|
                    #[trigger] final(counts).count_of(reason) == old(counts).count_of(reason)
                        + spec_instruments_reason_count(
                        infos@,
                        zones@,
                        infos@.len() - 1,
                        reason,
                    )
            },
    {
        if infos.len() <= 1 {
            return Err(SoundFontError::InstrumentNotFound);
        }
        // The last one is the terminator.
        let count = infos.len() - 1;
        let mut k: usize = 0;
        while k < count
            invariant
                k <= count,
                count == infos@.len() - 1,
                forall|t: int|
                    0 <= t < k ==> spec_span_ok(#[trigger] infos@[t], zones@.len() as int),
            decreases count - k,
        {
            let info = &infos[k];
            let start = info.zone_start_index;
            let zone_count = info.zone_end_index as i64 - start as i64 + 1;
            if start < 0 || zone_count < 0 || start as u64 + zone_count as u64 > zones.len() as u64 {
                assert(!spec_span_ok(infos@[k as int], zones@.len() as int));
                let e = SoundFontError::InvalidInstrument(k);
                assert(e->InvalidInstrument_0 == k);
                return Err(e);
            }
            k += 1;
        }

        let mut instruments: Vec<Instrument> = Vec::new();
        let mut i: usize = 0;
        while i < count
            invariant
                i <= count,
                count == infos@.len() - 1,
                forall|t: int|
                    0 <= t < count ==> spec_span_ok(#[trigger] infos@[t], zones@.len() as int),
                instruments@.len() == i,
                forall|t: int|
                    0 <= t < i ==> spec_instrument_from(
                        #[trigger] instruments@[t],
                        infos@[t],
                        zones@,
                        samples@,
                    ),
                forall|reason: ModulatorDropReason|
                    #[trigger] counts.count_of(reason) == old(counts).count_of(reason)
                        + spec_instruments_reason_count(infos@, zones@, i as int, reason),
                forall|t: int|
                    0 <= t < i ==> #[trigger] spec_zones_room(
                        zones@,
                        infos@[t].zone_start_index as int,
                        infos@[t].zone_start_index + spec_zone_count(infos@[t]),
                        ModulatorLevel::Instrument,
                        spec_instrument_base(infos@, zones@, t, old(counts).counts()),
                    ),
            decreases count - i,
        {
            let info = &infos[i];
            assert(spec_span_ok(infos@[i as int], zones@.len() as int));
            let from = info.zone_start_index as usize;
            let zone_count = info.zone_end_index as i64 - info.zone_start_index as i64 + 1;
            let to = from + zone_count as usize;
            assert(counts.counts() =~= spec_instrument_base(
                infos@,
                zones@,
                i as int,
                old(counts).counts(),
            ));
            let regions = match InstrumentRegion::create(zones, from, to, samples, counts) {
                Ok(regions) => regions,
                Err(e) => {
                    assert(!spec_instruments_room(infos@, zones@, old(counts).counts()));
                    return Err(e);
                },
            };
            instruments.push(Instrument { name: info.name.clone(), regions });
            i += 1;
        }
        Ok(instruments)
    }

    /// Gets the name of the instrument.
    pub fn get_name(&self) -> (r: &str)
        ensures
            r@ == self.name@,
    {
        self.name.as_str()
    }

    /// Gets the regions of the instrument.
    pub fn get_regions(&self) -> (r: &[InstrumentRegion])
        ensures
            r@ == self.regions@,
    {
        self.regions.as_slice()
    }
}

} // verus!
