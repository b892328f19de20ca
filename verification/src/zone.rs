//! Zones: the generators and modulators that one preset or instrument zone owns.

use vstd::prelude::*;

use crate::error::SoundFontError;
use crate::generator::Generator;
use crate::modulator::{
    lemma_reason_count_bound,
    ModulatorDropCounts,
    spec_reason_count,
    string_views,
    Modulator,
    ModulatorDropReason,
    ModulatorLevel,
};
use crate::text::{decimal_string, spec_decimal};
use crate::zone_info::ZoneInfo;

verus! {

/// The generators and modulators of one zone.
pub struct Zone {
    pub generators: Vec<Generator>,
    pub modulators: Vec<Modulator>,
}

/// The zone's generator span lies inside the generator list (an empty or negative span
/// always does).
pub open spec fn spec_generators_in_range(info: ZoneInfo, len: int) -> bool {
    info.generator_count <= 0 || (0 <= info.generator_index && info.generator_index
        + info.generator_count <= len)
}

/// The zone's modulator span is usable: non-negative and inside the modulator list.
pub open spec fn spec_modulators_in_range(info: ZoneInfo, len: int) -> bool {
    0 <= info.modulator_index && 0 <= info.modulator_count && info.modulator_index
        + info.modulator_count <= len
}

/// The generators a zone owns.
pub open spec fn spec_zone_generators(info: ZoneInfo, generators: Seq<Generator>) -> Seq<Generator> {
    if info.generator_count <= 0 {
        Seq::empty()
    } else {
        generators.subrange(
            info.generator_index as int,
            info.generator_index + info.generator_count,
        )
    }
}

/// The modulators a zone owns; none when its span is unusable.
pub open spec fn spec_zone_modulators(info: ZoneInfo, modulators: Seq<Modulator>) -> Seq<
    Modulator,
> {
    if spec_modulators_in_range(info, modulators.len() as int) {
        modulators.subrange(
            info.modulator_index as int,
            info.modulator_index + info.modulator_count,
        )
    } else {
        Seq::empty()
    }
}

/// How many of the first `n` zones have an unusable modulator span.
pub open spec fn spec_out_of_range_count(infos: Seq<ZoneInfo>, len: int, n: int) -> nat
    decreases n,
{
    if n <= 0 {
        0
    } else {
        spec_out_of_range_count(infos, len, n - 1) + if spec_modulators_in_range(
            infos[n - 1],
            len,
        ) {
            0nat
        } else {
            1nat
        }
    }
}

/// The warning for zones whose modulator span was unusable.
pub open spec fn spec_out_of_range_message(count: nat) -> Seq<char> {
    spec_decimal(count)
        + " zone(s) had an out-of-range modulator index/count; their modulators were dropped"@
}

proof fn lemma_out_of_range_count_bound(infos: Seq<ZoneInfo>, len: int, n: int)
    requires
        0 <= n,
    ensures
        spec_out_of_range_count(infos, len, n) <= n,
    decreases n,
{
    if n > 0 {
        lemma_out_of_range_count_bound(infos, len, n - 1);
    }
}

impl Zone {
    /// A zone with no generators and no modulators.
    pub fn empty() -> (z: Zone)
        ensures
            z.generators@.len() == 0,
            z.modulators@.len() == 0,
    {
        Zone { generators: Vec::new(), modulators: Vec::new() }
    }

    /// Builds a zone's generator/modulator slices from the flat pgen/igen and
    /// pmod/imod lists. An out-of-range modulator index/count (corrupt pbag/ibag
    /// data) drops the zone's modulators rather than failing the load; the
    /// caller counts how many zones this happened to.
    pub fn new(
        info: &ZoneInfo,
        generators: &[Generator],
        modulators: &[Modulator],
        out_of_range_modulator_zones: &mut usize,
    ) -> (z: Zone)
        requires
            spec_generators_in_range(*info, generators@.len() as int),
            !spec_modulators_in_range(*info, modulators@.len() as int) ==> *old(
                out_of_range_modulator_zones,
            ) < usize::MAX,
        ensures
            z.generators@ == spec_zone_generators(*info, generators@),
            z.modulators@ == spec_zone_modulators(*info, modulators@),
            *final(out_of_range_modulator_zones) == *old(out_of_range_modulator_zones) + if spec_modulators_in_range(
                *info,
                modulators@.len() as int,
            ) {
                0int
            } else {
                1int
            },
    {
        let mut generator_segment: Vec<Generator> = Vec::new();
        if info.generator_count > 0 {
            let start = info.generator_index as usize;
            let count = info.generator_count as usize;
            let mut i: usize = 0;
            while i < count
                invariant
                    i <= count,
                    start == info.generator_index,
                    count == info.generator_count,
                    start + count <= generators@.len(),
                    generator_segment@ == generators@.subrange(start as int, start + i),
                decreases count - i,
            {
                generator_segment.push(generators[start + i]);
                i += 1;
                assert(generator_segment@ =~= generators@.subrange(start as int, start + i));
            }
        } else {
            assert(generator_segment@ =~= spec_zone_generators(*info, generators@));
        }

        let in_range = info.modulator_index >= 0 && info.modulator_count >= 0
            && (info.modulator_index as usize) <= modulators.len() && (info.modulator_count as usize)
            <= modulators.len() - info.modulator_index as usize;
        let mut modulator_segment: Vec<Modulator> = Vec::new();
        if !in_range {
            *out_of_range_modulator_zones += 1;
            assert(modulator_segment@ =~= spec_zone_modulators(*info, modulators@));
        } else {
            let start = info.modulator_index as usize;
            let end = start + info.modulator_count as usize;
            let mut i: usize = start;
            while i < end
                invariant
                    start <= i <= end,
                    end <= modulators@.len(),
                    start == info.modulator_index,
                    end == info.modulator_index + info.modulator_count,
                    modulator_segment@ == modulators@.subrange(start as int, i as int),
                decreases end - i,
            {
                modulator_segment.push(modulators[i]);
                i += 1;
                assert(modulator_segment@ =~= modulators@.subrange(start as int, i as int));
            }
        }

        Zone { generators: generator_segment, modulators: modulator_segment }
    }

    /// Builds the zones described by a bag list (whose last record is the terminator).
    /// Zones whose modulator span is unusable lose their modulators, and one warning
    /// says how many did.
    pub fn create(
        infos: &[ZoneInfo],
        generators: &[Generator],
        modulators: &[Modulator],
        warnings: &mut Vec<String>,
    ) -> (r: Result<Vec<Zone>, SoundFontError>)
        ensures
            infos@.len() <= 1 ==> r is Err && r->Err_0 == SoundFontError::ZoneNotFound,
            infos@.len() > 1 && (exists|i: int|
                0 <= i < infos@.len() - 1 && !spec_generators_in_range(
                    #[trigger] infos@[i],
                    generators@.len() as int,
                )) ==> r is Err && r->Err_0 == SoundFontError::InvalidGeneratorList,
            r is Err ==> string_views(final(warnings)@) == string_views(old(warnings)@),
            infos@.len() > 1 && (forall|i: int|
                0 <= i < infos@.len() - 1 ==> spec_generators_in_range(
                    #[trigger] infos@[i],
                    generators@.len() as int,
                )) ==> {
                &&& r is Ok
                &&& r->Ok_0@.len() == infos@.len() - 1
                &&& forall|i: int|
                    0 <= i < r->Ok_0@.len() ==> (#[trigger] r->Ok_0@[i]).generators@
                        == spec_zone_generators(infos@[i], generators@) && r->Ok_0@[i].modulators@
                        == spec_zone_modulators(infos@[i], modulators@)
                &&& string_views(final(warnings)@) == string_views(old(warnings)@) + {
                    let n = spec_out_of_range_count(
                        infos@,
                        modulators@.len() as int,
                        infos@.len() - 1,
                    );
                    if n > 0 {
                        seq![spec_out_of_range_message(n)]
                    } else {
                        Seq::<Seq<char>>::empty()
                    }
                }
            },
    {
        if infos.len() <= 1 {
            return Err(SoundFontError::ZoneNotFound);
        }

        // The last one is the terminator.
        let count = infos.len() - 1;

        let mut k: usize = 0;
        while k < count
            invariant
                k <= count,
                count == infos@.len() - 1,
                forall|t: int|
                    0 <= t < k ==> spec_generators_in_range(
                        #[trigger] infos@[t],
                        generators@.len() as int,
                    ),
            decreases count - k,
        {
            let info = &infos[k];
            let ok = info.generator_count <= 0 || (info.generator_index >= 0
                && (info.generator_index as usize) <= generators.len()
                && (info.generator_count as usize) <= generators.len()
                - info.generator_index as usize);
            if !ok {
                assert(!spec_generators_in_range(infos@[k as int], generators@.len() as int));
                return Err(SoundFontError::InvalidGeneratorList);
            }
            k += 1;
        }

        let mut out_of_range_modulator_zones = 0_usize;
        let mut zones: Vec<Zone> = Vec::new();
        let mut i: usize = 0;
        while i < count
            invariant
                i <= count,
                count == infos@.len() - 1,
                forall|t: int|
                    0 <= t < count ==> spec_generators_in_range(
                        #[trigger] infos@[t],
                        generators@.len() as int,
                    ),
                out_of_range_modulator_zones == spec_out_of_range_count(
                    infos@,
                    modulators@.len() as int,
                    i as int,
                ),
                zones@.len() == i,
                forall|t: int|
                    0 <= t < i ==> (#[trigger] zones@[t]).generators@ == spec_zone_generators(
                        infos@[t],
                        generators@,
                    ) && zones@[t].modulators@ == spec_zone_modulators(infos@[t], modulators@),
            decreases count - i,
        {
            proof {
                lemma_out_of_range_count_bound(infos@, modulators@.len() as int, i as int);
            }
            let zone = Zone::new(&infos[i], generators, modulators, &mut out_of_range_modulator_zones);
            zones.push(zone);
            i += 1;
        }

        if out_of_range_modulator_zones > 0 {
            let mut message = decimal_string(out_of_range_modulator_zones as u64);
            message.append(
                " zone(s) had an out-of-range modulator index/count; their modulators were dropped",
            );
            warnings.push(message);
        }
        assert(string_views(warnings@) =~= string_views(old(warnings)@) + {
            let n = spec_out_of_range_count(infos@, modulators@.len() as int, infos@.len() - 1);
            if n > 0 {
                seq![spec_out_of_range_message(n)]
            } else {
                Seq::<Seq<char>>::empty()
            }
        });
        Ok(zones)
    }
}


/// How many modulators of zones `from..to` zone validation drops for `reason`.
pub open spec fn spec_zones_reason_count(
    zones: Seq<Zone>,
    from: int,
    to: int,
    level: ModulatorLevel,
    reason: ModulatorDropReason,
) -> nat
    decreases to - from,
{
    if to <= from {
        0
    } else {
        spec_zones_reason_count(zones, from, to - 1, level, reason) + spec_reason_count(
            zones[to - 1].modulators@,
            level,
            zones[to - 1].modulators@.len() as int,
            reason,
        )
    }
}

/// How many modulators zones `from..to` have.
pub open spec fn spec_zones_modulator_total(zones: Seq<Zone>, from: int, to: int) -> nat
    decreases to - from,
{
    if to <= from {
        0
    } else {
        spec_zones_modulator_total(zones, from, to - 1) + zones[to - 1].modulators@.len()
    }
}

/// Zone validation drops at most as many modulators as the zones have.
pub proof fn lemma_zones_reason_count_bound(
    zones: Seq<Zone>,
    from: int,
    to: int,
    level: ModulatorLevel,
    reason: ModulatorDropReason,
)
    ensures
        spec_zones_reason_count(zones, from, to, level, reason) <= spec_zones_modulator_total(
            zones,
            from,
            to,
        ),
    decreases to - from,
{
    if to > from {
        lemma_zones_reason_count_bound(zones, from, to - 1, level, reason);
        lemma_reason_count_bound(
            zones[to - 1].modulators@,
            level,
            zones[to - 1].modulators@.len() as int,
            reason,
        );
    }
}

/// Drop counts that were `base` before zones `from..` were validated can take zone `k`'s
/// modulators after those of zones `from..k`.
pub open spec fn spec_zone_room(
    zones: Seq<Zone>,
    from: int,
    k: int,
    level: ModulatorLevel,
    base: spec_fn(ModulatorDropReason) -> nat,
) -> bool {
    forall|reason: ModulatorDropReason|
        #[trigger] base(reason) + spec_zones_reason_count(zones, from, k, level, reason)
            + zones[k].modulators@.len() <= usize::MAX
}

/// Drop counts that were `base` before zones `from..to` were validated have room for
/// every zone in turn.
pub open spec fn spec_zones_room(
    zones: Seq<Zone>,
    from: int,
    to: int,
    level: ModulatorLevel,
    base: spec_fn(ModulatorDropReason) -> nat,
) -> bool {
    forall|k: int| from <= k < to ==> #[trigger] spec_zone_room(zones, from, k, level, base)
}

/// Counts that grew from `base` by the drops of zones `from..k` have room for zone `k`
/// exactly when `spec_zone_room` says so.
pub proof fn lemma_zone_room_now(
    now: ModulatorDropCounts,
    base: spec_fn(ModulatorDropReason) -> nat,
    zones: Seq<Zone>,
    from: int,
    k: int,
    level: ModulatorLevel,
)
    requires
        forall|reason: ModulatorDropReason|
            #[trigger] now.count_of(reason) == base(reason) + spec_zones_reason_count(
                zones,
                from,
                k,
                level,
                reason,
            ),
    ensures
        now.spec_has_room(zones[k].modulators@.len()) == spec_zone_room(zones, from, k, level, base),
{
    let n = zones[k].modulators@.len();
    if now.spec_has_room(n) {
        assert forall|reason: ModulatorDropReason| #[trigger] base(reason)
            + spec_zones_reason_count(zones, from, k, level, reason) + n <= usize::MAX by {
            assert(now.count_of(reason) + n <= usize::MAX);
        }
    }
    if spec_zone_room(zones, from, k, level, base) {
        assert forall|reason: ModulatorDropReason| #[trigger] now.count_of(reason) + n <= usize::MAX by {
            assert(base(reason) + spec_zones_reason_count(zones, from, k, level, reason) + n
                <= usize::MAX);
        }
    }
}

/// Counts that can take every modulator of zones `from..to` have room for each zone in
/// turn.
pub proof fn lemma_zones_room_from_total(
    zones: Seq<Zone>,
    from: int,
    to: int,
    level: ModulatorLevel,
    base: spec_fn(ModulatorDropReason) -> nat,
)
    requires
        forall|reason: ModulatorDropReason|
            #[trigger] base(reason) + spec_zones_modulator_total(zones, from, to) <= usize::MAX,
    ensures
        spec_zones_room(zones, from, to, level, base),
{
    assert forall|k: int| from <= k < to implies #[trigger] spec_zone_room(zones, from, k, level, base) by {
        lemma_zones_modulator_total_grows(zones, from, k + 1, to);
        assert forall|reason: ModulatorDropReason| #[trigger] base(reason)
            + spec_zones_reason_count(zones, from, k, level, reason) + zones[k].modulators@.len()
            <= usize::MAX by {
            lemma_zones_reason_count_bound(zones, from, k, level, reason);
            assert(base(reason) + spec_zones_modulator_total(zones, from, to) <= usize::MAX);
        }
    }
}

/// The modulators of zones `from..mid` are among those of zones `from..to`.
pub proof fn lemma_zones_modulator_total_grows(zones: Seq<Zone>, from: int, mid: int, to: int)
    requires
        mid <= to,
    ensures
        spec_zones_modulator_total(zones, from, mid) <= spec_zones_modulator_total(zones, from, to),
    decreases to - mid,
{
    if mid < to {
        lemma_zones_modulator_total_grows(zones, from, mid, to - 1);
    }
}

} // verus!
