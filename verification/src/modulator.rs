//! Modulator records (SF2.04 PMOD/IMOD, section 8.2) and their validation.

use vstd::prelude::*;

use crate::generator_type::GeneratorType;
use crate::binary_reader::{spec_u16_le, ByteReader};
use crate::error::SoundFontError;
use crate::text::{decimal_string, spec_decimal};

verus! {

/// Represents a single modulator record.
#[derive(Clone, Copy, PartialEq, Eq, Debug, Structural)]
pub struct Modulator {
    pub source: u16,
    pub destination: u16,
    pub amount: i16,
    pub amount_source: u16,
    pub transform: u16,
}

/// Whether a modulator list belongs to an instrument or a preset. Preset regions
/// ban extra destinations because preset generators are relative offsets, not
/// absolute values.
#[derive(Clone, Copy, PartialEq, Eq, Debug, Structural)]
pub enum ModulatorLevel {
    Instrument,
    Preset,
}

/// Why a modulator was dropped during region-level validation (SF2.04 8.2.1 for
/// source operators, 8.2.9/8.2.10 for transform/destination).
#[derive(Clone, Copy, PartialEq, Eq, Debug, Structural)]
pub enum ModulatorDropReason {
    ReservedSource,
    PrimarySourceNone,
    Linked,
    /// The amount source is a link, which the specification never allows.
    LinkedAmountSource,
    /// A link destination naming a modulator index the zone does not have.
    DanglingLink,
    /// A link source that no modulator in the zone feeds.
    UnfedLinkSource,
    BannedCc,
    InvalidTransform,
    InvalidDestination,
}

/// How a source-operator field (`source` or `amount_source`) decodes per SF2.04 8.2.1.
#[derive(Clone, Copy, PartialEq, Eq, Debug, Structural)]
pub enum SourceClass {
    NoSource,
    Valid,
    Linked,
    Reserved,
    BannedCc,
}

/// The decoding of a source operator field.
pub open spec fn spec_classify_source(value: u16) -> SourceClass {
    let index = value % 128;
    let cc_flag = (value / 128) % 2 == 1;
    let curve_type = value / 1024;
    if curve_type > 3 {
        SourceClass::Reserved
    } else if cc_flag {
        if index == 0 || index == 6 || index == 32 || index == 38 || (98 <= index && index
            <= 101) || (120 <= index && index <= 127) {
            SourceClass::BannedCc
        } else {
            SourceClass::Valid
        }
    } else {
        if index == 0 {
            SourceClass::NoSource
        } else if index == 2 || index == 3 || index == 10 || index == 13 || index == 14 || index
            == 16 {
            SourceClass::Valid
        } else if index == 127 {
            SourceClass::Linked
        } else {
            SourceClass::Reserved
        }
    }
}

/// Classifies a source operator field.
pub fn classify_source(value: u16) -> (r: SourceClass)
    ensures
        r == spec_classify_source(value),
{
    assert(value & 0x007F == value % 128) by (bit_vector);
    assert((value & 0x0080 != 0) == ((value / 128) % 2 == 1)) by (bit_vector);
    assert((value >> 10) & 0x003F == value / 1024) by (bit_vector);
    let index = value & 0x007F;
    let cc_flag = value & 0x0080 != 0;
    let curve_type = (value >> 10) & 0x003F;

    if curve_type > 3 {
        return SourceClass::Reserved;
    }
    if cc_flag {
        if index == 0 || index == 6 || index == 32 || index == 38 || (98 <= index && index <= 101)
            || (120 <= index && index <= 127) {
            SourceClass::BannedCc
        } else {
            SourceClass::Valid
        }
    } else {
        if index == 0 {
            SourceClass::NoSource
        } else if index == 2 || index == 3 || index == 10 || index == 13 || index == 14 || index
            == 16 {
            SourceClass::Valid
        } else if index == 127 {
            SourceClass::Linked
        } else {
            SourceClass::Reserved
        }
    }
}

/// Identity used for zone-local dedup and global/local merge: everything but the amount.
pub open spec fn spec_same_identity(a: Modulator, b: Modulator) -> bool {
    a.source == b.source && a.destination == b.destination && a.amount_source
        == b.amount_source && a.transform == b.transform
}

/// The destination names another modulator of the zone rather than a generator.
pub open spec fn spec_is_link_destination(m: Modulator) -> bool {
    m.destination >= 0x8000
}

/// The zone-relative index of the modulator a link destination names.
pub open spec fn spec_link_target(m: Modulator) -> int {
    (m.destination % 0x8000) as int
}

/// The primary source is a link.
pub open spec fn spec_has_link_source(m: Modulator) -> bool {
    spec_classify_source(m.source) == SourceClass::Linked
}

/// Destinations meaningless to modulate at either level: an id/link (INSTRUMENT,
/// SAMPLE_ID) or a range gate (KEY_RANGE, VELOCITY_RANGE).
pub open spec fn spec_is_common_invalid_destination(d: u16) -> bool {
    d == GeneratorType::INSTRUMENT || d == GeneratorType::KEY_RANGE || d
        == GeneratorType::VELOCITY_RANGE || d == GeneratorType::SAMPLE_ID
}

/// Destinations only meaningful as absolute (instrument-level) values, so a
/// preset region (whose generators are relative offsets) must not target them.
pub open spec fn spec_is_preset_extra_invalid_destination(d: u16) -> bool {
    d == GeneratorType::START_ADDRESS_OFFSET || d == GeneratorType::END_ADDRESS_OFFSET || d
        == GeneratorType::START_LOOP_ADDRESS_OFFSET || d == GeneratorType::END_LOOP_ADDRESS_OFFSET
        || d == GeneratorType::START_ADDRESS_COARSE_OFFSET || d
        == GeneratorType::END_ADDRESS_COARSE_OFFSET || d
        == GeneratorType::START_LOOP_ADDRESS_COARSE_OFFSET || d == GeneratorType::KEY_NUMBER || d
        == GeneratorType::VELOCITY || d == GeneratorType::END_LOOP_ADDRESS_COARSE_OFFSET || d
        == GeneratorType::SAMPLE_MODES || d == GeneratorType::EXCLUSIVE_CLASS || d
        == GeneratorType::OVERRIDING_ROOT_KEY
}

/// Whether a modulator is usable at all, and if not, why.
pub open spec fn spec_validate(m: Modulator, level: ModulatorLevel) -> Result<
    (),
    ModulatorDropReason,
> {
    let primary = spec_classify_source(m.source);
    let amount = spec_classify_source(m.amount_source);
    if primary == SourceClass::NoSource {
        Err(ModulatorDropReason::PrimarySourceNone)
    } else if primary == SourceClass::Linked {
        Err(ModulatorDropReason::Linked)
    } else if primary == SourceClass::Reserved {
        Err(ModulatorDropReason::ReservedSource)
    } else if primary == SourceClass::BannedCc {
        Err(ModulatorDropReason::BannedCc)
    } else if amount == SourceClass::Linked {
        Err(ModulatorDropReason::LinkedAmountSource)
    } else if amount == SourceClass::Reserved {
        Err(ModulatorDropReason::ReservedSource)
    } else if amount == SourceClass::BannedCc {
        Err(ModulatorDropReason::BannedCc)
    } else if m.transform != 0 && m.transform != 2 {
        Err(ModulatorDropReason::InvalidTransform)
    } else if spec_is_link_destination(m) {
        Err(ModulatorDropReason::Linked)
    } else if m.destination >= GeneratorType::COUNT || spec_is_common_invalid_destination(
        m.destination,
    ) || (level == ModulatorLevel::Preset && spec_is_preset_extra_invalid_destination(
        m.destination,
    )) {
        Err(ModulatorDropReason::InvalidDestination)
    } else {
        Ok(())
    }
}

impl Modulator {
    /// Identity used for zone-local dedup and global/local merge: everything but
    /// the amount, which is the one field allowed to differ between "the same"
    /// modulator at different scopes.
    pub fn same_identity(&self, other: &Modulator) -> (r: bool)
        ensures
            r == spec_same_identity(*self, *other),
    {
        self.source == other.source && self.destination == other.destination
            && self.amount_source == other.amount_source && self.transform == other.transform
    }

    /// True when the destination names another modulator in the same zone rather than a
    /// generator. The remaining 15 bits are that modulator's index, counted from the first
    /// modulator of the zone.
    pub fn is_link_destination(&self) -> (r: bool)
        ensures
            r == spec_is_link_destination(*self),
    {
        let d = self.destination;
        assert((d & 0x8000 != 0) == (d >= 0x8000)) by (bit_vector);
        d & 0x8000 != 0
    }

    /// The zone-relative index a link destination names.
    pub fn link_target(&self) -> (r: usize)
        ensures
            r == spec_link_target(*self),
    {
        let d = self.destination;
        assert(d & 0x7FFF == d % 0x8000) by (bit_vector);
        (d & 0x7FFF) as usize
    }

    /// True when the primary source is a link.
    pub fn has_link_source(&self) -> (r: bool)
        ensures
            r == spec_has_link_source(*self),
    {
        match classify_source(self.source) {
            SourceClass::Linked => true,
            _ => false,
        }
    }

    /// Checks whether the modulator is usable at all, per SF2.04 8.2.1 (source
    /// operator encoding) and 8.2.9/8.2.10 (transform, destination).
    pub fn validate(&self, level: ModulatorLevel) -> (r: Result<(), ModulatorDropReason>)
        ensures
            r == spec_validate(*self, level),
    {
        match classify_source(self.source) {
            SourceClass::NoSource => return Err(ModulatorDropReason::PrimarySourceNone),
            // A link source is only meaningful with the rest of the zone in view, so
            // `validate_zone` decides its fate before calling this.
            SourceClass::Linked => return Err(ModulatorDropReason::Linked),
            SourceClass::Reserved => return Err(ModulatorDropReason::ReservedSource),
            SourceClass::BannedCc => return Err(ModulatorDropReason::BannedCc),
            SourceClass::Valid => {},
        }

        // Unlike the primary source, "None" is a legitimate amount source
        // (a fixed amount with no controller scaling it).
        match classify_source(self.amount_source) {
            SourceClass::Linked => return Err(ModulatorDropReason::LinkedAmountSource),
            SourceClass::Reserved => return Err(ModulatorDropReason::ReservedSource),
            SourceClass::BannedCc => return Err(ModulatorDropReason::BannedCc),
            SourceClass::NoSource | SourceClass::Valid => {},
        }

        if self.transform != 0 && self.transform != 2 {
            return Err(ModulatorDropReason::InvalidTransform);
        }

        if self.is_link_destination() {
            return Err(ModulatorDropReason::Linked);
        }
        let d = self.destination;
        let is_out_of_range = d as usize >= GeneratorType::COUNT;
        let is_common_invalid = d == GeneratorType::INSTRUMENT || d == GeneratorType::KEY_RANGE
            || d == GeneratorType::VELOCITY_RANGE || d == GeneratorType::SAMPLE_ID;
        let is_preset_extra_invalid = d == GeneratorType::START_ADDRESS_OFFSET || d
            == GeneratorType::END_ADDRESS_OFFSET || d == GeneratorType::START_LOOP_ADDRESS_OFFSET
            || d == GeneratorType::END_LOOP_ADDRESS_OFFSET || d
            == GeneratorType::START_ADDRESS_COARSE_OFFSET || d
            == GeneratorType::END_ADDRESS_COARSE_OFFSET || d
            == GeneratorType::START_LOOP_ADDRESS_COARSE_OFFSET || d == GeneratorType::KEY_NUMBER
            || d == GeneratorType::VELOCITY || d == GeneratorType::END_LOOP_ADDRESS_COARSE_OFFSET
            || d == GeneratorType::SAMPLE_MODES || d == GeneratorType::EXCLUSIVE_CLASS || d
            == GeneratorType::OVERRIDING_ROOT_KEY;
        let is_preset_invalid = match level {
            ModulatorLevel::Preset => is_preset_extra_invalid,
            ModulatorLevel::Instrument => false,
        };
        if is_out_of_range || is_common_invalid || is_preset_invalid {
            return Err(ModulatorDropReason::InvalidDestination);
        }
        Ok(())
    }
}


/// Some modulator of `zone` among its first `n` names modulator `k` as its destination.
pub open spec fn spec_fed_by_prefix(zone: Seq<Modulator>, n: int, k: int) -> bool
    decreases n,
{
    if n <= 0 {
        false
    } else {
        spec_fed_by_prefix(zone, n - 1, k) || (spec_is_link_destination(zone[n - 1])
            && spec_link_target(zone[n - 1]) == k)
    }
}

/// Some modulator of the zone feeds modulator `k` through a link.
pub open spec fn spec_is_fed(zone: Seq<Modulator>, k: int) -> bool {
    spec_fed_by_prefix(zone, zone.len() as int, k)
}

/// What zone-level validation makes of the modulator at index `i` of a zone.
pub open spec fn spec_zone_outcome(zone: Seq<Modulator>, i: int, level: ModulatorLevel) -> Result<
    (),
    ModulatorDropReason,
> {
    let m = zone[i];
    if spec_is_link_destination(m) && spec_link_target(m) >= zone.len() {
        Err(ModulatorDropReason::DanglingLink)
    } else if spec_has_link_source(m) && !spec_is_fed(zone, i) {
        Err(ModulatorDropReason::UnfedLinkSource)
    } else {
        spec_validate(m, level)
    }
}

/// `j` is the first index of `acc` that holds a modulator with the identity of `m`.
pub open spec fn spec_is_first_identity(acc: Seq<Modulator>, m: Modulator, j: int) -> bool {
    &&& 0 <= j < acc.len()
    &&& spec_same_identity(acc[j], m)
    &&& forall|k: int| 0 <= k < j ==> !spec_same_identity(#[trigger] acc[k], m)
}

/// Replaces the first entry with the identity of `m` by `m`, or appends `m` if none has it.
pub open spec fn spec_insert_or_replace(acc: Seq<Modulator>, m: Modulator) -> Seq<Modulator> {
    if exists|j: int| spec_is_first_identity(acc, m, j) {
        acc.update(choose|j: int| spec_is_first_identity(acc, m, j), m)
    } else {
        acc.push(m)
    }
}

/// The modulators kept after validating the first `n` modulators of a zone.
pub open spec fn spec_kept(zone: Seq<Modulator>, level: ModulatorLevel, n: int) -> Seq<Modulator>
    decreases n,
{
    if n <= 0 {
        Seq::empty()
    } else {
        let acc = spec_kept(zone, level, n - 1);
        if spec_zone_outcome(zone, n - 1, level) is Ok {
            spec_insert_or_replace(acc, zone[n - 1])
        } else {
            acc
        }
    }
}

/// The result of validating a whole zone.
pub open spec fn spec_validate_zone(zone: Seq<Modulator>, level: ModulatorLevel) -> Seq<Modulator> {
    spec_kept(zone, level, zone.len() as int)
}

/// How many of the first `n` modulators of a zone are dropped for `reason`.
pub open spec fn spec_reason_count(
    zone: Seq<Modulator>,
    level: ModulatorLevel,
    n: int,
    reason: ModulatorDropReason,
) -> nat
    decreases n,
{
    if n <= 0 {
        0
    } else {
        spec_reason_count(zone, level, n - 1, reason) + if spec_zone_outcome(zone, n - 1, level)
            == Err::<(), ModulatorDropReason>(reason) {
            1nat
        } else {
            0nat
        }
    }
}

pub proof fn lemma_reason_count_bound(
    zone: Seq<Modulator>,
    level: ModulatorLevel,
    n: int,
    reason: ModulatorDropReason,
)
    requires
        0 <= n,
    ensures
        spec_reason_count(zone, level, n, reason) <= n,
    decreases n,
{
    if n > 0 {
        lemma_reason_count_bound(zone, level, n - 1, reason);
    }
}

proof fn lemma_first_identity_unique(acc: Seq<Modulator>, m: Modulator, j: int, k: int)
    requires
        spec_is_first_identity(acc, m, j),
        spec_is_first_identity(acc, m, k),
    ensures
        j == k,
{
    if j < k {
        assert(!spec_same_identity(acc[j], m));
    } else if k < j {
        assert(!spec_same_identity(acc[k], m));
    }
}

/// Finds the first entry of `acc` with the identity of `m` and replaces it by `m`, or
/// appends `m` when there is none.
fn insert_or_replace(acc: &mut Vec<Modulator>, m: Modulator)
    ensures
        final(acc)@ == spec_insert_or_replace(old(acc)@, m),
{
    let mut j: usize = 0;
    while j < acc.len()
        invariant
            j <= acc@.len(),
            acc@ == old(acc)@,
            forall|k: int| 0 <= k < j ==> !spec_same_identity(#[trigger] acc@[k], m),
        decreases acc@.len() - j,
    {
        if acc[j].same_identity(&m) {
            proof {
                assert(spec_is_first_identity(acc@, m, j as int));
                let c = choose|c: int| spec_is_first_identity(acc@, m, c);
                lemma_first_identity_unique(acc@, m, j as int, c);
            }
            acc.set(j, m);
            return;
        }
        j += 1;
    }
    proof {
        assert(!exists|c: int| spec_is_first_identity(acc@, m, c));
    }
    acc.push(m);
}

/// Validates a zone's modulators and collapses same-identity duplicates in
/// place, keeping the last occurrence's amount.
///
/// Link indices are relative to the first modulator of the zone, so whether a link is
/// usable can only be decided here. Chains are not evaluated, but the reason a linked
/// modulator was dropped is told apart: a dangling or unfed link is invalid by the
/// specification, while a well-formed chain is this synthesizer's own limitation.
pub fn validate_zone(
    zone_modulators: &[Modulator],
    level: ModulatorLevel,
    counts: &mut ModulatorDropCounts,
) -> (result: Vec<Modulator>)
    requires
        forall|r: ModulatorDropReason|
            #[trigger] old(counts).count_of(r) + zone_modulators@.len() <= usize::MAX,
    ensures
        result@ == spec_validate_zone(zone_modulators@, level),
        forall|r: ModulatorDropReason|
            #[trigger] final(counts).count_of(r) == old(counts).count_of(r) + spec_reason_count(
                zone_modulators@,
                level,
                zone_modulators@.len() as int,
                r,
            ),
        final(counts).total() == old(counts).total() + spec_rejected_count(
            zone_modulators@,
            level,
            zone_modulators@.len() as int,
        ),
{
    proof {
        law_validate_zone_counts_each_drop_once(zone_modulators@, level, zone_modulators@.len() as int);
    }
    let n = zone_modulators.len();
    let ghost zone = zone_modulators@;
    let mut is_link_target: Vec<bool> = Vec::new();
    let mut k: usize = 0;
    while k < n
        invariant
            k <= n,
            n == zone.len(),
            is_link_target@.len() == k,
            forall|t: int| 0 <= t < k ==> !(#[trigger] is_link_target@[t]),
        decreases n - k,
    {
        is_link_target.push(false);
        k += 1;
    }
    let mut i: usize = 0;
    while i < n
        invariant
            i <= n,
            n == zone.len(),
            zone == zone_modulators@,
            is_link_target@.len() == n,
            forall|t: int|
                0 <= t < n ==> #[trigger] is_link_target@[t] == spec_fed_by_prefix(
                    zone,
                    i as int,
                    t,
                ),
        decreases n - i,
    {
        let modulator = &zone_modulators[i];
        if modulator.is_link_destination() && modulator.link_target() < n {
            is_link_target.set(modulator.link_target(), true);
        }
        i += 1;
    }

    let mut result: Vec<Modulator> = Vec::new();
    let mut index: usize = 0;
    while index < n
        invariant
            index <= n,
            n == zone.len(),
            zone == zone_modulators@,
            is_link_target@.len() == n,
            forall|t: int| 0 <= t < n ==> #[trigger] is_link_target@[t] == spec_is_fed(zone, t),
            result@ == spec_kept(zone, level, index as int),
            forall|r: ModulatorDropReason|
                #[trigger] counts.count_of(r) == old(counts).count_of(r) + spec_reason_count(
                    zone,
                    level,
                    index as int,
                    r,
                ),
            forall|r: ModulatorDropReason|
                #[trigger] old(counts).count_of(r) + zone.len() <= usize::MAX,
        decreases n - index,
    {
        let modulator = zone_modulators[index];
        proof {
            lemma_reason_count_bound(zone, level, index as int, ModulatorDropReason::ReservedSource);
            lemma_reason_count_bound(zone, level, index as int, ModulatorDropReason::PrimarySourceNone);
            lemma_reason_count_bound(zone, level, index as int, ModulatorDropReason::Linked);
            lemma_reason_count_bound(zone, level, index as int, ModulatorDropReason::LinkedAmountSource);
            lemma_reason_count_bound(zone, level, index as int, ModulatorDropReason::DanglingLink);
            lemma_reason_count_bound(zone, level, index as int, ModulatorDropReason::UnfedLinkSource);
            lemma_reason_count_bound(zone, level, index as int, ModulatorDropReason::BannedCc);
            lemma_reason_count_bound(zone, level, index as int, ModulatorDropReason::InvalidTransform);
            lemma_reason_count_bound(zone, level, index as int, ModulatorDropReason::InvalidDestination);
        }
        let outcome = if modulator.is_link_destination() && modulator.link_target() >= n {
            Err(ModulatorDropReason::DanglingLink)
        } else if modulator.has_link_source() && !is_link_target[index] {
            Err(ModulatorDropReason::UnfedLinkSource)
        } else {
            modulator.validate(level)
        };
        assert(outcome == spec_zone_outcome(zone, index as int, level));
        match outcome {
            Ok(()) => {
                insert_or_replace(&mut result, modulator);
            },
            Err(reason) => {
                counts.record(reason);
            },
        }
        index += 1;
    }
    result
}

/// The merge of a region's global and local modulator lists after the first `n` global
/// entries: local entries first, then each global entry whose identity is not there yet.
pub open spec fn spec_merge_prefix(global: Seq<Modulator>, local: Seq<Modulator>, n: int) -> Seq<
    Modulator,
>
    decreases n,
{
    if n <= 0 {
        local
    } else {
        let acc = spec_merge_prefix(global, local, n - 1);
        if exists|j: int| 0 <= j < acc.len() && spec_same_identity(acc[j], global[n - 1]) {
            acc
        } else {
            acc.push(global[n - 1])
        }
    }
}

/// The merge of a region's global and local modulator lists.
pub open spec fn spec_merge(global: Seq<Modulator>, local: Seq<Modulator>) -> Seq<Modulator> {
    spec_merge_prefix(global, local, global.len() as int)
}

/// Merges a region's global and local modulator lists, with local entries
/// replacing identical global ones. Both lists are expected to already be
/// validated and zone-locally deduped (see `validate_zone`).
pub fn merge(global: &[Modulator], local: Vec<Modulator>) -> (merged: Vec<Modulator>)
    ensures
        merged@ == spec_merge(global@, local@),
{
    let mut merged = local;
    let mut i: usize = 0;
    while i < global.len()
        invariant
            i <= global@.len(),
            merged@ == spec_merge_prefix(global@, local@, i as int),
        decreases global@.len() - i,
    {
        let modulator = global[i];
        let mut found = false;
        let mut j: usize = 0;
        while j < merged.len()
            invariant
                j <= merged@.len(),
                merged@ == spec_merge_prefix(global@, local@, i as int),
                modulator == global@[i as int],
                found == exists|t: int| 0 <= t < j && spec_same_identity(merged@[t], modulator),
            decreases merged@.len() - j,
        {
            if merged[j].same_identity(&modulator) {
                found = true;
            }
            j += 1;
        }
        if !found {
            merged.push(modulator);
        }
        i += 1;
    }
    merged
}

/// Aggregates modulator drop reasons across an entire SoundFont so loading
/// emits one summary line per reason instead of one line per modulator.
pub struct ModulatorDropCounts {
    pub reserved_source: usize,
    pub primary_source_none: usize,
    pub linked: usize,
    pub linked_amount_source: usize,
    pub dangling_link: usize,
    pub unfed_link_source: usize,
    pub banned_cc: usize,
    pub invalid_transform: usize,
    pub invalid_destination: usize,
}

impl Default for ModulatorDropCounts {
    fn default() -> (r: Self)
        ensures
            forall|reason: ModulatorDropReason| #[trigger] r.count_of(reason) == 0,
    {
        ModulatorDropCounts {
            reserved_source: 0,
            primary_source_none: 0,
            linked: 0,
            linked_amount_source: 0,
            dangling_link: 0,
            unfed_link_source: 0,
            banned_cc: 0,
            invalid_transform: 0,
            invalid_destination: 0,
        }
    }
}

impl ModulatorDropCounts {
    /// The count kept for one reason.
    pub open spec fn count_of(&self, reason: ModulatorDropReason) -> nat {
        match reason {
            ModulatorDropReason::ReservedSource => self.reserved_source as nat,
            ModulatorDropReason::PrimarySourceNone => self.primary_source_none as nat,
            ModulatorDropReason::Linked => self.linked as nat,
            ModulatorDropReason::LinkedAmountSource => self.linked_amount_source as nat,
            ModulatorDropReason::DanglingLink => self.dangling_link as nat,
            ModulatorDropReason::UnfedLinkSource => self.unfed_link_source as nat,
            ModulatorDropReason::BannedCc => self.banned_cc as nat,
            ModulatorDropReason::InvalidTransform => self.invalid_transform as nat,
            ModulatorDropReason::InvalidDestination => self.invalid_destination as nat,
        }
    }

    /// The count of each reason, as a function.
    /// How many modulators were dropped, for any reason.
    pub open spec fn total(&self) -> nat {
        self.count_of(ModulatorDropReason::ReservedSource) + self.count_of(
            ModulatorDropReason::PrimarySourceNone,
        ) + self.count_of(ModulatorDropReason::Linked) + self.count_of(
            ModulatorDropReason::LinkedAmountSource,
        ) + self.count_of(ModulatorDropReason::DanglingLink) + self.count_of(
            ModulatorDropReason::UnfedLinkSource,
        ) + self.count_of(ModulatorDropReason::BannedCc) + self.count_of(
            ModulatorDropReason::InvalidTransform,
        ) + self.count_of(ModulatorDropReason::InvalidDestination)
    }

    pub open spec fn counts(&self) -> spec_fn(ModulatorDropReason) -> nat {
        |reason: ModulatorDropReason| self.count_of(reason)
    }

    /// Counts one dropped modulator.
    pub fn record(&mut self, reason: ModulatorDropReason)
        requires
            old(self).count_of(reason) < usize::MAX,
        ensures
            forall|r: ModulatorDropReason|
                #[trigger] final(self).count_of(r) == old(self).count_of(r) + if r == reason {
                    1nat
                } else {
                    0nat
                },
    {
        match reason {
            ModulatorDropReason::ReservedSource => self.reserved_source += 1,
            ModulatorDropReason::PrimarySourceNone => self.primary_source_none += 1,
            ModulatorDropReason::Linked => self.linked += 1,
            ModulatorDropReason::LinkedAmountSource => self.linked_amount_source += 1,
            ModulatorDropReason::DanglingLink => self.dangling_link += 1,
            ModulatorDropReason::UnfedLinkSource => self.unfed_link_source += 1,
            ModulatorDropReason::BannedCc => self.banned_cc += 1,
            ModulatorDropReason::InvalidTransform => self.invalid_transform += 1,
            ModulatorDropReason::InvalidDestination => self.invalid_destination += 1,
        }
    }
}


/// One warning line for a drop reason that occurred `count` times, none when it never did.
pub open spec fn spec_count_message(count: nat, text: Seq<char>) -> Seq<Seq<char>> {
    if count > 0 {
        seq![spec_decimal(count) + text]
    } else {
        Seq::empty()
    }
}

/// The warning lines for the given count of dropped modulators per reason, one per
/// reason that occurred, in a fixed order.
pub open spec fn spec_reason_messages(c: spec_fn(ModulatorDropReason) -> nat) -> Seq<Seq<char>> {
    spec_count_message(c(ModulatorDropReason::ReservedSource), " modulator(s) dropped: reserved source controller index or curve type"@) +
    spec_count_message(c(ModulatorDropReason::PrimarySourceNone), " modulator(s) dropped: primary source is None"@) +
    spec_count_message(c(ModulatorDropReason::Linked), " modulator(s) dropped: modulator chains are not supported"@) +
    spec_count_message(c(ModulatorDropReason::LinkedAmountSource), " modulator(s) dropped: the amount source cannot be a link"@) +
    spec_count_message(c(ModulatorDropReason::DanglingLink), " modulator(s) dropped: the link points past the end of the zone"@) +
    spec_count_message(c(ModulatorDropReason::UnfedLinkSource), " modulator(s) dropped: the link source has no modulator feeding it"@) +
    spec_count_message(c(ModulatorDropReason::BannedCc), " modulator(s) dropped: banned MIDI CC used as a source"@) +
    spec_count_message(c(ModulatorDropReason::InvalidTransform), " modulator(s) dropped: unsupported transform"@) +
    spec_count_message(c(ModulatorDropReason::InvalidDestination), " modulator(s) dropped: invalid or non-modulatable destination"@)
}

/// The text of each string of a sequence.
pub open spec fn string_views(v: Seq<String>) -> Seq<Seq<char>> {
    v.map_values(|s: String| s@)
}

fn push_count_message(messages: &mut Vec<String>, count: usize, text: &str)
    ensures
        string_views(final(messages)@) == string_views(old(messages)@) + spec_count_message(
            count as nat,
            text@,
        ),
{
    if count > 0 {
        let mut m = decimal_string(count as u64);
        m.append(text);
        messages.push(m);
    }
    assert(string_views(messages@) =~= string_views(old(messages)@) + spec_count_message(
        count as nat,
        text@,
    ));
}

impl ModulatorDropCounts {
    /// The warning lines for these counts, one per nonzero reason, in declaration order.
    pub open spec fn spec_messages(&self) -> Seq<Seq<char>> {
        spec_count_message(self.reserved_source as nat, " modulator(s) dropped: reserved source controller index or curve type"@) +
        spec_count_message(self.primary_source_none as nat, " modulator(s) dropped: primary source is None"@) +
        spec_count_message(self.linked as nat, " modulator(s) dropped: modulator chains are not supported"@) +
        spec_count_message(self.linked_amount_source as nat, " modulator(s) dropped: the amount source cannot be a link"@) +
        spec_count_message(self.dangling_link as nat, " modulator(s) dropped: the link points past the end of the zone"@) +
        spec_count_message(self.unfed_link_source as nat, " modulator(s) dropped: the link source has no modulator feeding it"@) +
        spec_count_message(self.banned_cc as nat, " modulator(s) dropped: banned MIDI CC used as a source"@) +
        spec_count_message(self.invalid_transform as nat, " modulator(s) dropped: unsupported transform"@) +
        spec_count_message(self.invalid_destination as nat, " modulator(s) dropped: invalid or non-modulatable destination"@)
    }

    /// The messages are those for the counts this value keeps for each reason.
    pub proof fn lemma_messages_by_reason(&self)
        ensures
            self.spec_messages() == spec_reason_messages(|r: ModulatorDropReason| self.count_of(r)),
    {
    }

    /// Converts the accumulated counts into human-readable warning lines, one
    /// per nonzero reason.
    pub fn into_messages(self) -> (messages: Vec<String>)
        ensures
            string_views(messages@) == self.spec_messages(),
    {
        let mut messages: Vec<String> = Vec::new();
        assert(string_views(messages@) =~= Seq::empty());
        push_count_message(&mut messages, self.reserved_source, " modulator(s) dropped: reserved source controller index or curve type");
        push_count_message(&mut messages, self.primary_source_none, " modulator(s) dropped: primary source is None");
        push_count_message(&mut messages, self.linked, " modulator(s) dropped: modulator chains are not supported");
        push_count_message(&mut messages, self.linked_amount_source, " modulator(s) dropped: the amount source cannot be a link");
        push_count_message(&mut messages, self.dangling_link, " modulator(s) dropped: the link points past the end of the zone");
        push_count_message(&mut messages, self.unfed_link_source, " modulator(s) dropped: the link source has no modulator feeding it");
        push_count_message(&mut messages, self.banned_cc, " modulator(s) dropped: banned MIDI CC used as a source");
        push_count_message(&mut messages, self.invalid_transform, " modulator(s) dropped: unsupported transform");
        push_count_message(&mut messages, self.invalid_destination, " modulator(s) dropped: invalid or non-modulatable destination");
        messages
    }
}


/// No two entries of the sequence share an identity.
pub open spec fn spec_distinct_identities(s: Seq<Modulator>) -> bool {
    forall|i: int, j: int|
        0 <= i < j < s.len() ==> !spec_same_identity(#[trigger] s[i], #[trigger] s[j])
}

/// Every entry of the sequence passes modulator validation at `level`.
pub open spec fn spec_all_valid(s: Seq<Modulator>, level: ModulatorLevel) -> bool {
    forall|i: int| 0 <= i < s.len() ==> spec_validate(#[trigger] s[i], level) is Ok
}

proof fn lemma_insert_or_replace_props(acc: Seq<Modulator>, m: Modulator, level: ModulatorLevel)
    requires
        spec_distinct_identities(acc),
        spec_all_valid(acc, level),
        spec_validate(m, level) is Ok,
    ensures
        spec_distinct_identities(spec_insert_or_replace(acc, m)),
        spec_all_valid(spec_insert_or_replace(acc, m), level),
        forall|k: int|
            0 <= k < spec_insert_or_replace(acc, m).len() ==> #[trigger] spec_insert_or_replace(
                acc,
                m,
            )[k] == m || acc.contains(spec_insert_or_replace(acc, m)[k]),
{
    let r = spec_insert_or_replace(acc, m);
    if exists|j: int| spec_is_first_identity(acc, m, j) {
        let j = choose|j: int| spec_is_first_identity(acc, m, j);
        assert forall|a: int, b: int| 0 <= a < b < r.len() implies !spec_same_identity(
            #[trigger] r[a],
            #[trigger] r[b],
        ) by {
            if a == j {
                assert(!spec_same_identity(acc[a], acc[b]));
            } else if b == j {
                assert(!spec_same_identity(acc[a], acc[b]));
            }
        }
        assert forall|k: int| 0 <= k < r.len() implies #[trigger] r[k] == m || acc.contains(
            r[k],
        ) by {
            if k != j {
                assert(acc[k] == r[k]);
            }
        }
    } else {
        assert forall|a: int, b: int| 0 <= a < b < r.len() implies !spec_same_identity(
            #[trigger] r[a],
            #[trigger] r[b],
        ) by {
            if b == acc.len() {
                if spec_same_identity(acc[a], m) {
                    // the first entry with this identity would exist
                    let first = choose|f: int|
                        0 <= f <= a && spec_same_identity(acc[f], m) && forall|g: int|
                            0 <= g < f ==> !spec_same_identity(#[trigger] acc[g], m);
                    lemma_first_identity_exists(acc, m, a);
                }
            }
        }
        assert forall|k: int| 0 <= k < r.len() implies #[trigger] r[k] == m || acc.contains(
            r[k],
        ) by {
            if k < acc.len() {
                assert(acc[k] == r[k]);
            }
        }
    }
}

proof fn lemma_first_identity_exists(acc: Seq<Modulator>, m: Modulator, a: int)
    requires
        0 <= a < acc.len(),
        spec_same_identity(acc[a], m),
    ensures
        exists|j: int| spec_is_first_identity(acc, m, j),
    decreases a,
{
    if forall|g: int| 0 <= g < a ==> !spec_same_identity(#[trigger] acc[g], m) {
        assert(spec_is_first_identity(acc, m, a));
    } else {
        let g = choose|g: int| 0 <= g < a && !!spec_same_identity(#[trigger] acc[g], m);
        lemma_first_identity_exists(acc, m, g);
    }
}

proof fn lemma_kept_props(zone: Seq<Modulator>, level: ModulatorLevel, n: int)
    requires
        0 <= n <= zone.len(),
    ensures
        spec_distinct_identities(spec_kept(zone, level, n)),
        spec_all_valid(spec_kept(zone, level, n), level),
        forall|k: int|
            0 <= k < spec_kept(zone, level, n).len() ==> zone.contains(
                #[trigger] spec_kept(zone, level, n)[k],
            ),
    decreases n,
{
    if n > 0 {
        lemma_kept_props(zone, level, n - 1);
        let acc = spec_kept(zone, level, n - 1);
        if spec_zone_outcome(zone, n - 1, level) is Ok {
            let m = zone[n - 1];
            lemma_insert_or_replace_props(acc, m, level);
            let r = spec_insert_or_replace(acc, m);
            assert forall|k: int| 0 <= k < r.len() implies zone.contains(#[trigger] r[k]) by {
                if r[k] == m {
                    assert(zone[n - 1] == m);
                } else {
                    assert(acc.contains(r[k]));
                    let t = choose|t: int| 0 <= t < acc.len() && acc[t] == r[k];
                    assert(zone.contains(acc[t]));
                }
            }
        }
    }
}

proof fn lemma_kept_of_clean(s: Seq<Modulator>, level: ModulatorLevel, n: int)
    requires
        0 <= n <= s.len(),
        spec_distinct_identities(s),
        spec_all_valid(s, level),
    ensures
        spec_kept(s, level, n) == s.take(n),
    decreases n,
{
    if n > 0 {
        lemma_kept_of_clean(s, level, n - 1);
        let acc = s.take(n - 1);
        let m = s[n - 1];
        assert(spec_validate(m, level) is Ok);
        assert(!spec_is_link_destination(m));
        assert(!spec_has_link_source(m));
        assert(spec_zone_outcome(s, n - 1, level) is Ok);
        assert(!exists|j: int| spec_is_first_identity(acc, m, j)) by {
            if exists|j: int| spec_is_first_identity(acc, m, j) {
                let j = choose|j: int| spec_is_first_identity(acc, m, j);
                assert(acc[j] == s[j]);
                assert(!spec_same_identity(s[j], s[n - 1]));
            }
        }
        assert(acc.push(m) =~= s.take(n));
    }
}

/// Zone validation keeps only modulators of the zone that pass validation at the given
/// level, and keeps at most one modulator of each identity.
pub proof fn law_validate_zone_keeps_distinct_valid_members(
    zone: Seq<Modulator>,
    level: ModulatorLevel,
)
    ensures
        spec_distinct_identities(spec_validate_zone(zone, level)),
        spec_all_valid(spec_validate_zone(zone, level), level),
        forall|k: int|
            0 <= k < spec_validate_zone(zone, level).len() ==> zone.contains(
                #[trigger] spec_validate_zone(zone, level)[k],
            ),
{
    lemma_kept_props(zone, level, zone.len() as int);
}

/// Validating a zone a second time changes nothing: the first pass leaves no link,
/// no invalid modulator and no duplicate identity behind.
pub proof fn law_validate_zone_idempotent(zone: Seq<Modulator>, level: ModulatorLevel)
    ensures
        spec_validate_zone(spec_validate_zone(zone, level), level) == spec_validate_zone(
            zone,
            level,
        ),
{
    let once = spec_validate_zone(zone, level);
    lemma_kept_props(zone, level, zone.len() as int);
    lemma_kept_of_clean(once, level, once.len() as int);
    assert(once.take(once.len() as int) =~= once);
}

proof fn lemma_merge_prefix_props(global: Seq<Modulator>, local: Seq<Modulator>, n: int)
    requires
        0 <= n <= global.len(),
        spec_distinct_identities(local),
    ensures
        spec_merge_prefix(global, local, n).len() >= local.len(),
        spec_merge_prefix(global, local, n).take(local.len() as int) == local,
        spec_distinct_identities(spec_merge_prefix(global, local, n)),
        forall|g: int|
            #![trigger global[g]]
            0 <= g < n ==> exists|j: int|
                0 <= j < spec_merge_prefix(global, local, n).len() && spec_same_identity(
                    #[trigger] spec_merge_prefix(global, local, n)[j],
                    global[g],
                ),
        forall|j: int|
            local.len() <= j < spec_merge_prefix(global, local, n).len() ==> global.contains(
                #[trigger] spec_merge_prefix(global, local, n)[j],
            ),
    decreases n,
{
    if n == 0 {
        assert(local.take(local.len() as int) =~= local);
    } else {
        lemma_merge_prefix_props(global, local, n - 1);
        let acc = spec_merge_prefix(global, local, n - 1);
        let m = global[n - 1];
        let r = spec_merge_prefix(global, local, n);
        if exists|j: int| 0 <= j < acc.len() && spec_same_identity(acc[j], m) {
            assert(r == acc);
        } else {
            assert(r == acc.push(m));
            assert(r.take(local.len() as int) =~= acc.take(local.len() as int));
            assert forall|a: int, b: int| 0 <= a < b < r.len() implies !spec_same_identity(
                #[trigger] r[a],
                #[trigger] r[b],
            ) by {
                if b == acc.len() {
                    assert(!spec_same_identity(acc[a], m));
                }
            }
            assert forall|g: int| #![trigger global[g]] 0 <= g < n implies exists|j: int|
                0 <= j < r.len() && spec_same_identity(#[trigger] r[j], global[g]) by {
                if g == n - 1 {
                    assert(spec_same_identity(r[acc.len() as int], global[g]));
                } else {
                    let j = choose|j: int|
                        0 <= j < acc.len() && spec_same_identity(#[trigger] acc[j], global[g]);
                    assert(r[j] == acc[j]);
                }
            }
            assert forall|j: int| local.len() <= j < r.len() implies global.contains(
                #[trigger] r[j],
            ) by {
                if j == acc.len() {
                    assert(global[n - 1] == r[j]);
                } else {
                    assert(r[j] == acc[j]);
                }
            }
        }
    }
}

/// Merging a region's global and local modulators keeps the local list in front and
/// unchanged (so a local modulator always overrides the same-identity global one),
/// represents every global identity exactly once, adds nothing but global entries, and
/// leaves no duplicate identity when the local list had none.
pub proof fn law_merge_local_overrides_global(global: Seq<Modulator>, local: Seq<Modulator>)
    requires
        spec_distinct_identities(local),
    ensures
        spec_merge(global, local).take(local.len() as int) == local,
        spec_distinct_identities(spec_merge(global, local)),
        forall|g: int|
            #![trigger global[g]]
            0 <= g < global.len() ==> exists|j: int|
                0 <= j < spec_merge(global, local).len() && spec_same_identity(
                    #[trigger] spec_merge(global, local)[j],
                    global[g],
                ),
        forall|j: int|
            local.len() <= j < spec_merge(global, local).len() ==> global.contains(
                #[trigger] spec_merge(global, local)[j],
            ),
{
    lemma_merge_prefix_props(global, local, global.len() as int);
}

/// The modulator at index `k` of a zone passes zone-level validation.
#[verifier::opaque]
pub open spec fn spec_accepted(zone: Seq<Modulator>, level: ModulatorLevel, k: int) -> bool {
    spec_zone_outcome(zone, k, level) is Ok
}

/// How many of the first `n` modulators of a zone are dropped, for any reason.
pub open spec fn spec_rejected_count(zone: Seq<Modulator>, level: ModulatorLevel, n: int) -> nat
    decreases n,
{
    if n <= 0 {
        0
    } else {
        spec_rejected_count(zone, level, n - 1) + if spec_accepted(zone, level, n - 1) {
            0nat
        } else {
            1nat
        }
    }
}

/// The drops of the first `n` modulators of a zone, added up over every reason.
pub open spec fn spec_reason_total(zone: Seq<Modulator>, level: ModulatorLevel, n: int) -> nat {
    spec_reason_count(zone, level, n, ModulatorDropReason::ReservedSource) + spec_reason_count(
        zone,
        level,
        n,
        ModulatorDropReason::PrimarySourceNone,
    ) + spec_reason_count(zone, level, n, ModulatorDropReason::Linked) + spec_reason_count(
        zone,
        level,
        n,
        ModulatorDropReason::LinkedAmountSource,
    ) + spec_reason_count(zone, level, n, ModulatorDropReason::DanglingLink) + spec_reason_count(
        zone,
        level,
        n,
        ModulatorDropReason::UnfedLinkSource,
    ) + spec_reason_count(zone, level, n, ModulatorDropReason::BannedCc) + spec_reason_count(
        zone,
        level,
        n,
        ModulatorDropReason::InvalidTransform,
    ) + spec_reason_count(zone, level, n, ModulatorDropReason::InvalidDestination)
}

/// Zone validation counts each modulator it drops once, under one reason: the counts
/// added up over every reason grow by the number of modulators dropped.
pub proof fn law_validate_zone_counts_each_drop_once(zone: Seq<Modulator>, level: ModulatorLevel, n: int)
    ensures
        spec_reason_total(zone, level, n) == spec_rejected_count(zone, level, n),
    decreases n,
{
    reveal(spec_accepted);
    if n > 0 {
        law_validate_zone_counts_each_drop_once(zone, level, n - 1);
    }
}

/// Every identity accepted among the first `n` modulators of a zone is in `r`.
pub open spec fn spec_kept_covers(zone: Seq<Modulator>, level: ModulatorLevel, n: int, r: Seq<Modulator>) -> bool {
    forall|k: int|
        0 <= k < n && spec_accepted(zone, level, k) ==> exists|p: int|
            0 <= p < r.len() && spec_same_identity(#[trigger] r[p], zone[k])
}

/// Modulator `l` is the last accepted one of its identity among the first `n`.
pub open spec fn spec_last_accepted(zone: Seq<Modulator>, level: ModulatorLevel, n: int, l: int) -> bool {
    &&& 0 <= l < n
    &&& spec_accepted(zone, level, l)
    &&& forall|k: int|
        l < k < n && spec_accepted(zone, level, k) ==> !spec_same_identity(#[trigger] zone[k], zone[l])
}

/// `m` is the last accepted modulator of its identity among the first `n`.
pub open spec fn spec_is_last_accepted(zone: Seq<Modulator>, level: ModulatorLevel, n: int, m: Modulator) -> bool {
    exists|l: int| #[trigger] spec_last_accepted(zone, level, n, l) && m == zone[l]
}

/// Each entry of `r` is the last accepted modulator of its identity among the first `n`.
pub open spec fn spec_kept_last(zone: Seq<Modulator>, level: ModulatorLevel, n: int, r: Seq<Modulator>) -> bool {
    forall|p: int| 0 <= p < r.len() ==> #[trigger] spec_is_last_accepted(zone, level, n, r[p])
}

/// Some modulator with the identity of `m` is accepted before index `k`.
pub open spec fn spec_accepted_before(zone: Seq<Modulator>, level: ModulatorLevel, k: int, m: Modulator) -> bool {
    exists|k2: int|
        0 <= k2 < k && #[trigger] spec_accepted(zone, level, k2) && spec_same_identity(zone[k2], m)
}

/// The entries of `r` come in the order in which their identities were first accepted.
pub open spec fn spec_kept_first_order(zone: Seq<Modulator>, level: ModulatorLevel, n: int, r: Seq<Modulator>) -> bool {
    forall|p: int, q: int, k: int|
        0 <= p < q < r.len() && 0 <= k < n && spec_accepted(zone, level, k) && spec_same_identity(
            #[trigger] zone[k],
            #[trigger] r[q],
        ) ==> #[trigger] spec_accepted_before(zone, level, k, r[p])
}

/// What validation keeps of the first `n` modulators of a zone: every accepted identity
/// is there; each kept modulator is the last accepted one with its identity; and kept
/// identities come in the order in which they were first accepted.
pub open spec fn spec_kept_last_at_first(zone: Seq<Modulator>, level: ModulatorLevel, n: int, r: Seq<
    Modulator,
>) -> bool {
    &&& spec_kept_covers(zone, level, n, r)
    &&& spec_kept_last(zone, level, n, r)
    &&& spec_kept_first_order(zone, level, n, r)
}

/// A kept entry's last accepted index is also an accepted index with its identity.
proof fn lemma_last_gives_before(zone: Seq<Modulator>, level: ModulatorLevel, n: int, l: int, k: int, m: Modulator)
    requires
        spec_last_accepted(zone, level, n, l),
        m == zone[l],
        l < k,
    ensures
        spec_accepted_before(zone, level, k, m),
{
    assert(spec_accepted(zone, level, l) && spec_same_identity(zone[l], m));
}

/// The step of validation that replaces the first entry `j` with the identity of an
/// accepted modulator keeps every accepted identity.
proof fn lemma_replace_covers(zone: Seq<Modulator>, level: ModulatorLevel, n: int, acc: Seq<Modulator>, j: int)
    requires
        0 < n <= zone.len(),
        spec_is_first_identity(acc, zone[n - 1], j),
        spec_kept_covers(zone, level, n - 1, acc),
    ensures
        spec_kept_covers(zone, level, n, acc.update(j, zone[n - 1])),
{
    let r = acc.update(j, zone[n - 1]);
    assert forall|k: int| 0 <= k < n && spec_accepted(zone, level, k) implies exists|p: int|
        0 <= p < r.len() && spec_same_identity(#[trigger] r[p], zone[k]) by {
        if k == n - 1 {
            assert(spec_same_identity(r[j], zone[k]));
        } else {
            let p = choose|p: int| 0 <= p < acc.len() && spec_same_identity(#[trigger] acc[p], zone[k]);
            assert(spec_same_identity(r[p], zone[k]));
        }
    }
}

/// ... and each entry stays the last accepted one of its identity.
proof fn lemma_replace_last(zone: Seq<Modulator>, level: ModulatorLevel, n: int, acc: Seq<Modulator>, j: int)
    requires
        0 < n <= zone.len(),
        spec_accepted(zone, level, n - 1),
        spec_distinct_identities(acc),
        spec_is_first_identity(acc, zone[n - 1], j),
        spec_kept_last(zone, level, n - 1, acc),
    ensures
        spec_kept_last(zone, level, n, acc.update(j, zone[n - 1])),
{
    let m = zone[n - 1];
    let r = acc.update(j, m);
    assert forall|p: int| 0 <= p < r.len() implies #[trigger] spec_is_last_accepted(zone, level, n, r[p]) by {
        if p == j {
            assert(spec_last_accepted(zone, level, n, n - 1) && r[p] == zone[n - 1]);
        } else {
            assert(spec_is_last_accepted(zone, level, n - 1, acc[p]));
            let l = choose|l: int| #[trigger] spec_last_accepted(zone, level, n - 1, l) && acc[p] == zone[l];
            assert(!spec_same_identity(acc[j], acc[p]) && !spec_same_identity(acc[p], acc[j]));
            assert(spec_last_accepted(zone, level, n, l) && r[p] == zone[l]);
        }
    }
}

/// ... and the entries keep the order of first acceptance.
proof fn lemma_replace_order(zone: Seq<Modulator>, level: ModulatorLevel, n: int, acc: Seq<Modulator>, j: int)
    requires
        0 < n <= zone.len(),
        spec_distinct_identities(acc),
        spec_is_first_identity(acc, zone[n - 1], j),
        spec_kept_last(zone, level, n - 1, acc),
        spec_kept_first_order(zone, level, n - 1, acc),
    ensures
        spec_kept_first_order(zone, level, n, acc.update(j, zone[n - 1])),
{
    let m = zone[n - 1];
    let r = acc.update(j, m);
    assert forall|p: int, q: int, k: int|
        0 <= p < q < r.len() && 0 <= k < n && spec_accepted(zone, level, k) && spec_same_identity(
            #[trigger] zone[k],
            #[trigger] r[q],
        ) implies #[trigger] spec_accepted_before(zone, level, k, r[p]) by {
        assert(spec_same_identity(zone[k], acc[q]));
        assert(spec_same_identity(acc[p], r[p]));
        if k == n - 1 {
            if q != j {
                assert(!spec_same_identity(acc[j], acc[q]) && !spec_same_identity(acc[q], acc[j]));
            }
            assert(spec_is_last_accepted(zone, level, n - 1, acc[p]));
            let l = choose|l: int| #[trigger] spec_last_accepted(zone, level, n - 1, l) && acc[p] == zone[l];
            lemma_last_gives_before(zone, level, n - 1, l, k, r[p]);
        } else {
            assert(spec_accepted_before(zone, level, k, acc[p]));
            let k2 = choose|k2: int|
                0 <= k2 < k && #[trigger] spec_accepted(zone, level, k2) && spec_same_identity(zone[k2], acc[p]);
            assert(spec_accepted(zone, level, k2) && spec_same_identity(zone[k2], r[p]));
        }
    }
}

/// The step of validation that appends an accepted modulator of a new identity keeps
/// every accepted identity.
proof fn lemma_push_covers(zone: Seq<Modulator>, level: ModulatorLevel, n: int, acc: Seq<Modulator>)
    requires
        0 < n <= zone.len(),
        spec_kept_covers(zone, level, n - 1, acc),
    ensures
        spec_kept_covers(zone, level, n, acc.push(zone[n - 1])),
{
    let r = acc.push(zone[n - 1]);
    assert forall|k: int| 0 <= k < n && spec_accepted(zone, level, k) implies exists|p: int|
        0 <= p < r.len() && spec_same_identity(#[trigger] r[p], zone[k]) by {
        if k == n - 1 {
            assert(spec_same_identity(r[acc.len() as int], zone[k]));
        } else {
            let p = choose|p: int| 0 <= p < acc.len() && spec_same_identity(#[trigger] acc[p], zone[k]);
            assert(spec_same_identity(r[p], zone[k]));
        }
    }
}

/// ... and each entry is the last accepted one of its identity.
proof fn lemma_push_last(zone: Seq<Modulator>, level: ModulatorLevel, n: int, acc: Seq<Modulator>)
    requires
        0 < n <= zone.len(),
        spec_accepted(zone, level, n - 1),
        forall|x: int| 0 <= x < acc.len() ==> !spec_same_identity(#[trigger] acc[x], zone[n - 1]),
        spec_kept_last(zone, level, n - 1, acc),
    ensures
        spec_kept_last(zone, level, n, acc.push(zone[n - 1])),
{
    let m = zone[n - 1];
    let r = acc.push(m);
    assert forall|p: int| 0 <= p < r.len() implies #[trigger] spec_is_last_accepted(zone, level, n, r[p]) by {
        if p == acc.len() {
            assert(spec_last_accepted(zone, level, n, n - 1) && r[p] == zone[n - 1]);
        } else {
            assert(spec_is_last_accepted(zone, level, n - 1, acc[p]));
            let l = choose|l: int| #[trigger] spec_last_accepted(zone, level, n - 1, l) && acc[p] == zone[l];
            assert(!spec_same_identity(acc[p], m));
            assert(spec_last_accepted(zone, level, n, l) && r[p] == zone[l]);
        }
    }
}

/// ... and the entries keep the order of first acceptance.
proof fn lemma_push_order(zone: Seq<Modulator>, level: ModulatorLevel, n: int, acc: Seq<Modulator>)
    requires
        0 < n <= zone.len(),
        forall|x: int| 0 <= x < acc.len() ==> !spec_same_identity(#[trigger] acc[x], zone[n - 1]),
        spec_kept_covers(zone, level, n - 1, acc),
        spec_kept_last(zone, level, n - 1, acc),
        spec_kept_first_order(zone, level, n - 1, acc),
    ensures
        spec_kept_first_order(zone, level, n, acc.push(zone[n - 1])),
{
    let m = zone[n - 1];
    let r = acc.push(m);
    assert forall|p: int, q: int, k: int|
        0 <= p < q < r.len() && 0 <= k < n && spec_accepted(zone, level, k) && spec_same_identity(
            #[trigger] zone[k],
            #[trigger] r[q],
        ) implies #[trigger] spec_accepted_before(zone, level, k, r[p]) by {
        assert(r[p] == acc[p]);
        if q == acc.len() {
            if k == n - 1 {
                assert(spec_is_last_accepted(zone, level, n - 1, acc[p]));
                let l = choose|l: int| #[trigger] spec_last_accepted(zone, level, n - 1, l) && acc[p] == zone[l];
                lemma_last_gives_before(zone, level, n - 1, l, k, acc[p]);
            } else {
                let p2 = choose|p2: int| 0 <= p2 < acc.len() && spec_same_identity(#[trigger] acc[p2], zone[k]);
                assert(!spec_same_identity(acc[p2], m));
            }
        } else {
            assert(r[q] == acc[q]);
            if k == n - 1 {
                assert(!spec_same_identity(acc[q], m));
            } else {
                assert(spec_accepted_before(zone, level, k, acc[p]));
            }
        }
    }
}

proof fn lemma_kept_last_at_first(zone: Seq<Modulator>, level: ModulatorLevel, n: int)
    requires
        0 <= n <= zone.len(),
    ensures
        spec_kept_last_at_first(zone, level, n, spec_kept(zone, level, n)),
    decreases n,
{
    if n > 0 {
        lemma_kept_last_at_first(zone, level, n - 1);
        lemma_kept_props(zone, level, n - 1);
        let acc = spec_kept(zone, level, n - 1);
        let m = zone[n - 1];
        reveal(spec_accepted);
        if spec_accepted(zone, level, n - 1) {
            assert(spec_kept(zone, level, n) == spec_insert_or_replace(acc, m));
            if exists|j: int| spec_is_first_identity(acc, m, j) {
                let j = choose|j: int| spec_is_first_identity(acc, m, j);
                lemma_replace_covers(zone, level, n, acc, j);
                lemma_replace_last(zone, level, n, acc, j);
                lemma_replace_order(zone, level, n, acc, j);
            } else {
                assert forall|x: int| 0 <= x < acc.len() implies !spec_same_identity(#[trigger] acc[x], m) by {
                    if spec_same_identity(acc[x], m) {
                        lemma_first_identity_exists(acc, m, x);
                    }
                }
                lemma_push_covers(zone, level, n, acc);
                lemma_push_last(zone, level, n, acc);
                lemma_push_order(zone, level, n, acc);
            }
        } else {
            assert(spec_kept(zone, level, n) == acc);
            assert forall|p: int| 0 <= p < acc.len() implies #[trigger] spec_is_last_accepted(zone, level, n, acc[p]) by {
                assert(spec_is_last_accepted(zone, level, n - 1, acc[p]));
                let l = choose|l: int| #[trigger] spec_last_accepted(zone, level, n - 1, l) && acc[p] == zone[l];
                assert(spec_last_accepted(zone, level, n, l));
            }
        }
    }
}

/// Zone validation keeps every identity it accepts once, with the amount (and every
/// other field) of the last accepted modulator of that identity, at the place where the
/// identity was first accepted.
pub proof fn law_validate_zone_keeps_last_at_first(zone: Seq<Modulator>, level: ModulatorLevel)
    ensures
        spec_kept_last_at_first(zone, level, zone.len() as int, spec_validate_zone(zone, level)),
{
    lemma_kept_last_at_first(zone, level, zone.len() as int);
}

/// `g` shares its identity with no entry of `local`.
pub open spec fn spec_identity_absent(local: Seq<Modulator>, g: Modulator) -> bool {
    forall|j: int| 0 <= j < local.len() ==> !spec_same_identity(#[trigger] local[j], g)
}

proof fn lemma_merge_prefix_is_filter(global: Seq<Modulator>, local: Seq<Modulator>, n: int)
    requires
        0 <= n <= global.len(),
        spec_distinct_identities(global),
    ensures
        spec_merge_prefix(global, local, n) == local + global.take(n).filter(
            |g: Modulator| spec_identity_absent(local, g),
        ),
    decreases n,
{
    let p = |g: Modulator| spec_identity_absent(local, g);
    reveal(Seq::filter);
    if n == 0 {
        assert(global.take(0).filter(p) =~= Seq::<Modulator>::empty());
        assert(local + Seq::<Modulator>::empty() =~= local);
    } else {
        lemma_merge_prefix_is_filter(global, local, n - 1);
        let before = global.take(n - 1).filter(p);
        let acc = spec_merge_prefix(global, local, n - 1);
        let m = global[n - 1];
        assert(global.take(n).drop_last() =~= global.take(n - 1));
        assert(global.take(n).last() == m);
        let found = exists|j: int| 0 <= j < acc.len() && spec_same_identity(acc[j], m);
        if p(m) {
            assert(!found) by {
                assert forall|j: int| 0 <= j < acc.len() implies !spec_same_identity(acc[j], m) by {
                    if j < local.len() {
                        assert(acc[j] == local[j]);
                    } else {
                        assert(acc[j] == before[j - local.len()]);
                        assert(before.contains(before[j - local.len()]));
                        global.take(n - 1).lemma_filter_contains_rev(p, before[j - local.len()]);
                        let i = choose|i: int|
                            0 <= i < n - 1 && #[trigger] global.take(n - 1)[i] == before[j - local.len()];
                        assert(global[i] == acc[j]);
                        assert(!spec_same_identity(global[i], global[n - 1]));
                    }
                }
            }
            assert(local + before.push(m) =~= (local + before).push(m));
        } else {
            let j = choose|j: int| 0 <= j < local.len() && spec_same_identity(local[j], m);
            assert(acc[j] == local[j]);
            assert(found);
        }
    }
}

/// Merging a region's global and local modulators gives the local list followed by each
/// global entry, in order, whose identity the local list does not have, when the global
/// list has no duplicate identity.
pub proof fn law_merge_is_local_then_new_globals(global: Seq<Modulator>, local: Seq<Modulator>)
    requires
        spec_distinct_identities(global),
    ensures
        spec_merge(global, local) == local + global.filter(
            |g: Modulator| spec_identity_absent(local, g),
        ),
{
    lemma_merge_prefix_is_filter(global, local, global.len() as int);
    assert(global.take(global.len() as int) =~= global);
}

/// A source operand resolves to a controller exactly when its classification is the
/// "no controller" source or a valid one: the modulator loader and the voice agree on
/// which sources are usable.
pub proof fn law_controller_agrees_with_classification(v: u16)
    ensures
        crate::modulator_source::spec_controller(v) is Some <==> (spec_classify_source(v)
            == SourceClass::NoSource || spec_classify_source(v) == SourceClass::Valid),
{
}


/// The modulator record stored at `p`.
pub open spec fn spec_modulator_at(d: Seq<u8>, p: int) -> Modulator {
    Modulator {
        source: spec_u16_le(d, p),
        destination: spec_u16_le(d, p + 2),
        amount: spec_u16_le(d, p + 4) as i16,
        amount_source: spec_u16_le(d, p + 6),
        transform: spec_u16_le(d, p + 8),
    }
}

/// The warning for a PMOD/IMOD sub-chunk whose size is not a positive multiple of 10.
pub open spec fn spec_bad_modulator_chunk_message(size: nat) -> Seq<char> {
    "a modulator chunk had an invalid size ("@ + spec_decimal(size)
        + " bytes, not a positive multiple of 10); its modulators were ignored"@
}

impl Modulator {
    /// Reads a PMOD/IMOD sub-chunk. A chunk size that isn't a positive multiple
    /// of 10 bytes (one modulator record) is malformed; rather than failing the
    /// whole load, the chunk's bytes are discarded, a warning is recorded, and
    /// no modulators are returned for it.
    pub fn read_from_chunk(
        reader: &mut ByteReader,
        size: usize,
        warnings: &mut Vec<String>,
    ) -> (r: Result<Vec<Modulator>, SoundFontError>)
        requires
            old(reader).pos <= old(reader).data@.len(),
        ensures
            final(reader).data == old(reader).data,
            final(reader).pos <= final(reader).data@.len(),
            old(reader).remaining() < size ==> r is Err && r->Err_0
                == SoundFontError::UnexpectedEndOfData,
            old(reader).remaining() >= size ==> r is Ok && final(reader).pos == old(reader).pos
                + size,
            (size == 0 || size % 10 != 0) && old(reader).remaining() >= size ==> r->Ok_0@.len()
                == 0 && string_views(final(warnings)@) == string_views(old(warnings)@).push(
                spec_bad_modulator_chunk_message(size as nat),
            ),
            (size > 0 && size % 10 == 0) ==> string_views(final(warnings)@) == string_views(
                old(warnings)@,
            ),
            (size > 0 && size % 10 == 0 && old(reader).remaining() >= size) ==> {
                &&& r->Ok_0@.len() == size / 10 - 1
                &&& forall|i: int|
                    0 <= i < r->Ok_0@.len() ==> #[trigger] r->Ok_0@[i] == spec_modulator_at(
                        old(reader).data@,
                        old(reader).pos + 10 * i,
                    )
            },
    {
        if size == 0 || size % 10 != 0 {
            if reader.bytes_left() < size {
                return Err(SoundFontError::UnexpectedEndOfData);
            }
            reader.discard_data(size).unwrap();
            let mut message = String::from_str("a modulator chunk had an invalid size (");
            message.append(decimal_string(size as u64).as_str());
            message.append(" bytes, not a positive multiple of 10); its modulators were ignored");
            warnings.push(message);
            assert(string_views(warnings@) =~= string_views(old(warnings)@).push(
                spec_bad_modulator_chunk_message(size as nat),
            ));
            return Ok(Vec::new());
        }
        if reader.bytes_left() < size {
            return Err(SoundFontError::UnexpectedEndOfData);
        }
        let count = size / 10 - 1;
        let start = reader.pos;
        let ghost d = reader.data@;
        let mut modulators: Vec<Modulator> = Vec::new();
        let mut i: usize = 0;
        while i < count
            invariant
                i <= count,
                count == size / 10 - 1,
                size % 10 == 0,
                reader.data == old(reader).data,
                d == reader.data@,
                start == old(reader).pos,
                start + size <= d.len(),
                reader.pos == start + 10 * i,
                modulators@.len() == i,
                forall|k: int|
                    0 <= k < i ==> #[trigger] modulators@[k] == spec_modulator_at(d, start + 10 * k),
            decreases count - i,
        {
            let source = reader.read_u16().unwrap();
            let destination = reader.read_u16().unwrap();
            let amount = reader.read_i16().unwrap();
            let amount_source = reader.read_u16().unwrap();
            let transform = reader.read_u16().unwrap();
            modulators.push(Modulator { source, destination, amount, amount_source, transform });
            i += 1;
        }
        // The last one is the terminator.
        reader.discard_data(10).unwrap();
        Ok(modulators)
    }
}


impl ModulatorDropCounts {
    /// Every count can grow by `n` without overflowing.
    pub open spec fn spec_has_room(&self, n: nat) -> bool {
        forall|r: ModulatorDropReason| #[trigger] self.count_of(r) + n <= usize::MAX
    }

    /// True when every count can grow by `n` without overflowing.
    pub fn has_room(&self, n: usize) -> (r: bool)
        ensures
            r == self.spec_has_room(n as nat),
    {
        let r = self.reserved_source <= usize::MAX - n && self.primary_source_none <= usize::MAX
            - n && self.linked <= usize::MAX - n && self.linked_amount_source <= usize::MAX - n
            && self.dangling_link <= usize::MAX - n && self.unfed_link_source <= usize::MAX - n
            && self.banned_cc <= usize::MAX - n && self.invalid_transform <= usize::MAX - n
            && self.invalid_destination <= usize::MAX - n;
        proof {
            if r {
                assert forall|x: ModulatorDropReason| #[trigger] self.count_of(x) + n <= usize::MAX by {
                    match x {
                        ModulatorDropReason::ReservedSource => {},
                        ModulatorDropReason::PrimarySourceNone => {},
                        ModulatorDropReason::Linked => {},
                        ModulatorDropReason::LinkedAmountSource => {},
                        ModulatorDropReason::DanglingLink => {},
                        ModulatorDropReason::UnfedLinkSource => {},
                        ModulatorDropReason::BannedCc => {},
                        ModulatorDropReason::InvalidTransform => {},
                        ModulatorDropReason::InvalidDestination => {},
                    }
                }
            } else {
                if self.reserved_source > usize::MAX - n {
                    assert(self.count_of(ModulatorDropReason::ReservedSource) + n > usize::MAX);
                } else if self.primary_source_none > usize::MAX - n {
                    assert(self.count_of(ModulatorDropReason::PrimarySourceNone) + n > usize::MAX);
                } else if self.linked > usize::MAX - n {
                    assert(self.count_of(ModulatorDropReason::Linked) + n > usize::MAX);
                } else if self.linked_amount_source > usize::MAX - n {
                    assert(self.count_of(ModulatorDropReason::LinkedAmountSource) + n > usize::MAX);
                } else if self.dangling_link > usize::MAX - n {
                    assert(self.count_of(ModulatorDropReason::DanglingLink) + n > usize::MAX);
                } else if self.unfed_link_source > usize::MAX - n {
                    assert(self.count_of(ModulatorDropReason::UnfedLinkSource) + n > usize::MAX);
                } else if self.banned_cc > usize::MAX - n {
                    assert(self.count_of(ModulatorDropReason::BannedCc) + n > usize::MAX);
                } else if self.invalid_transform > usize::MAX - n {
                    assert(self.count_of(ModulatorDropReason::InvalidTransform) + n > usize::MAX);
                } else {
                    assert(self.count_of(ModulatorDropReason::InvalidDestination) + n > usize::MAX);
                }
            }
        }
        r
    }
}

} // verus!
