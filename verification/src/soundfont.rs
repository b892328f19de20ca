//! SoundFont files: the RIFF `sfbk` form with its INFO, sdta and pdta lists, and the
//! sanity check that removes instrument regions which cannot be played.

use vstd::prelude::*;

use crate::binary_reader::{spec_four_cc, ByteReader};
use crate::error::SoundFontError;
use crate::four_cc::{code, FourCC};
use crate::instrument::Instrument;
use crate::instrument_region::InstrumentRegion;
use crate::loop_mode::LoopMode;
use crate::modulator::string_views;
use crate::preset::Preset;
use crate::sample_header::SampleHeader;
use crate::soundfont_info::{spec_info_list, InfoView, SoundFontInfo};
use crate::soundfont_parameters::{
    lemma_built_regions,
    spec_pdta_buildable,
    spec_pdta_built,
    spec_pdta_error_is,
    spec_pdta_layout,
    SoundFontParameters,
};
use crate::soundfont_sampledata::{read_sample_data, spec_sample_data};
use crate::text::{decimal_string, signed_decimal_string, spec_decimal, spec_signed_decimal};

verus! {

/// Represents a SoundFont.
#[derive(Debug)]
pub struct SoundFont {
    pub info: SoundFontInfo,
    pub bits_per_sample: i32,
    pub wave_data: Vec<i16>,
    pub sample_headers: Vec<SampleHeader>,
    pub presets: Vec<Preset>,
    pub instruments: Vec<Instrument>,
    pub warnings: Vec<String>,
}

/// Why the sanity check removes a region, given the length of the sample data; none
/// when the region can be played. The end points must lie inside the sample data and the
/// sample must not be empty or reversed. Only a looping region reads its loop points:
/// they must then lie inside the sample data and make a loop that is not empty.
pub open spec fn spec_region_problem(r: InstrumentRegion, wave_len: int) -> Option<Seq<char>> {
    let start = r.spec_sample_start() as int;
    let end = r.spec_sample_end() as int;
    let start_loop = r.spec_sample_start_loop() as int;
    let end_loop = r.spec_sample_end_loop() as int;
    let loops = r.spec_sample_modes() != LoopMode::NoLoop;
    if start < 0 {
        Some("sample_start "@ + spec_signed_decimal(start) + " < 0"@)
    } else if loops && start_loop < 0 {
        Some("sample_start_loop "@ + spec_signed_decimal(start_loop) + " < 0"@)
    } else if end < 0 || end >= wave_len {
        Some(
            "sample_end "@ + spec_signed_decimal(end) + " >= wave_data len "@ + spec_decimal(
                wave_len as nat,
            ),
        )
    } else if loops && (end_loop < 0 || end_loop >= wave_len) {
        Some(
            "sample_end_loop "@ + spec_signed_decimal(end_loop) + " >= wave_data len "@
                + spec_decimal(wave_len as nat),
        )
    } else if end <= start {
        Some(
            "sample_end "@ + spec_signed_decimal(end) + " <= sample_start "@ + spec_signed_decimal(
                start,
            ),
        )
    } else if loops && end_loop < start_loop {
        Some(
            "end_loop "@ + spec_signed_decimal(end_loop) + " < start_loop "@ + spec_signed_decimal(
                start_loop,
            ),
        )
    } else if loops && start_loop >= end_loop {
        Some(
            "loop mode active but start_loop "@ + spec_signed_decimal(start_loop) + " >= end_loop "@
                + spec_signed_decimal(end_loop),
        )
    } else {
        None
    }
}

/// The warning for a region of instrument `name` removed for `reason`.
pub open spec fn spec_region_message(name: Seq<char>, reason: Seq<char>) -> Seq<char> {
    "instrument '"@ + name + "': region removed ("@ + reason + ")"@
}

/// The warning for an instrument all of whose `count` regions were removed.
pub open spec fn spec_all_removed_message(name: Seq<char>, count: nat) -> Seq<char> {
    "instrument '"@ + name + "': all "@ + spec_decimal(count) + " regions removed"@
}

/// The regions the sanity check keeps, in their order.
pub open spec fn spec_kept_regions(rs: Seq<InstrumentRegion>, wave_len: int) -> Seq<
    InstrumentRegion,
>
    decreases rs.len(),
{
    if rs.len() == 0 {
        Seq::empty()
    } else {
        let kept = spec_kept_regions(rs.drop_last(), wave_len);
        if spec_region_problem(rs.last(), wave_len) is None {
            kept.push(rs.last())
        } else {
            kept
        }
    }
}

/// The warnings for the regions of instrument `name` that the sanity check removes, in
/// their order.
pub open spec fn spec_region_warnings(
    name: Seq<char>,
    rs: Seq<InstrumentRegion>,
    wave_len: int,
) -> Seq<Seq<char>>
    decreases rs.len(),
{
    if rs.len() == 0 {
        Seq::empty()
    } else {
        spec_region_warnings(name, rs.drop_last(), wave_len) + match spec_region_problem(
            rs.last(),
            wave_len,
        ) {
            Some(reason) => seq![spec_region_message(name, reason)],
            None => Seq::empty(),
        }
    }
}

/// The warnings the sanity check gives for one instrument: one per removed region, and
/// one more when it removed every region of an instrument that had some.
pub open spec fn spec_instrument_warnings(inst: Instrument, wave_len: int) -> Seq<Seq<char>> {
    spec_region_warnings(inst.name@, inst.regions@, wave_len) + if inst.regions@.len() > 0
        && spec_kept_regions(inst.regions@, wave_len).len() == 0 {
        seq![spec_all_removed_message(inst.name@, inst.regions@.len())]
    } else {
        Seq::empty()
    }
}

/// The warnings the sanity check gives for a list of instruments, in their order.
pub open spec fn spec_sanitize_warnings(insts: Seq<Instrument>, wave_len: int) -> Seq<Seq<char>>
    decreases insts.len(),
{
    if insts.len() == 0 {
        Seq::empty()
    } else {
        spec_sanitize_warnings(insts.drop_last(), wave_len) + spec_instrument_warnings(
            insts.last(),
            wave_len,
        )
    }
}

/// `out` are the instruments `insts` after the sanity check: the same names, with only
/// the regions that can be played.
pub open spec fn spec_sanitized(insts: Seq<Instrument>, out: Seq<Instrument>, wave_len: int) -> bool {
    &&& out.len() == insts.len()
    &&& forall|k: int|
        0 <= k < out.len() ==> (#[trigger] out[k]).name == insts[k].name && out[k].regions@
            == spec_kept_regions(insts[k].regions@, wave_len)
}

/// Every region of every instrument has a slot for each generator.
pub open spec fn spec_regions_wf(insts: Seq<Instrument>) -> bool {
    forall|k: int, j: int|
        0 <= k < insts.len() && 0 <= j < insts[k].regions@.len() ==> (
        #[trigger] insts[k].regions@[j]).wf()
}

/// The RIFF header at the start of `d`: where its lists start, or why it is not a
/// SoundFont.
pub open spec fn spec_riff_header(d: Seq<u8>) -> Result<int, SoundFontError> {
    if d.len() < 4 {
        Err(SoundFontError::UnexpectedEndOfData)
    } else if spec_four_cc(d, 0) != code(0x52, 0x49, 0x46, 0x46) {
        Err(SoundFontError::RiffChunkNotFound)
    } else if d.len() < 12 {
        Err(SoundFontError::UnexpectedEndOfData)
    } else if spec_four_cc(d, 8) != code(0x73, 0x66, 0x62, 0x6b) {
        Err(
            SoundFontError::InvalidRiffChunkType {
                expected: code(0x73, 0x66, 0x62, 0x6b),
                actual: spec_four_cc(d, 8),
            },
        )
    } else {
        Ok(12)
    }
}

/// What the lists of a SoundFont file say: its information, its samples, where the
/// pdta sub-chunks lie and the warnings reading them gave; or why the file cannot be
/// read. A file of version 3 holds compressed samples, which are not supported.
pub open spec fn spec_sound_font_layout(d: Seq<u8>) -> Result<
    (InfoView, Seq<i16>, Map<int, (int, int)>, Seq<Seq<char>>),
    SoundFontError,
> {
    match spec_riff_header(d) {
        Err(e) => Err(e),
        Ok(p) => match spec_info_list(d, p) {
            Err(e) => Err(e),
            Ok((info, q1)) => if info.version.major == 3 {
                Err(SoundFontError::UnsupportedSampleFormat)
            } else {
                match spec_sample_data(d, q1) {
                    Err(e) => Err(e),
                    Ok((wave, q2)) => match spec_pdta_layout(d, q2) {
                        Err(e) => Err(e),
                        Ok((m, w, q3)) => Ok((info, wave, m, w)),
                    },
                }
            },
        },
    }
}

/// Reads the RIFF header of a SoundFont file.
fn read_riff_header(reader: &mut ByteReader) -> (r: Result<(), SoundFontError>)
    requires
        old(reader).pos == 0,
    ensures
        final(reader).data == old(reader).data,
        final(reader).pos <= final(reader).data@.len(),
        spec_riff_header(old(reader).data@) == match r {
            Ok(_) => Ok(final(reader).pos as int),
            Err(e) => Err(e),
        },
{
    let chunk_id = match reader.read_four_cc() {
        Ok(id) => id,
        Err(_) => return Err(SoundFontError::UnexpectedEndOfData),
    };
    if chunk_id != (FourCC { b0: 0x52, b1: 0x49, b2: 0x46, b3: 0x46 }) {
        return Err(SoundFontError::RiffChunkNotFound);
    }
    if reader.bytes_left() < 8 {
        return Err(SoundFontError::UnexpectedEndOfData);
    }
    let _size = reader.read_i32().unwrap();
    let form_type = reader.read_four_cc().unwrap();
    if form_type != (FourCC { b0: 0x73, b1: 0x66, b2: 0x62, b3: 0x6b }) {
        return Err(
            SoundFontError::InvalidRiffChunkType {
                expected: FourCC { b0: 0x73, b1: 0x66, b2: 0x62, b3: 0x6b },
                actual: form_type,
            },
        );
    }
    Ok(())
}

/// Works out why the sanity check removes a region of instrument `name`, and writes the
/// warning it gives.
fn region_problem(region: &InstrumentRegion, name: &str, wave_len: usize) -> (r: Option<String>)
    requires
        region.wf(),
    ensures
        match spec_region_problem(*region, wave_len as int) {
            Some(reason) => r is Some && r->0@ == spec_region_message(name@, reason),
            None => r is None,
        },
{
    let start = region.get_sample_start();
    let end = region.get_sample_end();
    let start_loop = region.get_sample_start_loop();
    let end_loop = region.get_sample_end_loop();
    let loops = region.get_sample_modes() != LoopMode::NoLoop;
    let mut reason: String;
    if start < 0 {
        reason = String::from_str("sample_start ");
        reason.append(signed_decimal_string(start as i64).as_str());
        reason.append(" < 0");
    } else if loops && start_loop < 0 {
        reason = String::from_str("sample_start_loop ");
        reason.append(signed_decimal_string(start_loop as i64).as_str());
        reason.append(" < 0");
    } else if end < 0 || end as usize >= wave_len {
        reason = String::from_str("sample_end ");
        reason.append(signed_decimal_string(end as i64).as_str());
        reason.append(" >= wave_data len ");
        reason.append(decimal_string(wave_len as u64).as_str());
    } else if loops && (end_loop < 0 || end_loop as usize >= wave_len) {
        reason = String::from_str("sample_end_loop ");
        reason.append(signed_decimal_string(end_loop as i64).as_str());
        reason.append(" >= wave_data len ");
        reason.append(decimal_string(wave_len as u64).as_str());
    } else if end <= start {
        reason = String::from_str("sample_end ");
        reason.append(signed_decimal_string(end as i64).as_str());
        reason.append(" <= sample_start ");
        reason.append(signed_decimal_string(start as i64).as_str());
    } else if loops && end_loop < start_loop {
        reason = String::from_str("end_loop ");
        reason.append(signed_decimal_string(end_loop as i64).as_str());
        reason.append(" < start_loop ");
        reason.append(signed_decimal_string(start_loop as i64).as_str());
    } else if loops && start_loop >= end_loop {
        reason = String::from_str("loop mode active but start_loop ");
        reason.append(signed_decimal_string(start_loop as i64).as_str());
        reason.append(" >= end_loop ");
        reason.append(signed_decimal_string(end_loop as i64).as_str());
    } else {
        return None;
    }
    let mut message = String::from_str("instrument '");
    message.append(name);
    message.append("': region removed (");
    message.append(reason.as_str());
    message.append(")");
    Some(message)
}

/// Removes the regions of one instrument that cannot be played, and adds the warnings
/// for them.
fn sanitize_instrument(inst: Instrument, wave_len: usize, warnings: &mut Vec<String>) -> (out:
    Instrument)
    requires
        forall|j: int| 0 <= j < inst.regions@.len() ==> (#[trigger] inst.regions@[j]).wf(),
    ensures
        out.name == inst.name,
        out.regions@ == spec_kept_regions(inst.regions@, wave_len as int),
        string_views(final(warnings)@) == string_views(old(warnings)@) + spec_instrument_warnings(
            inst,
            wave_len as int,
        ),
{
    let Instrument { name, regions } = inst;
    let mut regions = regions;
    let ghost orig = regions@;
    let ghost w0 = string_views(warnings@);
    let before = regions.len();
    let mut i: usize = 0;
    let mut j: usize = 0;
    while j < before
        invariant
            j <= before,
            before == orig.len(),
            forall|t: int| 0 <= t < orig.len() ==> (#[trigger] orig[t]).wf(),
            i == spec_kept_regions(orig.take(j as int), wave_len as int).len(),
            regions@.len() == i + (before - j),
            i <= j,
            regions@ == spec_kept_regions(orig.take(j as int), wave_len as int) + orig.skip(
                j as int,
            ),
            string_views(warnings@) == w0 + spec_region_warnings(
                name@,
                orig.take(j as int),
                wave_len as int,
            ),
        decreases before - j,
    {
        let ghost next = orig.take(j + 1);
        proof {
            assert(next.drop_last() =~= orig.take(j as int));
            assert(next.last() == orig[j as int]);
            assert(spec_region_warnings(name@, next, wave_len as int) == spec_region_warnings(
                name@,
                orig.take(j as int),
                wave_len as int,
            ) + match spec_region_problem(orig[j as int], wave_len as int) {
                Some(reason) => seq![spec_region_message(name@, reason)],
                None => Seq::empty(),
            });
        }
        let ghost w_before = string_views(warnings@);
        assert(regions@[i as int] == orig[j as int]);
        let problem = region_problem(&regions[i], name.as_str(), wave_len);
        match problem {
            Some(message) => {
                warnings.push(message);
                regions.remove(i);
                assert(string_views(warnings@) =~= w_before.push(message@));
            },
            None => {
                i += 1;
            },
        }
        j += 1;
        assert(regions@ =~= spec_kept_regions(orig.take(j as int), wave_len as int) + orig.skip(
            j as int,
        ));
        assert(string_views(warnings@) =~= w0 + spec_region_warnings(
            name@,
            orig.take(j as int),
            wave_len as int,
        ));
    }
    assert(orig.take(before as int) =~= orig);
    assert(regions@ =~= spec_kept_regions(orig, wave_len as int));
    if before > 0 && regions.len() == 0 {
        let mut message = String::from_str("instrument '");
        message.append(name.as_str());
        message.append("': all ");
        message.append(decimal_string(before as u64).as_str());
        message.append(" regions removed");
        warnings.push(message);
    }
    assert(string_views(warnings@) =~= w0 + spec_region_warnings(name@, orig, wave_len as int) + (
    if orig.len() > 0 && spec_kept_regions(orig, wave_len as int).len() == 0 {
        seq![spec_all_removed_message(name@, orig.len())]
    } else {
        Seq::empty()
    }));
    Instrument { name, regions }
}


/// Removes, from every instrument, the regions that cannot be played, and adds the
/// warnings for them.
pub fn sanitize_instruments(insts: Vec<Instrument>, wave_len: usize, warnings: &mut Vec<String>) -> (out:
    Vec<Instrument>)
    requires
        spec_regions_wf(insts@),
    ensures
        spec_sanitized(insts@, out@, wave_len as int),
        string_views(final(warnings)@) == string_views(old(warnings)@) + spec_sanitize_warnings(
            insts@,
            wave_len as int,
        ),
{
    let ghost orig = insts@;
    let n = insts.len();
    let mut rest = insts;
    let mut reversed: Vec<Instrument> = Vec::new();
    while rest.len() > 0
        invariant
            n == orig.len(),
            reversed@.len() <= n,
            rest@ == orig.take(n - reversed@.len()),
            forall|t: int| 0 <= t < reversed@.len() ==> #[trigger] reversed@[t] == orig[n - 1 - t],
        decreases rest@.len(),
    {
        let x = rest.pop().unwrap();
        reversed.push(x);
        assert(rest@ =~= orig.take(n - reversed@.len()));
    }
    let ghost w0 = string_views(warnings@);
    let mut out: Vec<Instrument> = Vec::new();
    while reversed.len() > 0
        invariant
            n == orig.len(),
            spec_regions_wf(orig),
            out@.len() + reversed@.len() == n,
            forall|t: int| 0 <= t < reversed@.len() ==> #[trigger] reversed@[t] == orig[n - 1 - t],
            spec_sanitized(orig.take(out@.len() as int), out@, wave_len as int),
            string_views(warnings@) == w0 + spec_sanitize_warnings(
                orig.take(out@.len() as int),
                wave_len as int,
            ),
        decreases reversed@.len(),
    {
        let ghost k = out@.len() as int;
        let inst = reversed.pop().unwrap();
        assert(inst == orig[k]);
        assert forall|j: int| 0 <= j < inst.regions@.len() implies (#[trigger] inst.regions@[j]).wf() by {
            assert(orig[k].regions@[j].wf());
        }
        let ghost next = orig.take(k + 1);
        proof {
            assert(next.drop_last() =~= orig.take(k));
            assert(next.last() == orig[k]);
        }
        let s = sanitize_instrument(inst, wave_len, warnings);
        out.push(s);
        assert(string_views(warnings@) =~= w0 + spec_sanitize_warnings(next, wave_len as int));
        assert forall|t: int| 0 <= t < out@.len() implies (#[trigger] out@[t]).name == next[t].name
            && out@[t].regions@ == spec_kept_regions(next[t].regions@, wave_len as int) by {
            if t < k {
                assert(next[t] == orig.take(k)[t]);
            }
        }
    }
    assert(orig.take(n as int) =~= orig);
    out
}

/// Every region the sanity check keeps is one of the given regions and can be played.
pub proof fn lemma_kept_regions(rs: Seq<InstrumentRegion>, wave_len: int)
    ensures
        spec_kept_regions(rs, wave_len).len() <= rs.len(),
        forall|j: int|
            0 <= j < spec_kept_regions(rs, wave_len).len() ==> spec_region_problem(
                #[trigger] spec_kept_regions(rs, wave_len)[j],
                wave_len,
            ) is None && exists|i: int|
                0 <= i < rs.len() && rs[i] == spec_kept_regions(rs, wave_len)[j],
    decreases rs.len(),
{
    if rs.len() > 0 {
        let prefix = rs.drop_last();
        lemma_kept_regions(prefix, wave_len);
        let kept = spec_kept_regions(rs, wave_len);
        let sub = spec_kept_regions(prefix, wave_len);
        assert forall|j: int| 0 <= j < kept.len() implies spec_region_problem(
            #[trigger] kept[j],
            wave_len,
        ) is None && exists|i: int| 0 <= i < rs.len() && rs[i] == kept[j] by {
            if j < sub.len() {
                assert(kept[j] == sub[j]);
                let i = choose|i: int| 0 <= i < prefix.len() && prefix[i] == sub[j];
                assert(rs[i] == prefix[i]);
            } else {
                assert(kept[j] == rs.last());
                assert(rs[rs.len() - 1] == rs.last());
            }
        }
    }
}

/// After the sanity check every remaining region can be played, and keeps its slot for
/// each generator.
pub proof fn lemma_sanitized_regions(insts: Seq<Instrument>, out: Seq<Instrument>, wave_len: int)
    requires
        spec_regions_wf(insts),
        spec_sanitized(insts, out, wave_len),
    ensures
        spec_regions_wf(out),
        forall|k: int, j: int|
            0 <= k < out.len() && 0 <= j < out[k].regions@.len() ==> spec_region_problem(
                #[trigger] out[k].regions@[j],
                wave_len,
            ) is None,
{
    assert forall|k: int, j: int|
        0 <= k < out.len() && 0 <= j < out[k].regions@.len() implies spec_region_problem(
        #[trigger] out[k].regions@[j],
        wave_len,
    ) is None && out[k].regions@[j].wf() by {
        lemma_kept_regions(insts[k].regions@, wave_len);
        assert(out[k].regions@ == spec_kept_regions(insts[k].regions@, wave_len));
        let i = choose|i: int|
            0 <= i < insts[k].regions@.len() && insts[k].regions@[i] == spec_kept_regions(
                insts[k].regions@,
                wave_len,
            )[j];
        assert(insts[k].regions@[i].wf());
    }
}

/// The sanity check is idempotent: run again on the regions it kept, it keeps them all
/// and warns of nothing.
pub proof fn law_sanity_check_idempotent(name: Seq<char>, rs: Seq<InstrumentRegion>, wave_len: int)
    ensures
        spec_kept_regions(spec_kept_regions(rs, wave_len), wave_len) == spec_kept_regions(
            rs,
            wave_len,
        ),
        spec_region_warnings(name, spec_kept_regions(rs, wave_len), wave_len) == Seq::<
            Seq<char>,
        >::empty(),
{
    lemma_kept_regions(rs, wave_len);
    lemma_all_playable_kept(name, spec_kept_regions(rs, wave_len), wave_len);
}

/// Regions that can all be played are all kept, without warnings.
proof fn lemma_all_playable_kept(name: Seq<char>, rs: Seq<InstrumentRegion>, wave_len: int)
    requires
        forall|j: int| 0 <= j < rs.len() ==> spec_region_problem(#[trigger] rs[j], wave_len) is None,
    ensures
        spec_kept_regions(rs, wave_len) == rs,
        spec_region_warnings(name, rs, wave_len) == Seq::<Seq<char>>::empty(),
    decreases rs.len(),
{
    if rs.len() > 0 {
        let prefix = rs.drop_last();
        assert forall|j: int| 0 <= j < prefix.len() implies spec_region_problem(
            #[trigger] prefix[j],
            wave_len,
        ) is None by {
            assert(prefix[j] == rs[j]);
        }
        lemma_all_playable_kept(name, prefix, wave_len);
        assert(spec_region_problem(rs[rs.len() - 1], wave_len) is None);
        assert(prefix.push(rs.last()) =~= rs);
        assert(Seq::<Seq<char>>::empty() + Seq::<Seq<char>>::empty() =~= Seq::<Seq<char>>::empty());
    }
}

/// A region the sanity check keeps passes every check: its end points lie inside the
/// sample data and it is not empty or reversed; a looping region has a loop that is not
/// empty, inside the sample data.
pub proof fn law_kept_region_is_playable(rs: Seq<InstrumentRegion>, wave_len: int, j: int)
    requires
        0 <= j < spec_kept_regions(rs, wave_len).len(),
    ensures
        ({
            let r = spec_kept_regions(rs, wave_len)[j];
            &&& 0 <= r.spec_sample_start() < r.spec_sample_end() < wave_len
            &&& r.spec_sample_modes() != LoopMode::NoLoop ==> 0 <= r.spec_sample_start_loop()
                < r.spec_sample_end_loop() < wave_len
        }),
{
    lemma_kept_regions(rs, wave_len);
    assert(spec_region_problem(spec_kept_regions(rs, wave_len)[j], wave_len) is None);
}

impl SoundFont {
    /// The SoundFont's loaded state: every region has a slot for each generator, every
    /// instrument region can be played, and every preset region has a slot for each
    /// generator and names an instrument.
    pub open spec fn wf(&self) -> bool {
        &&& spec_regions_wf(self.instruments@)
        &&& forall|k: int, j: int|
            0 <= k < self.instruments@.len() && 0 <= j < self.instruments@[k].regions@.len()
                ==> spec_region_problem(
                #[trigger] self.instruments@[k].regions@[j],
                self.wave_data@.len() as int,
            ) is None
        &&& forall|k: int, j: int|
            0 <= k < self.presets@.len() && 0 <= j < self.presets@[k].regions@.len() ==> (
            #[trigger] self.presets@[k].regions@[j]).instrument < self.instruments@.len()
                && self.presets@[k].regions@[j].wf()
    }

    /// Loads a SoundFont from the bytes of a SoundFont file. A file whose layout cannot be
    /// read fails with the error of its layout; one whose presets and instruments cannot be
    /// built fails with the error of the first stage that fails (`spec_pdta_error_is`:
    /// instrument zones, instruments, preset zones, presets), and loads whenever they can.
    #[verifier::rlimit(40)]
    pub fn new(data: &[u8]) -> (r: Result<SoundFont, SoundFontError>)
        ensures
            spec_sound_font_layout(data@) is Err ==> r is Err && r->Err_0 == spec_sound_font_layout(
                data@,
            )->Err_0,
            r is Ok ==> {
                let layout = spec_sound_font_layout(data@);
                let sf = r->Ok_0;
                &&& layout is Ok
                &&& sf.info@ == layout->Ok_0.0
                &&& sf.bits_per_sample == 16
                &&& sf.wave_data@ == layout->Ok_0.1
                &&& exists|raw: Seq<Instrument>, loaded: Seq<Seq<char>>|
                    #[trigger] spec_pdta_built(
                        data@,
                        layout->Ok_0.2,
                        layout->Ok_0.3,
                        sf.sample_headers@,
                        raw,
                        sf.presets@,
                        loaded,
                    ) && spec_sanitized(raw, sf.instruments@, sf.wave_data@.len() as int)
                        && string_views(sf.warnings@) == loaded + spec_sanitize_warnings(
                        raw,
                        sf.wave_data@.len() as int,
                    )
                &&& sf.wf()
            },
            spec_sound_font_layout(data@) is Ok && spec_pdta_buildable(
                data@,
                spec_sound_font_layout(data@)->Ok_0.2,
            ) ==> r is Ok,
            spec_sound_font_layout(data@) is Ok && r is Err ==> !spec_pdta_buildable(
                data@,
                spec_sound_font_layout(data@)->Ok_0.2,
            ),
            r is Err && spec_sound_font_layout(data@) is Ok ==> spec_pdta_error_is(
                data@,
                spec_sound_font_layout(data@)->Ok_0.2,
                r->Err_0,
            ),
    {
        let mut reader = ByteReader::new(data);
        read_riff_header(&mut reader)?;
        let info = SoundFontInfo::read(&mut reader)?;
        if info.version.major == 3 {
            return Err(SoundFontError::UnsupportedSampleFormat);
        }
        let wave_data = read_sample_data(&mut reader)?;
        let ghost q2 = reader.pos as int;
        let parameters = SoundFontParameters::read(&mut reader)?;
        let ghost raw = parameters.instruments@;
        let ghost loaded = string_views(parameters.warnings@);
        let ghost layout = spec_pdta_layout(data@, q2);
        proof {
            lemma_built_regions(
                data@,
                layout->Ok_0.0,
                layout->Ok_0.1,
                parameters.sample_headers@,
                raw,
                parameters.presets@,
                loaded,
            );
        }
        let sound_font = SoundFont::from_parts(info, wave_data, parameters);
        proof {
            assert(spec_sound_font_layout(data@) == Ok::<
                (InfoView, Seq<i16>, Map<int, (int, int)>, Seq<Seq<char>>),
                SoundFontError,
            >((sound_font.info@, sound_font.wave_data@, layout->Ok_0.0, layout->Ok_0.1)));
            assert(spec_pdta_built(
                data@,
                layout->Ok_0.0,
                layout->Ok_0.1,
                sound_font.sample_headers@,
                raw,
                sound_font.presets@,
                loaded,
            ));
            let sl = spec_sound_font_layout(data@);
            assert(sl->Ok_0.2 == layout->Ok_0.0);
            assert(sl->Ok_0.3 == layout->Ok_0.1);
            assert(spec_pdta_built(
                data@,
                sl->Ok_0.2,
                sl->Ok_0.3,
                sound_font.sample_headers@,
                raw,
                sound_font.presets@,
                loaded,
            ) && spec_sanitized(raw, sound_font.instruments@, sound_font.wave_data@.len() as int)
                && string_views(sound_font.warnings@) == loaded + spec_sanitize_warnings(
                raw,
                sound_font.wave_data@.len() as int,
            ));
        }
        Ok(sound_font)
    }

    /// Assembles a SoundFont from its lists and runs the sanity check on it.
    fn from_parts(info: SoundFontInfo, wave_data: Vec<i16>, parameters: SoundFontParameters) -> (sf:
        SoundFont)
        requires
            spec_regions_wf(parameters.instruments@),
            forall|k: int, j: int|
                0 <= k < parameters.presets@.len() && 0 <= j
                    < parameters.presets@[k].regions@.len() ==> (
                #[trigger] parameters.presets@[k].regions@[j]).instrument
                    < parameters.instruments@.len() && parameters.presets@[k].regions@[j].wf(),
        ensures
            sf.info == info,
            sf.bits_per_sample == 16,
            sf.wave_data == wave_data,
            sf.sample_headers == parameters.sample_headers,
            sf.presets == parameters.presets,
            spec_sanitized(parameters.instruments@, sf.instruments@, wave_data@.len() as int),
            string_views(sf.warnings@) == string_views(parameters.warnings@)
                + spec_sanitize_warnings(parameters.instruments@, wave_data@.len() as int),
            sf.wf(),
    {
        let SoundFontParameters { sample_headers, presets, instruments, warnings } = parameters;
        let ghost raw = instruments@;
        let mut sound_font = SoundFont {
            info,
            bits_per_sample: 16,
            wave_data,
            sample_headers,
            presets,
            instruments,
            warnings,
        };
        sound_font.sanitize();
        proof {
            lemma_sanitized_regions(raw, sound_font.instruments@, sound_font.wave_data@.len() as int);
        }
        sound_font
    }

    /// Gets the information of the SoundFont.
    pub fn get_info(&self) -> (r: &SoundFontInfo)
        ensures
            r == &self.info,
    {
        &self.info
    }

    /// Gets the bits per sample of the sample data.
    pub fn get_bits_per_sample(&self) -> (r: i32)
        ensures
            r == self.bits_per_sample,
    {
        self.bits_per_sample
    }

    /// Gets the sample data.
    pub fn get_wave_data(&self) -> (r: &[i16])
        ensures
            r@ == self.wave_data@,
    {
        self.wave_data.as_slice()
    }

    /// Gets the samples of the SoundFont.
    pub fn get_sample_headers(&self) -> (r: &[SampleHeader])
        ensures
            r@ == self.sample_headers@,
    {
        self.sample_headers.as_slice()
    }

    /// Gets the presets of the SoundFont.
    pub fn get_presets(&self) -> (r: &[Preset])
        ensures
            r@ == self.presets@,
    {
        self.presets.as_slice()
    }

    /// Gets the instruments of the SoundFont.
    pub fn get_instruments(&self) -> (r: &[Instrument])
        ensures
            r@ == self.instruments@,
    {
        self.instruments.as_slice()
    }

    /// Gets the warnings of loading: the instrument regions and modulators that were
    /// skipped.
    pub fn get_warnings(&self) -> (r: &[String])
        ensures
            r@ == self.warnings@,
    {
        self.warnings.as_slice()
    }

    /// Removes the instrument regions that cannot be played, and adds a warning for each.
    fn sanitize(&mut self)
        requires
            spec_regions_wf(old(self).instruments@),
        ensures
            final(self).info == old(self).info,
            final(self).bits_per_sample == old(self).bits_per_sample,
            final(self).wave_data == old(self).wave_data,
            final(self).sample_headers == old(self).sample_headers,
            final(self).presets == old(self).presets,
            spec_sanitized(
                old(self).instruments@,
                final(self).instruments@,
                old(self).wave_data@.len() as int,
            ),
            string_views(final(self).warnings@) == string_views(old(self).warnings@)
                + spec_sanitize_warnings(old(self).instruments@, old(self).wave_data@.len() as int),
    {
        let wave_len = self.wave_data.len();
        let mut instruments: Vec<Instrument> = Vec::new();
        std::mem::swap(&mut instruments, &mut self.instruments);
        let sanitized = sanitize_instruments(instruments, wave_len, &mut self.warnings);
        self.instruments = sanitized;
    }
}

} // verus!
