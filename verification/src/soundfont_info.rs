//! The INFO list of a SoundFont (SF2.04 section 5): version and descriptive text.

use vstd::prelude::*;

use crate::binary_reader::{spec_four_cc, spec_u16_le, spec_u32_le, ByteReader};
use crate::error::SoundFontError;
use crate::fixed_string::{read_fixed_length_string, spec_fixed_string};
use crate::four_cc::{code, FourCC};

verus! {

/// Represents the version of a SoundFont.
#[derive(Clone, Copy, Debug, PartialEq, Eq, Structural)]
pub struct SoundFontVersion {
    pub major: i16,
    pub minor: i16,
}

impl SoundFontVersion {
    /// Gets the major version.
    pub fn get_major(&self) -> (r: i16)
        ensures
            r == self.major,
    {
        self.major
    }

    /// Gets the minor version.
    pub fn get_minor(&self) -> (r: i16)
        ensures
            r == self.minor,
    {
        self.minor
    }
}

/// The information of a SoundFont.
#[derive(Debug)]
pub struct SoundFontInfo {
    pub version: SoundFontVersion,
    pub target_sound_engine: String,
    pub bank_name: String,
    pub rom_name: String,
    pub rom_version: SoundFontVersion,
    pub creation_date: String,
    pub author: String,
    pub target_product: String,
    pub copyright: String,
    pub comments: String,
    pub tools: String,
}

/// What an INFO list says: the two versions and the texts.
pub struct InfoView {
    pub version: SoundFontVersion,
    pub target_sound_engine: Seq<char>,
    pub bank_name: Seq<char>,
    pub rom_name: Seq<char>,
    pub rom_version: SoundFontVersion,
    pub creation_date: Seq<char>,
    pub author: Seq<char>,
    pub target_product: Seq<char>,
    pub copyright: Seq<char>,
    pub comments: Seq<char>,
    pub tools: Seq<char>,
}

impl View for SoundFontInfo {
    type V = InfoView;

    open spec fn view(&self) -> InfoView {
        InfoView {
            version: self.version,
            target_sound_engine: self.target_sound_engine@,
            bank_name: self.bank_name@,
            rom_name: self.rom_name@,
            rom_version: self.rom_version,
            creation_date: self.creation_date@,
            author: self.author@,
            target_product: self.target_product@,
            copyright: self.copyright@,
            comments: self.comments@,
            tools: self.tools@,
        }
    }
}

/// An INFO list before any sub-chunk was read: versions 0.0 and empty texts.
pub open spec fn spec_empty_info() -> InfoView {
    InfoView {
        version: SoundFontVersion { major: 0, minor: 0 },
        target_sound_engine: Seq::empty(),
        bank_name: Seq::empty(),
        rom_name: Seq::empty(),
        rom_version: SoundFontVersion { major: 0, minor: 0 },
        creation_date: Seq::empty(),
        author: Seq::empty(),
        target_product: Seq::empty(),
        copyright: Seq::empty(),
        comments: Seq::empty(),
        tools: Seq::empty(),
    }
}

/// `ifil` or `iver`: a sub-chunk holding a version.
pub open spec fn spec_is_version_id(id: FourCC) -> bool {
    id == code(0x69, 0x66, 0x69, 0x6c) || id == code(0x69, 0x76, 0x65, 0x72)
}

/// One of the nine sub-chunks holding text.
pub open spec fn spec_is_text_id(id: FourCC) -> bool {
    ||| id == code(0x69, 0x73, 0x6e, 0x67)
    ||| id == code(0x49, 0x4e, 0x41, 0x4d)
    ||| id == code(0x69, 0x72, 0x6f, 0x6d)
    ||| id == code(0x49, 0x43, 0x52, 0x44)
    ||| id == code(0x49, 0x45, 0x4e, 0x47)
    ||| id == code(0x49, 0x50, 0x52, 0x44)
    ||| id == code(0x49, 0x43, 0x4f, 0x50)
    ||| id == code(0x49, 0x43, 0x4d, 0x54)
    ||| id == code(0x49, 0x53, 0x46, 0x54)
}

/// `acc` with the version sub-chunk `id` set to `v`.
pub open spec fn spec_with_version(acc: InfoView, id: FourCC, v: SoundFontVersion) -> InfoView {
    if id == code(0x69, 0x66, 0x69, 0x6c) {
        InfoView { version: v, ..acc }
    } else {
        InfoView { rom_version: v, ..acc }
    }
}

/// `acc` with the text sub-chunk `id` set to `s`.
pub open spec fn spec_with_text(acc: InfoView, id: FourCC, s: Seq<char>) -> InfoView {
    if id == code(0x69, 0x73, 0x6e, 0x67) {
        InfoView { target_sound_engine: s, ..acc }
    } else if id == code(0x49, 0x4e, 0x41, 0x4d) {
        InfoView { bank_name: s, ..acc }
    } else if id == code(0x69, 0x72, 0x6f, 0x6d) {
        InfoView { rom_name: s, ..acc }
    } else if id == code(0x49, 0x43, 0x52, 0x44) {
        InfoView { creation_date: s, ..acc }
    } else if id == code(0x49, 0x45, 0x4e, 0x47) {
        InfoView { author: s, ..acc }
    } else if id == code(0x49, 0x50, 0x52, 0x44) {
        InfoView { target_product: s, ..acc }
    } else if id == code(0x49, 0x43, 0x4f, 0x50) {
        InfoView { copyright: s, ..acc }
    } else if id == code(0x49, 0x43, 0x4d, 0x54) {
        InfoView { comments: s, ..acc }
    } else {
        InfoView { tools: s, ..acc }
    }
}

/// The signed 32-bit size field of the sub-chunk header at `q`.
pub open spec fn spec_chunk_size(d: Seq<u8>, q: int) -> int {
    spec_u32_le(d, q + 4) as i32 as int
}

/// The list's byte counter after the sub-chunk header at `q` is read at counter `pos`,
/// when it stays a 32-bit value.
pub open spec fn spec_counter_ok(pos: int, size: int) -> bool {
    pos + 8 <= i32::MAX && i32::MIN <= pos + 8 + size <= i32::MAX
}

/// The sub-chunks of an INFO list, read from `q` while the list's byte counter `pos` is
/// below `end`: what they say, folded into `acc`, and where reading stopped. A version
/// takes four bytes whatever its size field says, and the counter advances by the
/// size field.
pub open spec fn spec_info_chunks(d: Seq<u8>, q: int, pos: int, end: int, acc: InfoView) -> Result<
    (InfoView, int),
    SoundFontError,
>
    decreases d.len() - q,
{
    if pos >= end {
        Ok((acc, q))
    } else if q < 0 || d.len() < q + 8 {
        Err(SoundFontError::UnexpectedEndOfData)
    } else {
        let id = spec_four_cc(d, q);
        let size = spec_chunk_size(d, q);
        if spec_is_version_id(id) {
            if d.len() < q + 12 || !spec_counter_ok(pos, size) {
                Err(SoundFontError::UnexpectedEndOfData)
            } else {
                let v = SoundFontVersion {
                    major: spec_u16_le(d, q + 8) as i16,
                    minor: spec_u16_le(d, q + 10) as i16,
                };
                spec_info_chunks(d, q + 12, pos + 8 + size, end, spec_with_version(acc, id, v))
            }
        } else if spec_is_text_id(id) {
            if size < 0 || d.len() < q + 8 + size || !spec_counter_ok(pos, size) {
                Err(SoundFontError::UnexpectedEndOfData)
            } else {
                spec_info_chunks(
                    d,
                    q + 8 + size,
                    pos + 8 + size,
                    end,
                    spec_with_text(acc, id, spec_fixed_string(d, q + 8, size)),
                )
            }
        } else {
            Err(SoundFontError::ListContainsUnknownId(id))
        }
    }
}

/// A LIST chunk header at `p` whose type is `list_type`: the list's declared size and
/// where its sub-chunks start, or why it is not one.
pub open spec fn spec_list_header(d: Seq<u8>, p: int, list_type: FourCC) -> Result<
    (int, int),
    SoundFontError,
> {
    if d.len() < p + 4 {
        Err(SoundFontError::UnexpectedEndOfData)
    } else if spec_four_cc(d, p) != code(0x4c, 0x49, 0x53, 0x54) {
        Err(SoundFontError::ListChunkNotFound)
    } else if d.len() < p + 12 {
        Err(SoundFontError::UnexpectedEndOfData)
    } else if spec_four_cc(d, p + 8) != list_type {
        Err(
            SoundFontError::InvalidListChunkType { expected: list_type, actual: spec_four_cc(d, p + 8) },
        )
    } else {
        Ok((spec_u32_le(d, p + 4) as i32 as int, p + 12))
    }
}

/// The INFO list at `p`: what it says and where it ends, or why it cannot be read.
pub open spec fn spec_info_list(d: Seq<u8>, p: int) -> Result<(InfoView, int), SoundFontError> {
    match spec_list_header(d, p, code(0x49, 0x4e, 0x46, 0x4f)) {
        Ok((end, q)) => spec_info_chunks(d, q, 4, end, spec_empty_info()),
        Err(e) => Err(e),
    }
}

/// Reads a LIST chunk header whose type must be `list_type`; returns the declared size.
pub fn read_list_header(reader: &mut ByteReader, list_type: FourCC) -> (r: Result<
    i32,
    SoundFontError,
>)
    requires
        old(reader).pos <= old(reader).data@.len(),
    ensures
        final(reader).data == old(reader).data,
        final(reader).pos <= final(reader).data@.len(),
        spec_list_header(old(reader).data@, old(reader).pos as int, list_type) == match r {
            Ok(end) => Ok((end as int, final(reader).pos as int)),
            Err(e) => Err(e),
        },
{
    let id = match reader.read_four_cc() {
        Ok(id) => id,
        Err(_) => return Err(SoundFontError::UnexpectedEndOfData),
    };
    if id != (FourCC { b0: 0x4c, b1: 0x49, b2: 0x53, b3: 0x54 }) {
        return Err(SoundFontError::ListChunkNotFound);
    }
    if reader.bytes_left() < 8 {
        return Err(SoundFontError::UnexpectedEndOfData);
    }
    let end = reader.read_i32().unwrap();
    let actual = reader.read_four_cc().unwrap();
    if actual != list_type {
        return Err(SoundFontError::InvalidListChunkType { expected: list_type, actual });
    }
    Ok(end)
}

/// Reads a sub-chunk header: its code and signed size.
pub fn read_chunk_header(reader: &mut ByteReader) -> (r: Option<(FourCC, i32)>)
    requires
        old(reader).pos <= old(reader).data@.len(),
    ensures
        final(reader).data == old(reader).data,
        final(reader).pos <= final(reader).data@.len(),
        old(reader).remaining() < 8 ==> r is None,
        old(reader).remaining() >= 8 ==> r == Some(
            (
                spec_four_cc(old(reader).data@, old(reader).pos as int),
                spec_chunk_size(old(reader).data@, old(reader).pos as int) as i32,
            ),
        ) && final(reader).pos == old(reader).pos + 8,
{
    if reader.bytes_left() < 8 {
        return None;
    }
    let id = reader.read_four_cc().unwrap();
    let size = reader.read_i32().unwrap();
    Some((id, size))
}

/// The counter after a sub-chunk of `size` bytes, when it stays a 32-bit value.
pub fn advance_counter(pos: i32, size: i32) -> (r: Option<i32>)
    ensures
        spec_counter_ok(pos as int, size as int) ==> r == Some((pos + 8 + size) as i32),
        !spec_counter_ok(pos as int, size as int) ==> r is None,
{
    let next = pos as i64 + 8 + size as i64;
    if pos as i64 + 8 > i32::MAX as i64 || next > i32::MAX as i64 || next < i32::MIN as i64 {
        None
    } else {
        Some(next as i32)
    }
}

/// True for the nine sub-chunks holding text.
pub fn is_text_id(id: FourCC) -> (r: bool)
    ensures
        r == spec_is_text_id(id),
{
    id == (FourCC { b0: 0x69, b1: 0x73, b2: 0x6e, b3: 0x67 }) || id == (FourCC {
        b0: 0x49,
        b1: 0x4e,
        b2: 0x41,
        b3: 0x4d,
    }) || id == (FourCC { b0: 0x69, b1: 0x72, b2: 0x6f, b3: 0x6d }) || id == (FourCC {
        b0: 0x49,
        b1: 0x43,
        b2: 0x52,
        b3: 0x44,
    }) || id == (FourCC { b0: 0x49, b1: 0x45, b2: 0x4e, b3: 0x47 }) || id == (FourCC {
        b0: 0x49,
        b1: 0x50,
        b2: 0x52,
        b3: 0x44,
    }) || id == (FourCC { b0: 0x49, b1: 0x43, b2: 0x4f, b3: 0x50 }) || id == (FourCC {
        b0: 0x49,
        b1: 0x43,
        b2: 0x4d,
        b3: 0x54,
    }) || id == (FourCC { b0: 0x49, b1: 0x53, b2: 0x46, b3: 0x54 })
}

/// Stores the text of sub-chunk `id` in its field.
fn set_text(info: &mut SoundFontInfo, id: FourCC, text: String)
    ensures
        final(info)@ == spec_with_text(old(info)@, id, text@),
{
    let ghost before = old(info)@;
    if id == (FourCC { b0: 0x69, b1: 0x73, b2: 0x6e, b3: 0x67 }) {
        info.target_sound_engine = text;
    } else if id == (FourCC { b0: 0x49, b1: 0x4e, b2: 0x41, b3: 0x4d }) {
        info.bank_name = text;
    } else if id == (FourCC { b0: 0x69, b1: 0x72, b2: 0x6f, b3: 0x6d }) {
        info.rom_name = text;
    } else if id == (FourCC { b0: 0x49, b1: 0x43, b2: 0x52, b3: 0x44 }) {
        info.creation_date = text;
    } else if id == (FourCC { b0: 0x49, b1: 0x45, b2: 0x4e, b3: 0x47 }) {
        info.author = text;
    } else if id == (FourCC { b0: 0x49, b1: 0x50, b2: 0x52, b3: 0x44 }) {
        info.target_product = text;
    } else if id == (FourCC { b0: 0x49, b1: 0x43, b2: 0x4f, b3: 0x50 }) {
        info.copyright = text;
    } else if id == (FourCC { b0: 0x49, b1: 0x43, b2: 0x4d, b3: 0x54 }) {
        info.comments = text;
    } else {
        info.tools = text;
    }
    assert(info@ =~= spec_with_text(before, id, text@));
}

impl SoundFontInfo {
    /// Reads the INFO list at the reader's position.
    pub fn read(reader: &mut ByteReader) -> (r: Result<SoundFontInfo, SoundFontError>)
        requires
            old(reader).pos <= old(reader).data@.len(),
        ensures
            final(reader).data == old(reader).data,
            final(reader).pos <= final(reader).data@.len(),
            spec_info_list(old(reader).data@, old(reader).pos as int) == match r {
                Ok(info) => Ok((info@, final(reader).pos as int)),
                Err(e) => Err(e),
            },
    {
        let ghost d = reader.data@;
        let end = read_list_header(reader, FourCC { b0: 0x49, b1: 0x4e, b2: 0x46, b3: 0x4f })?;
        let mut info = SoundFontInfo {
            version: SoundFontVersion { major: 0, minor: 0 },
            target_sound_engine: String::new(),
            bank_name: String::new(),
            rom_name: String::new(),
            rom_version: SoundFontVersion { major: 0, minor: 0 },
            creation_date: String::new(),
            author: String::new(),
            target_product: String::new(),
            copyright: String::new(),
            comments: String::new(),
            tools: String::new(),
        };
        assert(info@ =~= spec_empty_info());
        let mut pos: i32 = 4;
        while pos < end
            invariant
                reader.data == old(reader).data,
                reader.data@ == d,
                reader.pos <= d.len(),
                spec_info_list(d, old(reader).pos as int) == spec_info_chunks(
                    d,
                    reader.pos as int,
                    pos as int,
                    end as int,
                    info@,
                ),
            decreases d.len() - reader.pos,
        {
            let (id, size) = match read_chunk_header(reader) {
                Some(h) => h,
                None => return Err(SoundFontError::UnexpectedEndOfData),
            };
            let ghost q = (reader.pos - 8) as int;
            assert(id == spec_four_cc(d, q) && size == spec_chunk_size(d, q));
            let is_ifil = id == (FourCC { b0: 0x69, b1: 0x66, b2: 0x69, b3: 0x6c });
            let is_iver = id == (FourCC { b0: 0x69, b1: 0x76, b2: 0x65, b3: 0x72 });
            if is_ifil || is_iver {
                if reader.bytes_left() < 4 {
                    return Err(SoundFontError::UnexpectedEndOfData);
                }
                let next = match advance_counter(pos, size) {
                    Some(n) => n,
                    None => return Err(SoundFontError::UnexpectedEndOfData),
                };
                let major = reader.read_i16().unwrap();
                let minor = reader.read_i16().unwrap();
                let v = SoundFontVersion { major, minor };
                let ghost before = info@;
                if is_ifil {
                    info.version = v;
                } else {
                    info.rom_version = v;
                }
                assert(info@ =~= spec_with_version(before, id, v));
                pos = next;
            } else if is_text_id(id) {
                if size < 0 {
                    return Err(SoundFontError::UnexpectedEndOfData);
                }
                let sz = size as usize;
                if reader.bytes_left() < sz {
                    return Err(SoundFontError::UnexpectedEndOfData);
                }
                let next = match advance_counter(pos, size) {
                    Some(n) => n,
                    None => return Err(SoundFontError::UnexpectedEndOfData),
                };
                let text = read_fixed_length_string(reader.data, reader.pos, sz);
                reader.discard_data(sz).unwrap();
                set_text(&mut info, id, text);
                pos = next;
            } else {
                return Err(SoundFontError::ListContainsUnknownId(id));
            }
        }
        Ok(info)
    }

    /// Gets the version of the SoundFont.
    pub fn get_version(&self) -> (r: SoundFontVersion)
        ensures
            r == self.version,
    {
        self.version
    }

    /// Gets the name of the sound engine the SoundFont was made for.
    pub fn get_target_sound_engine(&self) -> (r: &str)
        ensures
            r@ == self.target_sound_engine@,
    {
        self.target_sound_engine.as_str()
    }

    /// Gets the name of the SoundFont.
    pub fn get_bank_name(&self) -> (r: &str)
        ensures
            r@ == self.bank_name@,
    {
        self.bank_name.as_str()
    }

    /// Gets the name of the sound ROM the SoundFont uses.
    pub fn get_rom_name(&self) -> (r: &str)
        ensures
            r@ == self.rom_name@,
    {
        self.rom_name.as_str()
    }

    /// Gets the version of the sound ROM.
    pub fn get_rom_version(&self) -> (r: SoundFontVersion)
        ensures
            r == self.rom_version,
    {
        self.rom_version
    }

    /// Gets the creation date of the SoundFont.
    pub fn get_creation_date(&self) -> (r: &str)
        ensures
            r@ == self.creation_date@,
    {
        self.creation_date.as_str()
    }

    /// Gets the author of the SoundFont.
    pub fn get_author(&self) -> (r: &str)
        ensures
            r@ == self.author@,
    {
        self.author.as_str()
    }

    /// Gets the product the SoundFont was made for.
    pub fn get_target_product(&self) -> (r: &str)
        ensures
            r@ == self.target_product@,
    {
        self.target_product.as_str()
    }

    /// Gets the copyright message of the SoundFont.
    pub fn get_copyright(&self) -> (r: &str)
        ensures
            r@ == self.copyright@,
    {
        self.copyright.as_str()
    }

    /// Gets the comments on the SoundFont.
    pub fn get_comments(&self) -> (r: &str)
        ensures
            r@ == self.comments@,
    {
        self.comments.as_str()
    }

    /// Gets the tools used to create and edit the SoundFont.
    pub fn get_tools(&self) -> (r: &str)
        ensures
            r@ == self.tools@,
    {
        self.tools.as_str()
    }
}

} // verus!
