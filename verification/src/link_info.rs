//! The link info section: a fixed header of sizes, flags and absolute byte
//! offsets, followed by up to four optional path strings resolved by offset
//! arithmetic relative to the section start.
//!
//! Offset resolution is modelled as pure functions of the buffer, the
//! section start and the declared offsets. A string whose resolved range is
//! empty, reversed, out of bounds or not valid text is treated as absent,
//! never as an error; only a failure to read the fixed header fields is
//! fatal. Whatever was understood, the cursor is left at the section start
//! plus the declared total size.

use crate::cursor::{buf_len_ok, failed_pos, le32_at, Cursor};
use crate::error::LinkInfoError;
use crate::header::{flag_set, ShellLinkHeader, HAS_LINK_INFO};
use crate::text::{ansi_text, opt_chars, spec_ansi_text, spec_wide_text, wide_text};
use vstd::prelude::*;

verus! {

/// The volume ID and local base path fields are present, with the local base
/// path unicode variant when the link info header size is at least 0x24.
pub const VOLUME_ID_AND_LOCAL_BASE_PATH: u32 = 0x0000_0001;

/// The common network relative link field is present.
pub const COMMON_NETWORK_RELATIVE_LINK_AND_PATH_SUFFIX: u32 = 0x0000_0002;

/// Union of all defined link info flag bits; unknown bits are dropped on
/// read.
pub const LINK_INFO_FLAGS_MASK: u32 = 0x0000_0003;

/// Flags saying which optional link info fields this instance carries.
/// Unknown bits are dropped when a value is read from a file.
#[derive(Clone, Copy, Debug, PartialEq, Eq, Structural)]
pub struct LinkInfoFlags {
    /// The defined flag bits.
    pub bits: u32,
}

impl LinkInfoFlags {
    /// Interprets a raw integer as a flag set, dropping unknown bits.
    pub fn from_bits_truncate(raw: u32) -> (r: LinkInfoFlags)
        ensures
            r.bits == raw & LINK_INFO_FLAGS_MASK,
    {
        LinkInfoFlags { bits: raw & LINK_INFO_FLAGS_MASK }
    }

    /// True when every bit of `mask` is set.
    pub fn contains(&self, mask: u32) -> (r: bool)
        ensures
            r == flag_set(self.bits, mask),
    {
        self.bits & mask == mask
    }
}

/// The link info section: how to resolve a link target that is not found in
/// its original location. When the header's presence bit is clear, an empty
/// record (all sizes zero, flags and strings absent) stands for the missing
/// section.
#[derive(Clone, Debug)]
pub struct LinkInfo {
    /// Declared size in bytes of the whole section.
    pub link_info_size: u32,
    /// Declared size in bytes of the fixed header sub-section.
    pub link_info_header_size: u32,
    /// The section's own flags; absent when the whole section is absent.
    pub link_info_flags: Option<LinkInfoFlags>,
    /// Offset of the volume ID structure from the section start.
    pub volume_id_offset: u32,
    /// Offset of the local base path from the section start.
    pub local_base_path_offset: u32,
    /// Offset of the common network relative link from the section start.
    pub common_network_relative_link_offset: u32,
    /// Offset of the common path suffix from the section start.
    pub common_path_suffix_offset: u32,
    /// Offset of the wide local base path from the section start; meaningful
    /// only when the header sub-section size is at least 0x24.
    pub local_base_path_offset_unicode: u32,
    /// Offset of the wide common path suffix from the section start;
    /// meaningful only when the header sub-section size is at least 0x24.
    pub common_path_suffix_offset_unicode: u32,
    /// Absolute position where the section begins; zero when the section is
    /// absent. With the declared size and offsets it gives every
    /// substructure's byte range.
    pub section_start: u64,
    /// Absolute position of the volume ID structure, present exactly when
    /// its flag bit is set. The structure itself is left unparsed; the
    /// position is kept as an extension point for a dedicated decoder.
    pub volume_id: Option<u64>,
    /// The narrow local base path, when its flag is set and its offsets
    /// resolve to a readable range of valid text.
    pub local_base_path: Option<String>,
    /// Absolute position of the common network relative link structure,
    /// present exactly when its flag bit is set. The structure itself is
    /// left unparsed; the position is kept as an extension point for a
    /// dedicated decoder.
    pub common_network_relative_link: Option<u64>,
    /// The wide common path suffix resolved from the narrow offset field.
    pub common_path_suffix: Option<String>,
    /// The wide local base path, when the header sub-section size is at
    /// least 0x24.
    pub local_base_path_unicode: Option<String>,
    /// The wide common path suffix, when the header sub-section size is at
    /// least 0x24.
    pub common_path_suffix_unicode: Option<String>,
}

/// Mathematical view of a link info record: strings as character sequences.
#[verifier::ext_equal]
pub struct LinkInfoV {
    /// Declared size in bytes of the whole section.
    pub link_info_size: u32,
    /// Declared size in bytes of the fixed header sub-section.
    pub link_info_header_size: u32,
    /// The section's own flags; absent when the whole section is absent.
    pub link_info_flags: Option<LinkInfoFlags>,
    /// Offset of the volume ID structure from the section start.
    pub volume_id_offset: u32,
    /// Offset of the local base path from the section start.
    pub local_base_path_offset: u32,
    /// Offset of the common network relative link from the section start.
    pub common_network_relative_link_offset: u32,
    /// Offset of the common path suffix from the section start.
    pub common_path_suffix_offset: u32,
    /// Offset of the wide local base path from the section start.
    pub local_base_path_offset_unicode: u32,
    /// Offset of the wide common path suffix from the section start.
    pub common_path_suffix_offset_unicode: u32,
    /// Absolute position where the section begins; zero when absent.
    pub section_start: u64,
    /// Absolute position of the unparsed volume ID structure.
    pub volume_id: Option<u64>,
    /// The narrow local base path.
    pub local_base_path: Option<Seq<char>>,
    /// Absolute position of the unparsed common network relative link.
    pub common_network_relative_link: Option<u64>,
    /// The wide common path suffix resolved from the narrow offset field.
    pub common_path_suffix: Option<Seq<char>>,
    /// The wide local base path.
    pub local_base_path_unicode: Option<Seq<char>>,
    /// The wide common path suffix.
    pub common_path_suffix_unicode: Option<Seq<char>>,
}

impl View for LinkInfo {
    type V = LinkInfoV;

    open spec fn view(&self) -> LinkInfoV {
        LinkInfoV {
            link_info_size: self.link_info_size,
            link_info_header_size: self.link_info_header_size,
            link_info_flags: self.link_info_flags,
            volume_id_offset: self.volume_id_offset,
            local_base_path_offset: self.local_base_path_offset,
            common_network_relative_link_offset: self.common_network_relative_link_offset,
            common_path_suffix_offset: self.common_path_suffix_offset,
            local_base_path_offset_unicode: self.local_base_path_offset_unicode,
            common_path_suffix_offset_unicode: self.common_path_suffix_offset_unicode,
            section_start: self.section_start,
            volume_id: self.volume_id,
            local_base_path: opt_chars(self.local_base_path),
            common_network_relative_link: self.common_network_relative_link,
            common_path_suffix: opt_chars(self.common_path_suffix),
            local_base_path_unicode: opt_chars(self.local_base_path_unicode),
            common_path_suffix_unicode: opt_chars(self.common_path_suffix_unicode),
        }
    }
}

/// The empty record standing for an absent link info section.
pub open spec fn link_info_absent() -> LinkInfoV {
    LinkInfoV {
        link_info_size: 0,
        link_info_header_size: 0,
        link_info_flags: None,
        volume_id_offset: 0,
        local_base_path_offset: 0,
        common_network_relative_link_offset: 0,
        common_path_suffix_offset: 0,
        local_base_path_offset_unicode: 0,
        common_path_suffix_offset_unicode: 0,
        section_start: 0,
        volume_id: None,
        local_base_path: None,
        common_network_relative_link: None,
        common_path_suffix: None,
        local_base_path_unicode: None,
        common_path_suffix_unicode: None,
    }
}

/// The fixed header fields of a link info section starting at `start`, with
/// the unparsed substructures' positions resolved from their flags and all
/// optional strings still unresolved.
pub open spec fn link_info_fields(s: Seq<u8>, start: int) -> LinkInfoV {
    let bits = (le32_at(s, start + 8) as u32) & LINK_INFO_FLAGS_MASK;
    LinkInfoV {
        link_info_size: le32_at(s, start) as u32,
        link_info_header_size: le32_at(s, start + 4) as u32,
        link_info_flags: Some(LinkInfoFlags { bits }),
        volume_id_offset: le32_at(s, start + 12) as u32,
        local_base_path_offset: le32_at(s, start + 16) as u32,
        common_network_relative_link_offset: le32_at(s, start + 20) as u32,
        common_path_suffix_offset: le32_at(s, start + 24) as u32,
        local_base_path_offset_unicode: le32_at(s, start + 28) as u32,
        common_path_suffix_offset_unicode: le32_at(s, start + 32) as u32,
        section_start: start as u64,
        volume_id: if flag_set(bits, VOLUME_ID_AND_LOCAL_BASE_PATH) {
            Some((start + le32_at(s, start + 12)) as u64)
        } else {
            None
        },
        local_base_path: None,
        common_network_relative_link: if flag_set(
            bits,
            COMMON_NETWORK_RELATIVE_LINK_AND_PATH_SUFFIX,
        ) {
            Some((start + le32_at(s, start + 20)) as u64)
        } else {
            None
        },
        common_path_suffix: None,
        local_base_path_unicode: None,
        common_path_suffix_unicode: None,
    }
}

/// The byte range [`b`, `e`) decoded as narrow text; absent when the range
/// is empty, reversed, out of bounds, or not valid text.
pub open spec fn ansi_range(s: Seq<u8>, b: int, e: int) -> Option<Seq<char>> {
    if 0 <= b < e <= s.len() {
        spec_ansi_text(s.subrange(b, e))
    } else {
        None
    }
}

/// The byte range [`b`, `e`) decoded as wide text; absent when the range is
/// empty, reversed, out of bounds, or not valid text.
pub open spec fn wide_range(s: Seq<u8>, b: int, e: int) -> Option<Seq<char>> {
    if 0 <= b < e <= s.len() {
        spec_wide_text(s.subrange(b, e))
    } else {
        None
    }
}

/// Resolves the optional path strings of a link info section whose fixed
/// header fields are `f`, each relative to the section start. Every string's
/// range runs from the section start plus its own offset to one byte before
/// the next governing offset or the section's total size.
pub open spec fn link_info_strings(s: Seq<u8>, start: int, f: LinkInfoV) -> LinkInfoV {
    let fl = f.link_info_flags.unwrap();
    if flag_set(fl.bits, VOLUME_ID_AND_LOCAL_BASE_PATH) {
        let cnrl = flag_set(fl.bits, COMMON_NETWORK_RELATIVE_LINK_AND_PATH_SUFFIX);
        let wide_hdr = f.link_info_header_size >= 0x24;
        LinkInfoV {
            local_base_path: ansi_range(
                s,
                start + f.local_base_path_offset,
                start + (if cnrl {
                    f.common_network_relative_link_offset
                } else {
                    f.common_path_suffix_offset
                }) - 1,
            ),
            common_path_suffix: wide_range(
                s,
                start + f.common_path_suffix_offset,
                start + (if wide_hdr {
                    f.local_base_path_offset_unicode
                } else {
                    f.link_info_size
                }) - 1,
            ),
            local_base_path_unicode: if wide_hdr {
                wide_range(
                    s,
                    start + f.local_base_path_offset,
                    start + f.common_path_suffix_offset_unicode - 1,
                )
            } else {
                None
            },
            common_path_suffix_unicode: if wide_hdr {
                wide_range(
                    s,
                    start + f.common_path_suffix_offset_unicode,
                    start + f.link_info_size - 1,
                )
            } else {
                None
            },
            ..f
        }
    } else {
        f
    }
}

/// Outcome of decoding a present link info section at `start`: the decoded
/// record and the cursor position after it, or a failure to read the fixed
/// header fields.
pub enum LinkInfoOutcome {
    /// Fewer than the 36 fixed header bytes were available.
    Failed {
        /// Cursor position after the failed read.
        end: int,
    },
    /// The fixed fields were read and the strings resolved.
    Decoded {
        /// The decoded record.
        info: LinkInfoV,
        /// Cursor position after the section: its start plus declared size.
        end: int,
    },
}

/// Decoding a present link info section from position `start` of `s`.
pub open spec fn link_info_model(s: Seq<u8>, start: int) -> LinkInfoOutcome {
    if 0 <= start && start + 36 <= s.len() {
        let f = link_info_fields(s, start);
        LinkInfoOutcome::Decoded {
            info: link_info_strings(s, start, f),
            end: start + f.link_info_size,
        }
    } else {
        LinkInfoOutcome::Failed { end: failed_pos(s.len() as int, start) }
    }
}

/// Reads the bytes from `begin` to one before `end_plus_one` as narrow text;
/// absent when the range is empty, reversed, out of bounds or invalid.
fn read_ansi_range(cursor: &Cursor, begin: u64, end_plus_one: u64) -> (r: Option<String>)
    requires
        begin < 0x8000_0000_0000_0000,
    ensures
        opt_chars(r) == ansi_range(cursor.data@, begin as int, end_plus_one - 1),
{
    if begin + 2 <= end_plus_one {
        match cursor.slice_at(begin, end_plus_one - 1 - begin) {
            Some(bytes) => ansi_text(bytes),
            None => None,
        }
    } else {
        None
    }
}

/// Reads the bytes from `begin` to one before `end_plus_one` as wide text;
/// absent when the range is empty, reversed, out of bounds or invalid.
fn read_wide_range(cursor: &Cursor, begin: u64, end_plus_one: u64) -> (r: Option<String>)
    requires
        begin < 0x8000_0000_0000_0000,
    ensures
        opt_chars(r) == wide_range(cursor.data@, begin as int, end_plus_one - 1),
{
    if begin + 2 <= end_plus_one {
        match cursor.slice_at(begin, end_plus_one - 1 - begin) {
            Some(bytes) => wide_text(&bytes),
            None => None,
        }
    } else {
        None
    }
}

impl LinkInfo {
    /// Decodes the link info section from the cursor's position when the
    /// header says one is present; returns the empty record and leaves the
    /// cursor in place otherwise. Failure to read the 36 fixed header bytes
    /// is fatal; string resolution failures leave the string absent. On
    /// success the cursor is left at the section start plus the declared
    /// total size, whatever was understood in between.
    pub fn new(cursor: &mut Cursor, header: &ShellLinkHeader) -> (r: Result<LinkInfo, LinkInfoError>)
        requires
            buf_len_ok(old(cursor).data@),
        ensures
            final(cursor).data@ == old(cursor).data@,
            !flag_set(header.link_flags.bits, HAS_LINK_INFO) ==> {
                &&& r matches Ok(li) && li@ == link_info_absent()
                &&& final(cursor).pos == old(cursor).pos
            },
            flag_set(header.link_flags.bits, HAS_LINK_INFO) ==> match link_info_model(
                old(cursor).data@,
                old(cursor).pos as int,
            ) {
                LinkInfoOutcome::Decoded { info, end } => {
                    &&& r matches Ok(li) && li@ == info
                    &&& final(cursor).pos == end
                },
                LinkInfoOutcome::Failed { end } => {
                    &&& r == Err::<LinkInfo, LinkInfoError>(LinkInfoError::Read)
                    &&& final(cursor).pos == end
                },
            },
    {
        if !header.link_flags.contains(HAS_LINK_INFO) {
            return Ok(
                LinkInfo {
                    link_info_size: 0,
                    link_info_header_size: 0,
                    link_info_flags: None,
                    volume_id_offset: 0,
                    local_base_path_offset: 0,
                    common_network_relative_link_offset: 0,
                    common_path_suffix_offset: 0,
                    local_base_path_offset_unicode: 0,
                    common_path_suffix_offset_unicode: 0,
                    section_start: 0,
                    volume_id: None,
                    local_base_path: None,
                    common_network_relative_link: None,
                    common_path_suffix: None,
                    local_base_path_unicode: None,
                    common_path_suffix_unicode: None,
                },
            );
        }
        let start = cursor.position();
        let link_info_size = match cursor.read_u32() {
            Ok(v) => v,
            Err(_) => return Err(LinkInfoError::Read),
        };
        let link_info_header_size = match cursor.read_u32() {
            Ok(v) => v,
            Err(_) => return Err(LinkInfoError::Read),
        };
        let raw_flags = match cursor.read_u32() {
            Ok(v) => v,
            Err(_) => return Err(LinkInfoError::Read),
        };
        let volume_id_offset = match cursor.read_u32() {
            Ok(v) => v,
            Err(_) => return Err(LinkInfoError::Read),
        };
        let local_base_path_offset = match cursor.read_u32() {
            Ok(v) => v,
            Err(_) => return Err(LinkInfoError::Read),
        };
        let common_network_relative_link_offset = match cursor.read_u32() {
            Ok(v) => v,
            Err(_) => return Err(LinkInfoError::Read),
        };
        let common_path_suffix_offset = match cursor.read_u32() {
            Ok(v) => v,
            Err(_) => return Err(LinkInfoError::Read),
        };
        let local_base_path_offset_unicode = match cursor.read_u32() {
            Ok(v) => v,
            Err(_) => return Err(LinkInfoError::Read),
        };
        let common_path_suffix_offset_unicode = match cursor.read_u32() {
            Ok(v) => v,
            Err(_) => return Err(LinkInfoError::Read),
        };
        let link_info_flags = LinkInfoFlags::from_bits_truncate(raw_flags);
        let mut this = LinkInfo {
            link_info_size,
            link_info_header_size,
            link_info_flags: Some(link_info_flags),
            volume_id_offset,
            local_base_path_offset,
            common_network_relative_link_offset,
            common_path_suffix_offset,
            local_base_path_offset_unicode,
            common_path_suffix_offset_unicode,
            section_start: start,
            volume_id: if link_info_flags.contains(VOLUME_ID_AND_LOCAL_BASE_PATH) {
                Some(start + volume_id_offset as u64)
            } else {
                None
            },
            local_base_path: None,
            common_network_relative_link: if link_info_flags.contains(
                COMMON_NETWORK_RELATIVE_LINK_AND_PATH_SUFFIX,
            ) {
                Some(start + common_network_relative_link_offset as u64)
            } else {
                None
            },
            common_path_suffix: None,
            local_base_path_unicode: None,
            common_path_suffix_unicode: None,
        };
        if link_info_flags.contains(VOLUME_ID_AND_LOCAL_BASE_PATH) {
            let narrow_end = if link_info_flags.contains(
                COMMON_NETWORK_RELATIVE_LINK_AND_PATH_SUFFIX,
            ) {
                common_network_relative_link_offset
            } else {
                common_path_suffix_offset
            };
            this.local_base_path = read_ansi_range(
                cursor,
                start + local_base_path_offset as u64,
                start + narrow_end as u64,
            );
            let suffix_end = if link_info_header_size >= 0x24 {
                local_base_path_offset_unicode
            } else {
                link_info_size
            };
            this.common_path_suffix = read_wide_range(
                cursor,
                start + common_path_suffix_offset as u64,
                start + suffix_end as u64,
            );
            if link_info_header_size >= 0x24 {
                this.local_base_path_unicode = read_wide_range(
                    cursor,
                    start + local_base_path_offset as u64,
                    start + common_path_suffix_offset_unicode as u64,
                );
                this.common_path_suffix_unicode = read_wide_range(
                    cursor,
                    start + common_path_suffix_offset_unicode as u64,
                    start + link_info_size as u64,
                );
            }
        }
        cursor.set_position(start + link_info_size as u64);
        proof {
            let s = old(cursor).data@;
            let info = link_info_strings(s, start as int, link_info_fields(s, start as int));
            assert(this@ =~= info);
        }
        Ok(this)
    }
}

/// Link info offset resolution is idempotent: decoding the same section
/// twice, from two positions over two byte buffers that are identical,
/// yields identical records, optional strings included.
pub proof fn lemma_link_info_resolution_idempotent(s1: Seq<u8>, start1: int, s2: Seq<u8>, start2: int)
    requires
        s1 == s2,
        start1 == start2,
    ensures
        link_info_model(s1, start1) == link_info_model(s2, start2),
{
}

} // verus!
