//! The fixed-size leading structure of a `.lnk` file, and the flag sets that
//! it carries. The header's link flags steer every later section: they say
//! which optional sections follow and whether the file's strings are wide.

use crate::cursor::{failed_pos, le128_at, le16_at, le32_at, le64_at, Cursor};
use crate::error::HeaderError;
use vstd::prelude::*;

verus! {

/// The link is saved with an item ID list; a link target ID list section
/// follows the header.
pub const HAS_LINK_TARGET_ID_LIST: u32 = 0x0000_0001;

/// The link is saved with link information; a link info section is present.
pub const HAS_LINK_INFO: u32 = 0x0000_0002;

/// The link is saved with a name string.
pub const HAS_NAME: u32 = 0x0000_0004;

/// The link is saved with a relative path string.
pub const HAS_RELATIVE_PATH: u32 = 0x0000_0008;

/// The link is saved with a working directory string.
pub const HAS_WORKING_DIR: u32 = 0x0000_0010;

/// The link is saved with command line arguments.
pub const HAS_ARGUMENTS: u32 = 0x0000_0020;

/// The link is saved with an icon location string.
pub const HAS_ICON_LOCATION: u32 = 0x0000_0040;

/// The string data section holds wide (UTF-16) strings rather than narrow
/// ones.
pub const IS_UNICODE: u32 = 0x0000_0080;

/// The link info section is ignored.
pub const FORCE_NO_LINK_INFO: u32 = 0x0000_0100;

/// The link is saved with an environment variable data block.
pub const HAS_EXP_STRING: u32 = 0x0000_0200;

/// The target runs in a separate virtual machine when it is a 16-bit
/// application.
pub const RUN_IN_SEPARATE_PROCESS: u32 = 0x0000_0400;

/// A bit that is undefined and ignored.
pub const UNUSED_1: u32 = 0x0000_0800;

/// The link is saved with a Darwin data block.
pub const HAS_DARWIN_ID: u32 = 0x0000_1000;

/// The application runs as a different user when the target is activated.
pub const RUN_AS_USER: u32 = 0x0000_2000;

/// The link is saved with an icon environment data block.
pub const HAS_EXP_ICON: u32 = 0x0000_4000;

/// The file system location is represented in the shell namespace.
pub const NO_PID_I_ALIAS: u32 = 0x0000_8000;

/// A bit that is undefined and ignored.
pub const UNUSED_2: u32 = 0x0001_0000;

/// The link is saved with a shim data block.
pub const RUN_WITH_SHIM_LAYER: u32 = 0x0002_0000;

/// The tracker data block is ignored.
pub const FORCE_NO_LINK_TRACK: u32 = 0x0004_0000;

/// The link collects target properties into a property store data block.
pub const ENABLE_TARGET_METADATA: u32 = 0x0008_0000;

/// The environment variable data block is ignored.
pub const DISABLE_LINK_PATH_TRACKING: u32 = 0x0010_0000;

/// The special folder and known folder data blocks are ignored on load.
pub const DISABLE_KNOWN_FOLDER_TRACKING: u32 = 0x0020_0000;

/// The unaliased form of a known folder ID list is used when translating the
/// target ID list.
pub const DISABLE_KNOWN_FOLDER_ALIAS: u32 = 0x0040_0000;

/// Creating a link that references another link is enabled.
pub const ALLOW_LINK_TO_LINK: u32 = 0x0080_0000;

/// The unaliased form of a known folder is used when saving the link.
pub const UNALIAS_ON_SAVE: u32 = 0x0100_0000;

/// The environment variable data block's path is preferred over the target
/// ID list.
pub const PREFER_ENVIRONMENT_PATH: u32 = 0x0200_0000;

/// The local path ID list is stored for UNC targets on the local machine.
pub const KEEP_LOCAL_ID_LIST_FOR_UNC_TARGET: u32 = 0x0400_0000;

/// Union of all defined link flag bits; unknown bits are dropped on read.
pub const LINK_FLAGS_MASK: u32 = 0x07FF_FFFF;

/// The target file or directory is read-only.
pub const FILE_ATTRIBUTE_READONLY: u32 = 0x8000_0000;

/// The target file or directory is hidden.
pub const FILE_ATTRIBUTE_HIDDEN: u32 = 0x4000_0000;

/// The target is part of the operating system.
pub const FILE_ATTRIBUTE_SYSTEM: u32 = 0x2000_0000;

/// A bit that must be zero.
pub const ATTRIBUTE_RESERVED_1: u32 = 0x1000_0000;

/// The target is a directory instead of a file.
pub const FILE_ATTRIBUTE_DIRECTORY: u32 = 0x0800_0000;

/// The target is an archive file.
pub const FILE_ATTRIBUTE_ARCHIVE: u32 = 0x0400_0000;

/// A bit that must be zero.
pub const ATTRIBUTE_RESERVED_2: u32 = 0x0200_0000;

/// The target has no other attribute flags set.
pub const FILE_ATTRIBUTE_NORMAL: u32 = 0x0100_0000;

/// The target is used for temporary storage.
pub const FILE_ATTRIBUTE_TEMPORARY: u32 = 0x0080_0000;

/// The target is a sparse file.
pub const FILE_ATTRIBUTE_SPARCE_FILE: u32 = 0x0040_0000;

/// The target has an associated reparse point.
pub const FILE_ATTRIBUTE_REPARSE_POINT: u32 = 0x0020_0000;

/// The target is compressed.
pub const FILE_ATTRIBUTE_COMPRESSED: u32 = 0x0010_0000;

/// The target's data is not immediately available.
pub const FILE_ATTRIBUTE_OFFLINE: u32 = 0x0008_0000;

/// The target's contents need to be indexed.
pub const FILE_ATTRIBUTE_NOT_CONTENT_INDEXED: u32 = 0x0004_0000;

/// The target is encrypted.
pub const FILE_ATTRIBUTE_ENCRYPTED: u32 = 0x0002_0000;

/// Union of all defined file attribute bits; unknown bits are dropped on
/// read.
pub const FILE_ATTRIBUTE_FLAGS_MASK: u32 = 0xFFFE_0000;

/// The application's window opens in a normal fashion.
pub const SW_SHOWNORMAL: u32 = 0x0000_0001;

/// The application's window opens maximized with keyboard focus.
pub const SW_SHOWMAXIMIZED: u32 = 0x0000_0003;

/// The application's window is not shown and not given focus.
pub const SW_SHOWMINNOACTIVE: u32 = 0x0000_0007;

/// Union of all defined show command bits; unknown bits are dropped on read.
pub const SHOW_COMMAND_MASK: u32 = 0x0000_0007;

/// True when every bit of `mask` is set in `bits`.
pub open spec fn flag_set(bits: u32, mask: u32) -> bool {
    bits & mask == mask
}

/// The link flags: which optional sections are present and how strings are
/// encoded. Unknown bits are dropped when a value is read from a file.
#[derive(Clone, Copy, Debug, PartialEq, Eq, Structural)]
pub struct LinkFlags {
    /// The defined flag bits.
    pub bits: u32,
}

impl LinkFlags {
    /// Interprets a raw integer as a flag set, dropping unknown bits.
    pub fn from_bits_truncate(raw: u32) -> (r: LinkFlags)
        ensures
            r.bits == raw & LINK_FLAGS_MASK,
    {
        LinkFlags { bits: raw & LINK_FLAGS_MASK }
    }

    /// True when every bit of `mask` is set.
    pub fn contains(&self, mask: u32) -> (r: bool)
        ensures
            r == flag_set(self.bits, mask),
    {
        self.bits & mask == mask
    }
}

/// The file attributes of the link target. Unknown bits are dropped when a
/// value is read from a file.
#[derive(Clone, Copy, Debug, PartialEq, Eq, Structural)]
pub struct FileAttributeFlags {
    /// The defined attribute bits.
    pub bits: u32,
}

impl FileAttributeFlags {
    /// Interprets a raw integer as a flag set, dropping unknown bits.
    pub fn from_bits_truncate(raw: u32) -> (r: FileAttributeFlags)
        ensures
            r.bits == raw & FILE_ATTRIBUTE_FLAGS_MASK,
    {
        FileAttributeFlags { bits: raw & FILE_ATTRIBUTE_FLAGS_MASK }
    }

    /// True when every bit of `mask` is set.
    pub fn contains(&self, mask: u32) -> (r: bool)
        ensures
            r == flag_set(self.bits, mask),
    {
        self.bits & mask == mask
    }
}

/// The expected window state of an application launched by the link. Unknown
/// bits are dropped when a value is read from a file.
#[derive(Clone, Copy, Debug, PartialEq, Eq, Structural)]
pub struct ShowCommand {
    /// The defined show command bits.
    pub bits: u32,
}

impl ShowCommand {
    /// Interprets a raw integer as a flag set, dropping unknown bits.
    pub fn from_bits_truncate(raw: u32) -> (r: ShowCommand)
        ensures
            r.bits == raw & SHOW_COMMAND_MASK,
    {
        ShowCommand { bits: raw & SHOW_COMMAND_MASK }
    }

    /// True when every bit of `mask` is set.
    pub fn contains(&self, mask: u32) -> (r: bool)
        ensures
            r == flag_set(self.bits, mask),
    {
        self.bits & mask == mask
    }
}

/// The keystrokes that launch the application referenced by the link: a
/// virtual key code and a modifier mask.
#[derive(Clone, Copy, Debug, PartialEq, Eq, Structural)]
pub struct HotKeyFlags {
    /// The virtual key code.
    pub low_byte: u8,
    /// The modifier key bits.
    pub high_byte: u8,
}

impl From<u16> for HotKeyFlags {
    /// Splits a raw little-endian 16-bit value into its two bytes.
    fn from(i: u16) -> (r: HotKeyFlags) {
        HotKeyFlags { low_byte: (i & 0xFF) as u8, high_byte: (i >> 8) as u8 }
    }
}

impl vstd::std_specs::convert::FromSpecImpl<u16> for HotKeyFlags {
    open spec fn obeys_from_spec() -> bool {
        true
    }

    open spec fn from_spec(i: u16) -> HotKeyFlags {
        HotKeyFlags { low_byte: (i & 0xFF) as u8, high_byte: (i >> 8) as u8 }
    }
}

/// A 64-bit count of 100-nanosecond intervals since 1601-01-01 UTC, split
/// into its two halves.
#[derive(Clone, Copy, Debug, PartialEq, Eq, Structural)]
pub struct FileTime {
    /// The low-order part of the file time.
    pub low: u32,
    /// The high-order part of the file time.
    pub high: u32,
}

/// The fixed 76-byte structure that leads a `.lnk` file: identification
/// information, raw timestamps, and the flags that specify the presence of
/// every optional later section.
#[derive(Clone, Copy, Debug, PartialEq, Eq, Structural)]
pub struct ShellLinkHeader {
    /// The declared size of the header structure; 0x4C in well-formed files,
    /// not validated on read.
    pub header_size: u32,
    /// The class identifier; not validated on read.
    pub link_clsid: u128,
    /// The link flags steering all later sections.
    pub link_flags: LinkFlags,
    /// The file attributes of the link target.
    pub file_attributes: FileAttributeFlags,
    /// Creation time of the target, in raw ticks; zero means unset.
    pub creation_time: u64,
    /// Access time of the target, in raw ticks; zero means unset.
    pub access_time: u64,
    /// Write time of the target, in raw ticks; zero means unset.
    pub write_time: u64,
    /// The least significant 32 bits of the target's size in bytes.
    pub file_size: u32,
    /// The index of the icon within its icon location.
    pub icon_index: u32,
    /// The expected window state of the launched application.
    pub show_command: ShowCommand,
    /// The keystrokes that launch the target.
    pub hot_key: HotKeyFlags,
    /// A reserved field, ignored on read.
    pub reserved1: u16,
    /// A reserved field, ignored on read.
    pub reserved2: u32,
    /// A reserved field, ignored on read.
    pub reserved3: u32,
}

/// The header encoded at position `p` of `s`, assuming 76 bytes are
/// available there.
pub open spec fn header_at(s: Seq<u8>, p: int) -> ShellLinkHeader {
    ShellLinkHeader {
        header_size: le32_at(s, p) as u32,
        link_clsid: le128_at(s, p + 4) as u128,
        link_flags: LinkFlags { bits: (le32_at(s, p + 20) as u32) & LINK_FLAGS_MASK },
        file_attributes: FileAttributeFlags {
            bits: (le32_at(s, p + 24) as u32) & FILE_ATTRIBUTE_FLAGS_MASK,
        },
        creation_time: le64_at(s, p + 28) as u64,
        access_time: le64_at(s, p + 36) as u64,
        write_time: le64_at(s, p + 44) as u64,
        file_size: le32_at(s, p + 52) as u32,
        icon_index: le32_at(s, p + 56) as u32,
        show_command: ShowCommand { bits: (le32_at(s, p + 60) as u32) & SHOW_COMMAND_MASK },
        hot_key: HotKeyFlags { low_byte: s[p + 64], high_byte: s[p + 65] },
        reserved1: le16_at(s, p + 66) as u16,
        reserved2: le32_at(s, p + 68) as u32,
        reserved3: le32_at(s, p + 72) as u32,
    }
}

impl ShellLinkHeader {
    /// Decodes the fixed 76-byte header from the cursor's position. Fails
    /// exactly when fewer than 76 bytes remain, reading nothing into a
    /// partial header.
    pub fn decode(cursor: &mut Cursor) -> (r: Result<ShellLinkHeader, HeaderError>)
        ensures
            final(cursor).data@ == old(cursor).data@,
            old(cursor).pos + 76 <= old(cursor).len() ==> {
                &&& r matches Ok(h) && h == header_at(old(cursor).data@, old(cursor).pos as int)
                &&& final(cursor).pos == old(cursor).pos + 76
            },
            old(cursor).pos + 76 > old(cursor).len() ==> {
                &&& r == Err::<ShellLinkHeader, HeaderError>(HeaderError::Read)
                &&& final(cursor).pos == failed_pos(old(cursor).len(), old(cursor).pos as int)
            },
    {
        let header_size = match cursor.read_u32() {
            Ok(v) => v,
            Err(_) => return Err(HeaderError::Read),
        };
        let link_clsid = match cursor.read_u128() {
            Ok(v) => v,
            Err(_) => return Err(HeaderError::Read),
        };
        let raw_flags = match cursor.read_u32() {
            Ok(v) => v,
            Err(_) => return Err(HeaderError::Read),
        };
        let raw_attributes = match cursor.read_u32() {
            Ok(v) => v,
            Err(_) => return Err(HeaderError::Read),
        };
        let creation_time = match cursor.read_u64() {
            Ok(v) => v,
            Err(_) => return Err(HeaderError::Read),
        };
        let access_time = match cursor.read_u64() {
            Ok(v) => v,
            Err(_) => return Err(HeaderError::Read),
        };
        let write_time = match cursor.read_u64() {
            Ok(v) => v,
            Err(_) => return Err(HeaderError::Read),
        };
        let file_size = match cursor.read_u32() {
            Ok(v) => v,
            Err(_) => return Err(HeaderError::Read),
        };
        let icon_index = match cursor.read_u32() {
            Ok(v) => v,
            Err(_) => return Err(HeaderError::Read),
        };
        let raw_show_command = match cursor.read_u32() {
            Ok(v) => v,
            Err(_) => return Err(HeaderError::Read),
        };
        let raw_hot_key = match cursor.read_u16() {
            Ok(v) => v,
            Err(_) => return Err(HeaderError::Read),
        };
        let reserved1 = match cursor.read_u16() {
            Ok(v) => v,
            Err(_) => return Err(HeaderError::Read),
        };
        let reserved2 = match cursor.read_u32() {
            Ok(v) => v,
            Err(_) => return Err(HeaderError::Read),
        };
        let reserved3 = match cursor.read_u32() {
            Ok(v) => v,
            Err(_) => return Err(HeaderError::Read),
        };
        proof {
            let s = old(cursor).data@;
            let p = old(cursor).pos as int;
            if old(cursor).pos + 76 <= old(cursor).len() {
                let a = s[p + 64];
                let b = s[p + 65];
                let x: u16 = raw_hot_key;
                assert((x & 0xFF) as u8 == a && (x >> 8) as u8 == b) by (bit_vector)
                    requires
                        x == (a as u16) + 0x100 * (b as u16),
                ;
            }
        }
        Ok(
            ShellLinkHeader {
                header_size,
                link_clsid,
                link_flags: LinkFlags::from_bits_truncate(raw_flags),
                file_attributes: FileAttributeFlags::from_bits_truncate(raw_attributes),
                creation_time,
                access_time,
                write_time,
                file_size,
                icon_index,
                show_command: ShowCommand::from_bits_truncate(raw_show_command),
                hot_key: HotKeyFlags::from(raw_hot_key),
                reserved1,
                reserved2,
                reserved3,
            },
        )
    }
}

} // verus!
