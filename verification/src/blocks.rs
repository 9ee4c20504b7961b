//! The eleven known extra data block types. Each owns a declared
//! (size, signature) tag; the dispatch over tags lives in the extra data
//! module, while each block's layout and decoder live here.

use crate::cursor::{failed_pos, le16_at, le32_at, Cursor};
use crate::error::ExtraDataError;
use crate::text::{ansi_text, spec_ansi_text, spec_unit_text, utf16_units_text};
use vstd::prelude::*;

verus! {

/// The view of an optional value through each element's own view.
pub open spec fn opt_view<T: View>(o: Option<T>) -> Option<T::V> {
    match o {
        Some(x) => Some(x@),
        None => None,
    }
}

/// The view of an optional byte vector as an optional byte sequence.
pub open spec fn opt_bytes(o: Option<Vec<u8>>) -> Option<Seq<u8>> {
    match o {
        Some(v) => Some(v@),
        None => None,
    }
}

/// The view of an optional unit vector as an optional unit sequence.
pub open spec fn opt_units(o: Option<Vec<u16>>) -> Option<Seq<u16>> {
    match o {
        Some(v) => Some(v@),
        None => None,
    }
}

/// Index of the first zero in `b`, or its length when none occurs.
pub open spec fn first_nul_byte(b: Seq<u8>) -> int
    decreases b.len(),
{
    if b.len() == 0 {
        0
    } else if b[0] == 0 {
        0
    } else {
        1 + first_nul_byte(b.drop_first())
    }
}

/// Index of the first zero in `u`, or its length when none occurs.
pub open spec fn first_nul_unit(u: Seq<u16>) -> int
    decreases u.len(),
{
    if u.len() == 0 {
        0
    } else if u[0] == 0 {
        0
    } else {
        1 + first_nul_unit(u.drop_first())
    }
}

/// The foreground text color contains blue.
pub const FOREGROUND_BLUE: u16 = 0x0001;

/// The foreground text color contains green.
pub const FOREGROUND_GREEN: u16 = 0x0002;

/// The foreground text color contains red.
pub const FOREGROUND_RED: u16 = 0x0004;

/// The foreground text color is intensified.
pub const FOREGROUND_INTENSITY: u16 = 0x0008;

/// The background text color contains blue.
pub const BACKGROUND_BLUE: u16 = 0x0010;

/// The background text color contains green.
pub const BACKGROUND_GREEN: u16 = 0x0020;

/// The background text color contains red.
pub const BACKGROUND_RED: u16 = 0x0040;

/// The background text color is intensified.
pub const BACKGROUND_INTENSITY: u16 = 0x0080;

/// Union of all defined console fill attribute bits; unknown bits are
/// dropped on read.
pub const FILL_ATTRIBUTES_MASK: u16 = 0x00FF;

/// The fill attributes controlling foreground and background text colors in
/// a console window. Unknown bits are dropped when a value is read.
#[derive(Clone, Copy, Debug, PartialEq, Eq, Structural, Default)]
pub struct FileAttributes {
    /// The defined fill attribute bits.
    pub bits: u16,
}

impl FileAttributes {
    /// Interprets a raw integer as a flag set, dropping unknown bits.
    pub fn from_bits_truncate(raw: u16) -> (r: FileAttributes)
        ensures
            r.bits == raw & FILL_ATTRIBUTES_MASK,
    {
        FileAttributes { bits: raw & FILL_ATTRIBUTES_MASK }
    }
}

/// The font family is unknown.
pub const FF_DONTCARE: u32 = 0x0000;

/// The font is variable-width with serifs.
pub const FF_ROMAN: u32 = 0x0000;

/// The font is variable-width without serifs.
pub const FF_SWISS: u32 = 0x0000;

/// The font is fixed-width.
pub const FF_MODERN: u32 = 0x0000;

/// The font looks like handwriting.
pub const FF_SCRIPT: u32 = 0x0000;

/// The font is a novelty font.
pub const FF_DECORATIVE: u32 = 0x0000;

/// A font pitch does not apply.
pub const TMPF_NONE: u32 = 0x0000;

/// The font is a fixed-pitch font.
pub const TMPF_FIXED_PITCH: u32 = 0x0000;

/// The font is a vector font.
pub const TMPF_VECTOR: u32 = 0x0000;

/// The font is a true-type font.
pub const TMPF_TRUETYPE: u32 = 0x0000;

/// The font is specific to the device.
pub const TMPF_DEVICE: u32 = 0x0000;

/// Union of all defined font family bits; unknown bits are dropped on read.
pub const FONT_FAMILY_MASK: u32 = 0x0000;

/// The family and pitch of the font used in a console window. Unknown bits
/// are dropped when a value is read.
#[derive(Clone, Copy, Debug, PartialEq, Eq, Structural, Default)]
pub struct FontFamily {
    /// The defined font family bits.
    pub bits: u32,
}

impl FontFamily {
    /// Interprets a raw integer as a flag set, dropping unknown bits.
    pub fn from_bits_truncate(raw: u32) -> (r: FontFamily)
        ensures
            r.bits == raw & FONT_FAMILY_MASK,
    {
        FontFamily { bits: raw & FONT_FAMILY_MASK }
    }
}

/// The display settings to use when the link target runs in a console
/// window.
#[derive(Clone, Debug)]
pub struct ConsoleDataBlock {
    /// Declared size of the block; 0xCC for this type.
    pub block_size: u32,
    /// Declared signature of the block; 0xA0000002 for this type.
    pub block_signature: u32,
    /// Fill attributes for the console window's text.
    pub file_attributes: FileAttributes,
    /// Fill attributes for the console window's popup text.
    pub popup_file_attributes: u16,
    /// Horizontal size, in characters, of the console window buffer.
    pub screen_buffer_size_x: u16,
    /// Vertical size, in characters, of the console window buffer.
    pub screen_buffer_size_y: u16,
    /// Horizontal size, in characters, of the console window.
    pub window_size_x: u16,
    /// Vertical size, in characters, of the console window.
    pub window_size_y: u16,
    /// Horizontal coordinate, in pixels, of the console window origin.
    pub window_origin_x: u16,
    /// Vertical coordinate, in pixels, of the console window origin.
    pub window_origin_y: u16,
    /// An unused field kept for the block's fixed layout.
    pub _unused_1: u32,
    /// An unused field kept for the block's fixed layout.
    pub _unused_2: u32,
    /// Size, in pixels, of the console window font.
    pub font_size: u32,
    /// Family of the console window font.
    pub font_family: FontFamily,
    /// Stroke weight of the console window font.
    pub font_weight: u32,
    /// The 64-byte buffer holding the face name of the console window font.
    pub face_name: Vec<u8>,
    /// Size of the cursor, in pixels, used in the console window.
    pub cursor_size: u32,
    /// Whether to open the console window in full-screen mode.
    pub full_screen: u32,
    /// Whether to open the console window in quick-edit mode.
    pub quick_edit: u32,
    /// Whether insert mode is enabled in the console window.
    pub insert_mode: u32,
    /// Whether the console window is positioned automatically.
    pub auto_position: u32,
    /// Size, in characters, of the console input history buffer.
    pub history_buffer_size: u32,
    /// Number of history buffers to use.
    pub number_of_history_buffers: u32,
    /// Whether duplicates are removed from the history buffer.
    pub history_no_dup: u32,
    /// The 64-byte table of RGB colors used for console text.
    pub color_table: Vec<u8>,
}

/// Mathematical view of a console data block.
#[verifier::ext_equal]
pub struct ConsoleDataBlockV {
    /// Declared size of the block.
    pub block_size: u32,
    /// Declared signature of the block.
    pub block_signature: u32,
    /// Fill attributes for the console window's text.
    pub file_attributes: FileAttributes,
    /// Fill attributes for the console window's popup text.
    pub popup_file_attributes: u16,
    /// Horizontal size, in characters, of the console window buffer.
    pub screen_buffer_size_x: u16,
    /// Vertical size, in characters, of the console window buffer.
    pub screen_buffer_size_y: u16,
    /// Horizontal size, in characters, of the console window.
    pub window_size_x: u16,
    /// Vertical size, in characters, of the console window.
    pub window_size_y: u16,
    /// Horizontal coordinate, in pixels, of the console window origin.
    pub window_origin_x: u16,
    /// Vertical coordinate, in pixels, of the console window origin.
    pub window_origin_y: u16,
    /// An unused field kept for the block's fixed layout.
    pub _unused_1: u32,
    /// An unused field kept for the block's fixed layout.
    pub _unused_2: u32,
    /// Size, in pixels, of the console window font.
    pub font_size: u32,
    /// Family of the console window font.
    pub font_family: FontFamily,
    /// Stroke weight of the console window font.
    pub font_weight: u32,
    /// The bytes of the face name buffer.
    pub face_name: Seq<u8>,
    /// Size of the cursor, in pixels, used in the console window.
    pub cursor_size: u32,
    /// Whether to open the console window in full-screen mode.
    pub full_screen: u32,
    /// Whether to open the console window in quick-edit mode.
    pub quick_edit: u32,
    /// Whether insert mode is enabled in the console window.
    pub insert_mode: u32,
    /// Whether the console window is positioned automatically.
    pub auto_position: u32,
    /// Size, in characters, of the console input history buffer.
    pub history_buffer_size: u32,
    /// Number of history buffers to use.
    pub number_of_history_buffers: u32,
    /// Whether duplicates are removed from the history buffer.
    pub history_no_dup: u32,
    /// The bytes of the color table.
    pub color_table: Seq<u8>,
}

impl View for ConsoleDataBlock {
    type V = ConsoleDataBlockV;

    open spec fn view(&self) -> ConsoleDataBlockV {
        ConsoleDataBlockV {
            block_size: self.block_size,
            block_signature: self.block_signature,
            file_attributes: self.file_attributes,
            popup_file_attributes: self.popup_file_attributes,
            screen_buffer_size_x: self.screen_buffer_size_x,
            screen_buffer_size_y: self.screen_buffer_size_y,
            window_size_x: self.window_size_x,
            window_size_y: self.window_size_y,
            window_origin_x: self.window_origin_x,
            window_origin_y: self.window_origin_y,
            _unused_1: self._unused_1,
            _unused_2: self._unused_2,
            font_size: self.font_size,
            font_family: self.font_family,
            font_weight: self.font_weight,
            face_name: self.face_name@,
            cursor_size: self.cursor_size,
            full_screen: self.full_screen,
            quick_edit: self.quick_edit,
            insert_mode: self.insert_mode,
            auto_position: self.auto_position,
            history_buffer_size: self.history_buffer_size,
            number_of_history_buffers: self.number_of_history_buffers,
            history_no_dup: self.history_no_dup,
            color_table: self.color_table@,
        }
    }
}

/// The console data block whose 196-byte payload starts at `p` of `s`, under
/// the given tag.
pub open spec fn console_block_at(s: Seq<u8>, size: u32, sig: u32, p: int) -> ConsoleDataBlockV {
    ConsoleDataBlockV {
        block_size: size,
        block_signature: sig,
        file_attributes: FileAttributes { bits: (le16_at(s, p) as u16) & FILL_ATTRIBUTES_MASK },
        popup_file_attributes: le16_at(s, p + 2) as u16,
        screen_buffer_size_x: le16_at(s, p + 4) as u16,
        screen_buffer_size_y: le16_at(s, p + 6) as u16,
        window_size_x: le16_at(s, p + 8) as u16,
        window_size_y: le16_at(s, p + 10) as u16,
        window_origin_x: le16_at(s, p + 12) as u16,
        window_origin_y: le16_at(s, p + 14) as u16,
        _unused_1: le32_at(s, p + 16) as u32,
        _unused_2: le32_at(s, p + 20) as u32,
        font_size: le32_at(s, p + 24) as u32,
        font_family: FontFamily { bits: (le32_at(s, p + 28) as u32) & FONT_FAMILY_MASK },
        font_weight: le32_at(s, p + 32) as u32,
        face_name: s.subrange(p + 36, p + 100),
        cursor_size: le32_at(s, p + 100) as u32,
        full_screen: le32_at(s, p + 104) as u32,
        quick_edit: le32_at(s, p + 108) as u32,
        insert_mode: le32_at(s, p + 112) as u32,
        auto_position: le32_at(s, p + 116) as u32,
        history_buffer_size: le32_at(s, p + 120) as u32,
        number_of_history_buffers: le32_at(s, p + 124) as u32,
        history_no_dup: le32_at(s, p + 128) as u32,
        color_table: s.subrange(p + 132, p + 196),
    }
}

impl ConsoleDataBlock {
    /// Decodes the block's 196-byte payload from the cursor's position.
    pub(crate) fn new(block_size: u32, block_signature: u32, cursor: &mut Cursor) -> (r: Result<
        ConsoleDataBlock,
        ExtraDataError,
    >)
        ensures
            final(cursor).data@ == old(cursor).data@,
            old(cursor).pos + 196 <= old(cursor).len() ==> {
                &&& r matches Ok(b) && b@ == console_block_at(
                    old(cursor).data@,
                    block_size,
                    block_signature,
                    old(cursor).pos as int,
                )
                &&& final(cursor).pos == old(cursor).pos + 196
            },
            old(cursor).pos + 196 > old(cursor).len() ==> {
                &&& r == Err::<ConsoleDataBlock, ExtraDataError>(ExtraDataError::Read)
                &&& final(cursor).pos == failed_pos(old(cursor).len(), old(cursor).pos as int)
            },
    {
        let raw_attributes = match cursor.read_u16() {
            Ok(v) => v,
            Err(_) => return Err(ExtraDataError::Read),
        };
        let popup_file_attributes = match cursor.read_u16() {
            Ok(v) => v,
            Err(_) => return Err(ExtraDataError::Read),
        };
        let screen_buffer_size_x = match cursor.read_u16() {
            Ok(v) => v,
            Err(_) => return Err(ExtraDataError::Read),
        };
        let screen_buffer_size_y = match cursor.read_u16() {
            Ok(v) => v,
            Err(_) => return Err(ExtraDataError::Read),
        };
        let window_size_x = match cursor.read_u16() {
            Ok(v) => v,
            Err(_) => return Err(ExtraDataError::Read),
        };
        let window_size_y = match cursor.read_u16() {
            Ok(v) => v,
            Err(_) => return Err(ExtraDataError::Read),
        };
        let window_origin_x = match cursor.read_u16() {
            Ok(v) => v,
            Err(_) => return Err(ExtraDataError::Read),
        };
        let window_origin_y = match cursor.read_u16() {
            Ok(v) => v,
            Err(_) => return Err(ExtraDataError::Read),
        };
        let unused_1 = match cursor.read_u32() {
            Ok(v) => v,
            Err(_) => return Err(ExtraDataError::Read),
        };
        let unused_2 = match cursor.read_u32() {
            Ok(v) => v,
            Err(_) => return Err(ExtraDataError::Read),
        };
        let font_size = match cursor.read_u32() {
            Ok(v) => v,
            Err(_) => return Err(ExtraDataError::Read),
        };
        let raw_family = match cursor.read_u32() {
            Ok(v) => v,
            Err(_) => return Err(ExtraDataError::Read),
        };
        let font_weight = match cursor.read_u32() {
            Ok(v) => v,
            Err(_) => return Err(ExtraDataError::Read),
        };
        let face_name = match cursor.read_exact(64) {
            Ok(v) => v,
            Err(_) => return Err(ExtraDataError::Read),
        };
        let cursor_size = match cursor.read_u32() {
            Ok(v) => v,
            Err(_) => return Err(ExtraDataError::Read),
        };
        let full_screen = match cursor.read_u32() {
            Ok(v) => v,
            Err(_) => return Err(ExtraDataError::Read),
        };
        let quick_edit = match cursor.read_u32() {
            Ok(v) => v,
            Err(_) => return Err(ExtraDataError::Read),
        };
        let insert_mode = match cursor.read_u32() {
            Ok(v) => v,
            Err(_) => return Err(ExtraDataError::Read),
        };
        let auto_position = match cursor.read_u32() {
            Ok(v) => v,
            Err(_) => return Err(ExtraDataError::Read),
        };
        let history_buffer_size = match cursor.read_u32() {
            Ok(v) => v,
            Err(_) => return Err(ExtraDataError::Read),
        };
        let number_of_history_buffers = match cursor.read_u32() {
            Ok(v) => v,
            Err(_) => return Err(ExtraDataError::Read),
        };
        let history_no_dup = match cursor.read_u32() {
            Ok(v) => v,
            Err(_) => return Err(ExtraDataError::Read),
        };
        let color_table = match cursor.read_exact(64) {
            Ok(v) => v,
            Err(_) => return Err(ExtraDataError::Read),
        };
        let cdb = ConsoleDataBlock {
            block_size,
            block_signature,
            file_attributes: FileAttributes::from_bits_truncate(raw_attributes),
            popup_file_attributes,
            screen_buffer_size_x,
            screen_buffer_size_y,
            window_size_x,
            window_size_y,
            window_origin_x,
            window_origin_y,
            _unused_1: unused_1,
            _unused_2: unused_2,
            font_size,
            font_family: FontFamily::from_bits_truncate(raw_family),
            font_weight,
            face_name,
            cursor_size,
            full_screen,
            quick_edit,
            insert_mode,
            auto_position,
            history_buffer_size,
            number_of_history_buffers,
            history_no_dup,
            color_table,
        };
        proof {
            if old(cursor).pos + 196 <= old(cursor).len() {
                assert(cdb@ =~= console_block_at(
                    old(cursor).data@,
                    block_size,
                    block_signature,
                    old(cursor).pos as int,
                ));
            }
        }
        Ok(cdb)
    }
}

/// The code page to use for displaying text in a console window.
#[derive(Clone, Debug, PartialEq, Eq, Structural)]
pub struct ConsoleFEDataBlock {
    /// Declared size of the block; 0x0C for this type.
    pub block_size: u32,
    /// Declared signature of the block; 0xA0000004 for this type.
    pub block_signature: u32,
    /// A code page language code identifier.
    pub code_page: u32,
}

impl View for ConsoleFEDataBlock {
    type V = ConsoleFEDataBlock;

    open spec fn view(&self) -> ConsoleFEDataBlock {
        *self
    }
}

/// The console codepage block whose 4-byte payload starts at `p` of `s`.
pub open spec fn console_fe_block_at(s: Seq<u8>, size: u32, sig: u32, p: int) -> ConsoleFEDataBlock {
    ConsoleFEDataBlock {
        block_size: size,
        block_signature: sig,
        code_page: le32_at(s, p) as u32,
    }
}

impl ConsoleFEDataBlock {
    /// Decodes the block's 4-byte payload from the cursor's position.
    pub(crate) fn new(block_size: u32, block_signature: u32, cursor: &mut Cursor) -> (r: Result<
        ConsoleFEDataBlock,
        ExtraDataError,
    >)
        ensures
            final(cursor).data@ == old(cursor).data@,
            old(cursor).pos + 4 <= old(cursor).len() ==> {
                &&& r matches Ok(b) && b@ == console_fe_block_at(
                    old(cursor).data@,
                    block_size,
                    block_signature,
                    old(cursor).pos as int,
                )
                &&& final(cursor).pos == old(cursor).pos + 4
            },
            old(cursor).pos + 4 > old(cursor).len() ==> {
                &&& r == Err::<ConsoleFEDataBlock, ExtraDataError>(ExtraDataError::Read)
                &&& final(cursor).pos == failed_pos(old(cursor).len(), old(cursor).pos as int)
            },
    {
        let code_page = match cursor.read_u32() {
            Ok(v) => v,
            Err(_) => return Err(ExtraDataError::Read),
        };
        Ok(ConsoleFEDataBlock { block_size, block_signature, code_page })
    }
}

/// An application identifier that can be used instead of a link target ID
/// list to install an application when the link is activated.
#[derive(Clone, Debug)]
pub struct DarwinDataBlock {
    /// Declared size of the block; 0x314 for this type.
    pub block_size: u32,
    /// Declared signature of the block; 0xA0000006 for this type.
    pub block_signature: u32,
    /// The 260-byte narrow application identifier buffer.
    pub darwin_data_ansi: Vec<u8>,
    /// The 520-byte wide application identifier buffer.
    pub darwin_data_unicode: Option<Vec<u8>>,
}

/// Mathematical view of a Darwin data block.
#[verifier::ext_equal]
pub struct DarwinDataBlockV {
    /// Declared size of the block.
    pub block_size: u32,
    /// Declared signature of the block.
    pub block_signature: u32,
    /// The bytes of the narrow application identifier buffer.
    pub darwin_data_ansi: Seq<u8>,
    /// The bytes of the wide application identifier buffer.
    pub darwin_data_unicode: Option<Seq<u8>>,
}

impl View for DarwinDataBlock {
    type V = DarwinDataBlockV;

    open spec fn view(&self) -> DarwinDataBlockV {
        DarwinDataBlockV {
            block_size: self.block_size,
            block_signature: self.block_signature,
            darwin_data_ansi: self.darwin_data_ansi@,
            darwin_data_unicode: opt_bytes(self.darwin_data_unicode),
        }
    }
}

/// The Darwin block whose 780-byte payload starts at `p` of `s`.
pub open spec fn darwin_block_at(s: Seq<u8>, size: u32, sig: u32, p: int) -> DarwinDataBlockV {
    DarwinDataBlockV {
        block_size: size,
        block_signature: sig,
        darwin_data_ansi: s.subrange(p, p + 260),
        darwin_data_unicode: Some(s.subrange(p + 260, p + 780)),
    }
}

impl DarwinDataBlock {
    /// Decodes the block's 780-byte payload from the cursor's position.
    pub(crate) fn new(block_size: u32, block_signature: u32, cursor: &mut Cursor) -> (r: Result<
        DarwinDataBlock,
        ExtraDataError,
    >)
        ensures
            final(cursor).data@ == old(cursor).data@,
            old(cursor).pos + 780 <= old(cursor).len() ==> {
                &&& r matches Ok(b) && b@ == darwin_block_at(
                    old(cursor).data@,
                    block_size,
                    block_signature,
                    old(cursor).pos as int,
                )
                &&& final(cursor).pos == old(cursor).pos + 780
            },
            old(cursor).pos + 780 > old(cursor).len() ==> {
                &&& r == Err::<DarwinDataBlock, ExtraDataError>(ExtraDataError::Read)
                &&& final(cursor).pos == failed_pos(old(cursor).len(), old(cursor).pos as int)
            },
    {
        let darwin_data_ansi = match cursor.read_exact(260) {
            Ok(v) => v,
            Err(_) => return Err(ExtraDataError::Read),
        };
        let darwin_data_unicode = match cursor.read_exact(520) {
            Ok(v) => v,
            Err(_) => return Err(ExtraDataError::Read),
        };
        Ok(
            DarwinDataBlock {
                block_size,
                block_signature,
                darwin_data_ansi,
                darwin_data_unicode: Some(darwin_data_unicode),
            },
        )
    }
}

/// A path to environment variable information for the link target.
#[derive(Clone, Debug)]
pub struct EnvironmentVariableDataBlock {
    /// Declared size of the block; 0x314 for this type.
    pub block_size: u32,
    /// Declared signature of the block; 0xA0000001 for this type.
    pub block_signature: u32,
    /// The 260-byte narrow target path buffer, NUL-terminated.
    pub target_ansi: Option<Vec<u8>>,
    /// The 260-unit wide target path buffer, NUL-terminated.
    pub target_unicode: Option<Vec<u16>>,
}

/// Mathematical view of an environment variable data block.
#[verifier::ext_equal]
pub struct EnvironmentVariableDataBlockV {
    /// Declared size of the block.
    pub block_size: u32,
    /// Declared signature of the block.
    pub block_signature: u32,
    /// The bytes of the narrow target path buffer.
    pub target_ansi: Option<Seq<u8>>,
    /// The units of the wide target path buffer.
    pub target_unicode: Option<Seq<u16>>,
}

impl View for EnvironmentVariableDataBlock {
    type V = EnvironmentVariableDataBlockV;

    open spec fn view(&self) -> EnvironmentVariableDataBlockV {
        EnvironmentVariableDataBlockV {
            block_size: self.block_size,
            block_signature: self.block_signature,
            target_ansi: opt_bytes(self.target_ansi),
            target_unicode: opt_units(self.target_unicode),
        }
    }
}

/// The environment variable block whose 780-byte payload starts at `p` of
/// `s`: 260 narrow bytes, then 520 bytes paired into 260 wide units.
pub open spec fn environment_block_at(s: Seq<u8>, size: u32, sig: u32, p: int)
    -> EnvironmentVariableDataBlockV {
    EnvironmentVariableDataBlockV {
        block_size: size,
        block_signature: sig,
        target_ansi: Some(s.subrange(p, p + 260)),
        target_unicode: Some(crate::text::units_of(s.subrange(p + 260, p + 780))),
    }
}

/// The narrow target of an environment variable block: the buffer up to its
/// first NUL decoded as narrow text, or an absence error when the buffer is
/// missing or not valid text.
pub open spec fn env_target_ansi_model(o: Option<Seq<u8>>) -> Result<Seq<char>, ExtraDataError> {
    match o {
        None => Err(ExtraDataError::MissingStringData),
        Some(b) => match spec_ansi_text(b.take(first_nul_byte(b))) {
            Some(t) => Ok(t),
            None => Err(ExtraDataError::MissingStringData),
        },
    }
}

/// The wide target of an environment variable block: the units up to the
/// first NUL decoded as UTF-16, or an absence error when the buffer is
/// missing or not valid text.
pub open spec fn env_target_unicode_model(o: Option<Seq<u16>>) -> Result<Seq<char>, ExtraDataError> {
    match o {
        None => Err(ExtraDataError::MissingStringData),
        Some(u) => match spec_unit_text(u.take(first_nul_unit(u))) {
            Some(t) => Ok(t),
            None => Err(ExtraDataError::MissingStringData),
        },
    }
}

/// `first_nul_byte` is the first index holding zero: no earlier index does,
/// and either `i` holds zero or `i` is the length.
proof fn lemma_first_nul_byte_at(b: Seq<u8>, i: int)
    requires
        0 <= i <= b.len(),
        forall|j: int| 0 <= j < i ==> b[j] != 0,
        i < b.len() ==> b[i] == 0,
    ensures
        first_nul_byte(b) == i,
    decreases b.len(),
{
    if b.len() == 0 {
    } else if i == 0 {
    } else {
        lemma_first_nul_byte_at(b.drop_first(), i - 1);
    }
}

/// `first_nul_unit` is the first index holding zero: no earlier index does,
/// and either `i` holds zero or `i` is the length.
proof fn lemma_first_nul_unit_at(u: Seq<u16>, i: int)
    requires
        0 <= i <= u.len(),
        forall|j: int| 0 <= j < i ==> u[j] != 0,
        i < u.len() ==> u[i] == 0,
    ensures
        first_nul_unit(u) == i,
    decreases u.len(),
{
    if u.len() == 0 {
    } else if i == 0 {
    } else {
        lemma_first_nul_unit_at(u.drop_first(), i - 1);
    }
}

impl EnvironmentVariableDataBlock {
    /// Decodes the block's 780-byte payload from the cursor's position.
    pub(crate) fn new(block_size: u32, block_signature: u32, cursor: &mut Cursor) -> (r: Result<
        EnvironmentVariableDataBlock,
        ExtraDataError,
    >)
        ensures
            final(cursor).data@ == old(cursor).data@,
            old(cursor).pos + 780 <= old(cursor).len() ==> {
                &&& r matches Ok(b) && b@ == environment_block_at(
                    old(cursor).data@,
                    block_size,
                    block_signature,
                    old(cursor).pos as int,
                )
                &&& final(cursor).pos == old(cursor).pos + 780
            },
            old(cursor).pos + 780 > old(cursor).len() ==> {
                &&& r == Err::<EnvironmentVariableDataBlock, ExtraDataError>(ExtraDataError::Read)
                &&& final(cursor).pos == failed_pos(old(cursor).len(), old(cursor).pos as int)
            },
    {
        let target_ansi = match cursor.read_exact(260) {
            Ok(v) => v,
            Err(_) => return Err(ExtraDataError::Read),
        };
        let wide_bytes = match cursor.read_exact(520) {
            Ok(v) => v,
            Err(_) => return Err(ExtraDataError::Read),
        };
        let mut target_unicode: Vec<u16> = Vec::new();
        let mut i: usize = 0;
        while i < 260
            invariant
                0 <= i <= 260,
                wide_bytes@.len() == 520,
                target_unicode@ == crate::text::units_of(wide_bytes@).take(i as int),
            decreases 260 - i,
        {
            target_unicode.push(wide_bytes[2 * i] as u16 + 0x100 * wide_bytes[2 * i + 1] as u16);
            i = i + 1;
            proof {
                assert(target_unicode@ =~= crate::text::units_of(wide_bytes@).take(i as int));
            }
        }
        proof {
            assert(target_unicode@ =~= crate::text::units_of(wide_bytes@));
        }
        Ok(
            EnvironmentVariableDataBlock {
                block_size,
                block_signature,
                target_ansi: Some(target_ansi),
                target_unicode: Some(target_unicode),
            },
        )
    }

    /// Decodes the narrow target path: the buffer up to its first NUL,
    /// interpreted as narrow text. Fails with a missing-data error when the
    /// buffer is absent or not valid text.
    pub fn target_ansi(&self) -> (r: Result<String, ExtraDataError>)
        ensures
            match env_target_ansi_model(opt_bytes(self.target_ansi)) {
                Ok(t) => r matches Ok(v) && v@ == t,
                Err(e) => r == Err::<String, ExtraDataError>(e),
            },
    {
        let ansi = match &self.target_ansi {
            Some(v) => v,
            None => return Err(ExtraDataError::MissingStringData),
        };
        let mut i: usize = 0;
        while i < ansi.len() && ansi[i] != 0
            invariant
                0 <= i <= ansi@.len(),
                forall|j: int| 0 <= j < i ==> ansi@[j] != 0,
            decreases ansi@.len() - i,
        {
            i = i + 1;
        }
        proof {
            lemma_first_nul_byte_at(ansi@, i as int);
        }
        let mut prefix: Vec<u8> = Vec::new();
        let mut k: usize = 0;
        while k < i
            invariant
                0 <= k <= i <= ansi@.len(),
                prefix@ == ansi@.take(i as int).take(k as int),
            decreases i - k,
        {
            prefix.push(ansi[k]);
            k = k + 1;
            proof {
                assert(prefix@ =~= ansi@.take(i as int).take(k as int));
            }
        }
        proof {
            assert(prefix@ =~= ansi@.take(i as int));
        }
        match ansi_text(prefix) {
            Some(t) => Ok(t),
            None => Err(ExtraDataError::MissingStringData),
        }
    }

    /// Decodes the wide target path: the units up to the first NUL,
    /// interpreted as UTF-16. Fails with a missing-data error when the
    /// buffer is absent or not valid text.
    pub fn target_unicode(&self) -> (r: Result<String, ExtraDataError>)
        ensures
            match env_target_unicode_model(opt_units(self.target_unicode)) {
                Ok(t) => r matches Ok(v) && v@ == t,
                Err(e) => r == Err::<String, ExtraDataError>(e),
            },
    {
        let unicode = match &self.target_unicode {
            Some(v) => v,
            None => return Err(ExtraDataError::MissingStringData),
        };
        let mut i: usize = 0;
        while i < unicode.len() && unicode[i] != 0
            invariant
                0 <= i <= unicode@.len(),
                forall|j: int| 0 <= j < i ==> unicode@[j] != 0,
            decreases unicode@.len() - i,
        {
            i = i + 1;
        }
        proof {
            lemma_first_nul_unit_at(unicode@, i as int);
        }
        let mut prefix: Vec<u16> = Vec::new();
        let mut k: usize = 0;
        while k < i
            invariant
                0 <= k <= i <= unicode@.len(),
                prefix@ == unicode@.take(i as int).take(k as int),
            decreases i - k,
        {
            prefix.push(unicode[k]);
            k = k + 1;
            proof {
                assert(prefix@ =~= unicode@.take(i as int).take(k as int));
            }
        }
        proof {
            assert(prefix@ =~= unicode@.take(i as int));
        }
        match utf16_units_text(&prefix) {
            Some(t) => Ok(t),
            None => Err(ExtraDataError::MissingStringData),
        }
    }
}

/// The narrow and wide targets of an environment variable block agree for
/// ASCII-only content: buffers holding the same ASCII values up to the same
/// NUL terminator decode to the same text.
pub proof fn lemma_env_targets_agree(b: Seq<u8>, u: Seq<u16>)
    requires
        u.len() == b.len(),
        crate::text::ascii_bytes(b),
        forall|i: int| 0 <= i < b.len() ==> u[i] == b[i],
    ensures
        env_target_ansi_model(Some(b)) == env_target_unicode_model(Some(u)),
        env_target_ansi_model(Some(b)) is Ok,
{
    lemma_first_nul_byte_bounds(b);
    lemma_first_nul_unit_bounds(u);
    lemma_first_nul_agrees(b, u);
    let bp = b.take(first_nul_byte(b));
    let up = u.take(first_nul_unit(u));
    crate::text::lemma_ascii_texts_agree(bp, up);
}

/// The first NUL index lies between zero and the buffer's length.
proof fn lemma_first_nul_byte_bounds(b: Seq<u8>)
    ensures
        0 <= first_nul_byte(b) <= b.len(),
    decreases b.len(),
{
    if b.len() == 0 {
    } else if b[0] == 0 {
    } else {
        lemma_first_nul_byte_bounds(b.drop_first());
    }
}

/// The first NUL index lies between zero and the buffer's length.
proof fn lemma_first_nul_unit_bounds(u: Seq<u16>)
    ensures
        0 <= first_nul_unit(u) <= u.len(),
    decreases u.len(),
{
    if u.len() == 0 {
    } else if u[0] == 0 {
    } else {
        lemma_first_nul_unit_bounds(u.drop_first());
    }
}

/// Buffers holding the same values have their first NUL at the same index.
proof fn lemma_first_nul_agrees(b: Seq<u8>, u: Seq<u16>)
    requires
        u.len() == b.len(),
        forall|i: int| 0 <= i < b.len() ==> u[i] == b[i],
    ensures
        first_nul_byte(b) == first_nul_unit(u),
    decreases b.len(),
{
    if b.len() == 0 {
    } else if b[0] == 0 {
    } else {
        lemma_first_nul_agrees(b.drop_first(), u.drop_first());
    }
}

/// The path to an icon, encoded using environment variables.
#[derive(Clone, Debug)]
pub struct IconEnvironmentDataBlock {
    /// Declared size of the block; 0x314 for this type.
    pub block_size: u32,
    /// Declared signature of the block; 0xA0000007 for this type.
    pub block_signature: u32,
    /// The 260-byte narrow icon path buffer, NUL-terminated.
    pub target_ansi: Option<Vec<u8>>,
    /// The 520-byte wide icon path buffer, NUL-terminated.
    pub target_unicode: Option<Vec<u8>>,
}

/// Mathematical view of an icon environment data block.
#[verifier::ext_equal]
pub struct IconEnvironmentDataBlockV {
    /// Declared size of the block.
    pub block_size: u32,
    /// Declared signature of the block.
    pub block_signature: u32,
    /// The bytes of the narrow icon path buffer.
    pub target_ansi: Option<Seq<u8>>,
    /// The bytes of the wide icon path buffer.
    pub target_unicode: Option<Seq<u8>>,
}

impl View for IconEnvironmentDataBlock {
    type V = IconEnvironmentDataBlockV;

    open spec fn view(&self) -> IconEnvironmentDataBlockV {
        IconEnvironmentDataBlockV {
            block_size: self.block_size,
            block_signature: self.block_signature,
            target_ansi: opt_bytes(self.target_ansi),
            target_unicode: opt_bytes(self.target_unicode),
        }
    }
}

/// The icon environment block whose 780-byte payload starts at `p` of `s`.
pub open spec fn icon_environment_block_at(s: Seq<u8>, size: u32, sig: u32, p: int)
    -> IconEnvironmentDataBlockV {
    IconEnvironmentDataBlockV {
        block_size: size,
        block_signature: sig,
        target_ansi: Some(s.subrange(p, p + 260)),
        target_unicode: Some(s.subrange(p + 260, p + 780)),
    }
}

impl IconEnvironmentDataBlock {
    /// Decodes the block's 780-byte payload from the cursor's position.
    pub(crate) fn new(block_size: u32, block_signature: u32, cursor: &mut Cursor) -> (r: Result<
        IconEnvironmentDataBlock,
        ExtraDataError,
    >)
        ensures
            final(cursor).data@ == old(cursor).data@,
            old(cursor).pos + 780 <= old(cursor).len() ==> {
                &&& r matches Ok(b) && b@ == icon_environment_block_at(
                    old(cursor).data@,
                    block_size,
                    block_signature,
                    old(cursor).pos as int,
                )
                &&& final(cursor).pos == old(cursor).pos + 780
            },
            old(cursor).pos + 780 > old(cursor).len() ==> {
                &&& r == Err::<IconEnvironmentDataBlock, ExtraDataError>(ExtraDataError::Read)
                &&& final(cursor).pos == failed_pos(old(cursor).len(), old(cursor).pos as int)
            },
    {
        let target_ansi = match cursor.read_exact(260) {
            Ok(v) => v,
            Err(_) => return Err(ExtraDataError::Read),
        };
        let target_unicode = match cursor.read_exact(520) {
            Ok(v) => v,
            Err(_) => return Err(ExtraDataError::Read),
        };
        Ok(
            IconEnvironmentDataBlock {
                block_size,
                block_signature,
                target_ansi: Some(target_ansi),
                target_unicode: Some(target_unicode),
            },
        )
    }
}

/// The location of a known folder, so that a link target that is a known
/// folder can be translated when the link is loaded.
#[derive(Clone, Copy, Debug, PartialEq, Eq, Structural)]
pub struct KnownFolderDataBlock {
    /// Declared size of the block; 0x1C for this type.
    pub block_size: u32,
    /// Declared signature of the block; 0xA000000B for this type.
    pub block_signature: u32,
    /// The folder GUID in packet representation.
    pub known_folder_id: u128,
    /// Offset, in bytes, into the link target ID list of the first child
    /// segment of the known folder's ID list.
    pub offset: u32,
}

impl View for KnownFolderDataBlock {
    type V = KnownFolderDataBlock;

    open spec fn view(&self) -> KnownFolderDataBlock {
        *self
    }
}

/// The known folder block whose 20-byte payload starts at `p` of `s`.
pub open spec fn known_folder_block_at(s: Seq<u8>, size: u32, sig: u32, p: int)
    -> KnownFolderDataBlock {
    KnownFolderDataBlock {
        block_size: size,
        block_signature: sig,
        known_folder_id: crate::cursor::le128_at(s, p) as u128,
        offset: le32_at(s, p + 16) as u32,
    }
}

impl KnownFolderDataBlock {
    /// Decodes the block's 20-byte payload from the cursor's position.
    pub(crate) fn new(block_size: u32, block_signature: u32, cursor: &mut Cursor) -> (r: Result<
        KnownFolderDataBlock,
        ExtraDataError,
    >)
        ensures
            final(cursor).data@ == old(cursor).data@,
            old(cursor).pos + 20 <= old(cursor).len() ==> {
                &&& r matches Ok(b) && b@ == known_folder_block_at(
                    old(cursor).data@,
                    block_size,
                    block_signature,
                    old(cursor).pos as int,
                )
                &&& final(cursor).pos == old(cursor).pos + 20
            },
            old(cursor).pos + 20 > old(cursor).len() ==> {
                &&& r == Err::<KnownFolderDataBlock, ExtraDataError>(ExtraDataError::Read)
                &&& final(cursor).pos == failed_pos(old(cursor).len(), old(cursor).pos as int)
            },
    {
        let known_folder_id = match cursor.read_u128() {
            Ok(v) => v,
            Err(_) => return Err(ExtraDataError::Read),
        };
        let offset = match cursor.read_u32() {
            Ok(v) => v,
            Err(_) => return Err(ExtraDataError::Read),
        };
        Ok(KnownFolderDataBlock { block_size, block_signature, known_folder_id, offset })
    }
}

/// A serialized property storage structure, retained as an opaque blob.
#[derive(Clone, Debug)]
pub struct PropertyStoreDataBlock {
    /// Declared size of the block; at least 0x0C for well-formed blocks.
    pub block_size: u32,
    /// Declared signature of the block; 0xA0000009 for this type.
    pub block_signature: u32,
    /// The serialized property storage bytes.
    pub property_store: Vec<u8>,
}

/// Mathematical view of a property store data block.
#[verifier::ext_equal]
pub struct PropertyStoreDataBlockV {
    /// Declared size of the block.
    pub block_size: u32,
    /// Declared signature of the block.
    pub block_signature: u32,
    /// The serialized property storage bytes.
    pub property_store: Seq<u8>,
}

impl View for PropertyStoreDataBlock {
    type V = PropertyStoreDataBlockV;

    open spec fn view(&self) -> PropertyStoreDataBlockV {
        PropertyStoreDataBlockV {
            block_size: self.block_size,
            block_signature: self.block_signature,
            property_store: self.property_store@,
        }
    }
}

/// Payload length of a block whose content is its declared size less the
/// 8-byte tag; a declared size under 8 yields an empty payload.
pub open spec fn sized_payload_len(size: u32) -> int {
    if size >= 8 {
        size - 8
    } else {
        0
    }
}

/// The property store block whose payload of `sized_payload_len(size)` bytes
/// starts at `p` of `s`.
pub open spec fn property_store_block_at(s: Seq<u8>, size: u32, sig: u32, p: int)
    -> PropertyStoreDataBlockV {
    PropertyStoreDataBlockV {
        block_size: size,
        block_signature: sig,
        property_store: s.subrange(p, p + sized_payload_len(size)),
    }
}

impl PropertyStoreDataBlock {
    /// Decodes the block's payload, `block_size - 8` bytes (empty when the
    /// declared size is under 8), from the cursor's position.
    pub(crate) fn new(block_size: u32, block_signature: u32, cursor: &mut Cursor) -> (r: Result<
        PropertyStoreDataBlock,
        ExtraDataError,
    >)
        ensures
            final(cursor).data@ == old(cursor).data@,
            old(cursor).pos <= old(cursor).len() && old(cursor).pos + sized_payload_len(block_size)
                <= old(cursor).len() ==> {
                &&& r matches Ok(b) && b@ == property_store_block_at(
                    old(cursor).data@,
                    block_size,
                    block_signature,
                    old(cursor).pos as int,
                )
                &&& final(cursor).pos == old(cursor).pos + sized_payload_len(block_size)
            },
            sized_payload_len(block_size) == 0 && old(cursor).pos > old(cursor).len() ==> {
                &&& r matches Ok(b) && b@.block_size == block_size && b@.block_signature
                    == block_signature && b@.property_store == Seq::<u8>::empty()
                &&& final(cursor).pos == old(cursor).pos
            },
            sized_payload_len(block_size) > 0 && old(cursor).pos + sized_payload_len(block_size)
                > old(cursor).len() ==> {
                &&& r == Err::<PropertyStoreDataBlock, ExtraDataError>(ExtraDataError::Read)
                &&& final(cursor).pos == failed_pos(old(cursor).len(), old(cursor).pos as int)
            },
    {
        let store_size: usize = if block_size >= 8 {
            (block_size - 8) as usize
        } else {
            0
        };
        let property_store = match cursor.read_exact(store_size) {
            Ok(v) => v,
            Err(_) => return Err(ExtraDataError::Read),
        };
        proof {
            if store_size == 0 && old(cursor).pos <= old(cursor).len() {
                assert(property_store@ =~= old(cursor).data@.subrange(
                    old(cursor).pos as int,
                    old(cursor).pos as int,
                ));
            }
        }
        Ok(PropertyStoreDataBlock { block_size, block_signature, property_store })
    }
}

/// The name of a shim layer to apply when activating the link target.
#[derive(Clone, Debug)]
pub struct ShimDataBlock {
    /// Declared size of the block; at least 0x88 for well-formed blocks.
    pub block_size: u32,
    /// Declared signature of the block; 0xA0000008 for this type.
    pub block_signature: u32,
    /// The bytes of the wide shim layer name.
    pub layer_name: Option<Vec<u8>>,
}

/// Mathematical view of a shim data block.
#[verifier::ext_equal]
pub struct ShimDataBlockV {
    /// Declared size of the block.
    pub block_size: u32,
    /// Declared signature of the block.
    pub block_signature: u32,
    /// The bytes of the wide shim layer name.
    pub layer_name: Option<Seq<u8>>,
}

impl View for ShimDataBlock {
    type V = ShimDataBlockV;

    open spec fn view(&self) -> ShimDataBlockV {
        ShimDataBlockV {
            block_size: self.block_size,
            block_signature: self.block_signature,
            layer_name: opt_bytes(self.layer_name),
        }
    }
}

/// The shim block whose payload of `sized_payload_len(size)` bytes starts at
/// `p` of `s`.
pub open spec fn shim_block_at(s: Seq<u8>, size: u32, sig: u32, p: int) -> ShimDataBlockV {
    ShimDataBlockV {
        block_size: size,
        block_signature: sig,
        layer_name: Some(s.subrange(p, p + sized_payload_len(size))),
    }
}

impl ShimDataBlock {
    /// Decodes the block's payload, `block_size - 8` bytes (empty when the
    /// declared size is under 8), from the cursor's position.
    pub(crate) fn new(block_size: u32, block_signature: u32, cursor: &mut Cursor) -> (r: Result<
        ShimDataBlock,
        ExtraDataError,
    >)
        ensures
            final(cursor).data@ == old(cursor).data@,
            old(cursor).pos <= old(cursor).len() && old(cursor).pos + sized_payload_len(block_size)
                <= old(cursor).len() ==> {
                &&& r matches Ok(b) && b@ == shim_block_at(
                    old(cursor).data@,
                    block_size,
                    block_signature,
                    old(cursor).pos as int,
                )
                &&& final(cursor).pos == old(cursor).pos + sized_payload_len(block_size)
            },
            sized_payload_len(block_size) == 0 && old(cursor).pos > old(cursor).len() ==> {
                &&& r matches Ok(b) && b@.block_size == block_size && b@.block_signature
                    == block_signature && b@.layer_name == Some(Seq::<u8>::empty())
                &&& final(cursor).pos == old(cursor).pos
            },
            sized_payload_len(block_size) > 0 && old(cursor).pos + sized_payload_len(block_size)
                > old(cursor).len() ==> {
                &&& r == Err::<ShimDataBlock, ExtraDataError>(ExtraDataError::Read)
                &&& final(cursor).pos == failed_pos(old(cursor).len(), old(cursor).pos as int)
            },
    {
        let layer_name_size: usize = if block_size >= 8 {
            (block_size - 8) as usize
        } else {
            0
        };
        let layer_name = match cursor.read_exact(layer_name_size) {
            Ok(v) => v,
            Err(_) => return Err(ExtraDataError::Read),
        };
        proof {
            if layer_name_size == 0 && old(cursor).pos <= old(cursor).len() {
                assert(layer_name@ =~= old(cursor).data@.subrange(
                    old(cursor).pos as int,
                    old(cursor).pos as int,
                ));
            }
        }
        Ok(ShimDataBlock { block_size, block_signature, layer_name: Some(layer_name) })
    }
}

/// The location of a special folder, so that a link target that is a special
/// folder can be translated when the link is loaded.
#[derive(Clone, Copy, Debug, PartialEq, Eq, Structural)]
pub struct SpecialFolderDataBlock {
    /// Declared size of the block; 0x10 for this type.
    pub block_size: u32,
    /// Declared signature of the block; 0xA0000005 for this type.
    pub block_signature: u32,
    /// The folder integer ID.
    pub special_folder_id: u32,
    /// Offset, in bytes, into the link target ID list of the first child
    /// segment of the special folder's ID list.
    pub offset: u32,
}

impl View for SpecialFolderDataBlock {
    type V = SpecialFolderDataBlock;

    open spec fn view(&self) -> SpecialFolderDataBlock {
        *self
    }
}

/// The special folder block whose 8-byte payload starts at `p` of `s`.
pub open spec fn special_folder_block_at(s: Seq<u8>, size: u32, sig: u32, p: int)
    -> SpecialFolderDataBlock {
    SpecialFolderDataBlock {
        block_size: size,
        block_signature: sig,
        special_folder_id: le32_at(s, p) as u32,
        offset: le32_at(s, p + 4) as u32,
    }
}

impl SpecialFolderDataBlock {
    /// Decodes the block's 8-byte payload from the cursor's position.
    pub(crate) fn new(block_size: u32, block_signature: u32, cursor: &mut Cursor) -> (r: Result<
        SpecialFolderDataBlock,
        ExtraDataError,
    >)
        ensures
            final(cursor).data@ == old(cursor).data@,
            old(cursor).pos + 8 <= old(cursor).len() ==> {
                &&& r matches Ok(b) && b@ == special_folder_block_at(
                    old(cursor).data@,
                    block_size,
                    block_signature,
                    old(cursor).pos as int,
                )
                &&& final(cursor).pos == old(cursor).pos + 8
            },
            old(cursor).pos + 8 > old(cursor).len() ==> {
                &&& r == Err::<SpecialFolderDataBlock, ExtraDataError>(ExtraDataError::Read)
                &&& final(cursor).pos == failed_pos(old(cursor).len(), old(cursor).pos as int)
            },
    {
        let special_folder_id = match cursor.read_u32() {
            Ok(v) => v,
            Err(_) => return Err(ExtraDataError::Read),
        };
        let offset = match cursor.read_u32() {
            Ok(v) => v,
            Err(_) => return Err(ExtraDataError::Read),
        };
        Ok(SpecialFolderDataBlock { block_size, block_signature, special_folder_id, offset })
    }
}

/// Identifiers handed to the link tracking service to resolve a moved link
/// target.
#[derive(Clone, Copy, Debug, PartialEq, Eq)]
pub struct TrackerDataBlock {
    /// Declared size of the block; 0x60 for this type.
    pub block_size: u32,
    /// Declared signature of the block; 0xA0000003 for this type.
    pub block_signature: u32,
    /// Declared size of the rest of the block, including this field.
    pub length: u32,
    /// A version field.
    pub version: u32,
    /// The NetBIOS name of the machine where the target last resided.
    pub machine_id: u128,
    /// Two GUIDs used to find the target with the link tracking service.
    pub droid: [u128; 2],
    /// Two birth GUIDs used to find the target with the link tracking
    /// service.
    pub droid_birth: [u128; 2],
}

/// Mathematical view of a tracker data block: the GUID pairs as sequences.
#[verifier::ext_equal]
pub struct TrackerDataBlockV {
    /// Declared size of the block.
    pub block_size: u32,
    /// Declared signature of the block.
    pub block_signature: u32,
    /// Declared size of the rest of the block, including this field.
    pub length: u32,
    /// A version field.
    pub version: u32,
    /// The NetBIOS name of the machine where the target last resided.
    pub machine_id: u128,
    /// The two tracking GUIDs.
    pub droid: Seq<u128>,
    /// The two birth tracking GUIDs.
    pub droid_birth: Seq<u128>,
}

impl View for TrackerDataBlock {
    type V = TrackerDataBlockV;

    open spec fn view(&self) -> TrackerDataBlockV {
        TrackerDataBlockV {
            block_size: self.block_size,
            block_signature: self.block_signature,
            length: self.length,
            version: self.version,
            machine_id: self.machine_id,
            droid: self.droid@,
            droid_birth: self.droid_birth@,
        }
    }
}

/// The tracker block whose 88-byte payload starts at `p` of `s`.
pub open spec fn tracker_block_at(s: Seq<u8>, size: u32, sig: u32, p: int) -> TrackerDataBlockV {
    TrackerDataBlockV {
        block_size: size,
        block_signature: sig,
        length: le32_at(s, p) as u32,
        version: le32_at(s, p + 4) as u32,
        machine_id: crate::cursor::le128_at(s, p + 8) as u128,
        droid: seq![
            crate::cursor::le128_at(s, p + 24) as u128,
            crate::cursor::le128_at(s, p + 40) as u128,
        ],
        droid_birth: seq![
            crate::cursor::le128_at(s, p + 56) as u128,
            crate::cursor::le128_at(s, p + 72) as u128,
        ],
    }
}

impl TrackerDataBlock {
    /// Decodes the block's 88-byte payload from the cursor's position.
    pub(crate) fn new(block_size: u32, block_signature: u32, cursor: &mut Cursor) -> (r: Result<
        TrackerDataBlock,
        ExtraDataError,
    >)
        ensures
            final(cursor).data@ == old(cursor).data@,
            old(cursor).pos + 88 <= old(cursor).len() ==> {
                &&& r matches Ok(b) && b@ == tracker_block_at(
                    old(cursor).data@,
                    block_size,
                    block_signature,
                    old(cursor).pos as int,
                )
                &&& final(cursor).pos == old(cursor).pos + 88
            },
            old(cursor).pos + 88 > old(cursor).len() ==> {
                &&& r == Err::<TrackerDataBlock, ExtraDataError>(ExtraDataError::Read)
                &&& final(cursor).pos == failed_pos(old(cursor).len(), old(cursor).pos as int)
            },
    {
        let length = match cursor.read_u32() {
            Ok(v) => v,
            Err(_) => return Err(ExtraDataError::Read),
        };
        let version = match cursor.read_u32() {
            Ok(v) => v,
            Err(_) => return Err(ExtraDataError::Read),
        };
        let machine_id = match cursor.read_u128() {
            Ok(v) => v,
            Err(_) => return Err(ExtraDataError::Read),
        };
        let droid_0 = match cursor.read_u128() {
            Ok(v) => v,
            Err(_) => return Err(ExtraDataError::Read),
        };
        let droid_1 = match cursor.read_u128() {
            Ok(v) => v,
            Err(_) => return Err(ExtraDataError::Read),
        };
        let droid_birth_0 = match cursor.read_u128() {
            Ok(v) => v,
            Err(_) => return Err(ExtraDataError::Read),
        };
        let droid_birth_1 = match cursor.read_u128() {
            Ok(v) => v,
            Err(_) => return Err(ExtraDataError::Read),
        };
        let tdb = TrackerDataBlock {
            block_size,
            block_signature,
            length,
            version,
            machine_id,
            droid: [droid_0, droid_1],
            droid_birth: [droid_birth_0, droid_birth_1],
        };
        proof {
            if old(cursor).pos + 88 <= old(cursor).len() {
                assert(tdb.droid@ =~= seq![droid_0, droid_1]);
                assert(tdb.droid_birth@ =~= seq![droid_birth_0, droid_birth_1]);
                assert(tdb@ =~= tracker_block_at(
                    old(cursor).data@,
                    block_size,
                    block_signature,
                    old(cursor).pos as int,
                ));
            }
        }
        Ok(tdb)
    }
}

/// An alternate ID list usable instead of the link target ID list on
/// platforms that support it.
#[derive(Clone, Debug)]
pub struct VistaAndAboveIDListDataBlock {
    /// Declared size of the block; at least 0x0A for well-formed blocks.
    pub block_size: u32,
    /// Declared signature of the block; 0xA000000C for this type.
    pub block_signature: u32,
    /// The alternate ID list bytes.
    pub id_list: Vec<u8>,
}

/// Mathematical view of an alternate ID list data block.
#[verifier::ext_equal]
pub struct VistaAndAboveIDListDataBlockV {
    /// Declared size of the block.
    pub block_size: u32,
    /// Declared signature of the block.
    pub block_signature: u32,
    /// The alternate ID list bytes.
    pub id_list: Seq<u8>,
}

impl View for VistaAndAboveIDListDataBlock {
    type V = VistaAndAboveIDListDataBlockV;

    open spec fn view(&self) -> VistaAndAboveIDListDataBlockV {
        VistaAndAboveIDListDataBlockV {
            block_size: self.block_size,
            block_signature: self.block_signature,
            id_list: self.id_list@,
        }
    }
}

/// The alternate ID list block whose payload of `sized_payload_len(size)`
/// bytes starts at `p` of `s`.
pub open spec fn vista_id_list_block_at(s: Seq<u8>, size: u32, sig: u32, p: int)
    -> VistaAndAboveIDListDataBlockV {
    VistaAndAboveIDListDataBlockV {
        block_size: size,
        block_signature: sig,
        id_list: s.subrange(p, p + sized_payload_len(size)),
    }
}

impl VistaAndAboveIDListDataBlock {
    /// Decodes the block's payload, `block_size - 8` bytes (empty when the
    /// declared size is under 8), from the cursor's position.
    pub(crate) fn new(block_size: u32, block_signature: u32, cursor: &mut Cursor) -> (r: Result<
        VistaAndAboveIDListDataBlock,
        ExtraDataError,
    >)
        ensures
            final(cursor).data@ == old(cursor).data@,
            old(cursor).pos <= old(cursor).len() && old(cursor).pos + sized_payload_len(block_size)
                <= old(cursor).len() ==> {
                &&& r matches Ok(b) && b@ == vista_id_list_block_at(
                    old(cursor).data@,
                    block_size,
                    block_signature,
                    old(cursor).pos as int,
                )
                &&& final(cursor).pos == old(cursor).pos + sized_payload_len(block_size)
            },
            sized_payload_len(block_size) == 0 && old(cursor).pos > old(cursor).len() ==> {
                &&& r matches Ok(b) && b@.block_size == block_size && b@.block_signature
                    == block_signature && b@.id_list == Seq::<u8>::empty()
                &&& final(cursor).pos == old(cursor).pos
            },
            sized_payload_len(block_size) > 0 && old(cursor).pos + sized_payload_len(block_size)
                > old(cursor).len() ==> {
                &&& r == Err::<VistaAndAboveIDListDataBlock, ExtraDataError>(ExtraDataError::Read)
                &&& final(cursor).pos == failed_pos(old(cursor).len(), old(cursor).pos as int)
            },
    {
        let id_list_size: usize = if block_size >= 8 {
            (block_size - 8) as usize
        } else {
            0
        };
        let id_list = match cursor.read_exact(id_list_size) {
            Ok(v) => v,
            Err(_) => return Err(ExtraDataError::Read),
        };
        proof {
            if id_list_size == 0 && old(cursor).pos <= old(cursor).len() {
                assert(id_list@ =~= old(cursor).data@.subrange(
                    old(cursor).pos as int,
                    old(cursor).pos as int,
                ));
            }
        }
        Ok(VistaAndAboveIDListDataBlock { block_size, block_signature, id_list })
    }
}

} // verus!
