//! The string data section: up to five independently flagged strings, each
//! stored as a 16-bit character count followed by the character data, whose
//! width (1 or 2 bytes) is fixed file-wide by the header's unicode flag.
//!
//! Every flagged string is mandatory: a read failure or invalid text in any
//! of the five fields aborts the whole decode.

use crate::cursor::{failed_pos, le16_at, Cursor};
use crate::error::StringDataError;
use crate::header::{
    flag_set, ShellLinkHeader, HAS_ARGUMENTS, HAS_ICON_LOCATION, HAS_NAME, HAS_RELATIVE_PATH,
    HAS_WORKING_DIR, IS_UNICODE,
};
use crate::text::{
    ansi_text, bytes_of_units, encode_utf16, lemma_units_of_bytes_of_units,
    lemma_utf16_round_trip, opt_chars, spec_ansi_text, spec_wide_text, wide_text,
};
use vstd::prelude::*;

verus! {

/// The five optional user-interface and path strings of a link.
#[derive(Clone, Debug)]
pub struct StringData {
    /// Description supplied by the link's creator.
    pub name_string: Option<String>,
    /// Relative path from the link to the resource.
    pub relative_path: Option<String>,
    /// Working directory to use when launching the resource.
    pub working_dir: Option<String>,
    /// Arguments to be passed to the resource.
    pub command_line_arguments: Option<String>,
    /// Icon location displayed for the link.
    pub icon_location: Option<String>,
}

/// Mathematical view of a string data record.
#[verifier::ext_equal]
pub struct StringDataV {
    /// Description supplied by the link's creator.
    pub name_string: Option<Seq<char>>,
    /// Relative path from the link to the resource.
    pub relative_path: Option<Seq<char>>,
    /// Working directory to use when launching the resource.
    pub working_dir: Option<Seq<char>>,
    /// Arguments to be passed to the resource.
    pub command_line_arguments: Option<Seq<char>>,
    /// Icon location displayed for the link.
    pub icon_location: Option<Seq<char>>,
}

impl View for StringData {
    type V = StringDataV;

    open spec fn view(&self) -> StringDataV {
        StringDataV {
            name_string: opt_chars(self.name_string),
            relative_path: opt_chars(self.relative_path),
            working_dir: opt_chars(self.working_dir),
            command_line_arguments: opt_chars(self.command_line_arguments),
            icon_location: opt_chars(self.icon_location),
        }
    }
}

/// Outcome of decoding one length-prefixed string entry.
pub enum EntryOutcome {
    /// Fewer bytes remained than the prefix or the declared count requires.
    TooShort {
        /// Cursor position after the failed read.
        end: int,
    },
    /// The bytes were read but are not valid text in the declared encoding.
    BadText {
        /// Cursor position after the entry.
        end: int,
    },
    /// The entry decoded to a string.
    Got {
        /// The decoded characters.
        text: Seq<char>,
        /// Cursor position after the entry.
        end: int,
    },
}

/// Decoding one string entry at `pos`: a 16-bit character count, then that
/// many characters of 1 or 2 bytes each according to `wide`.
pub open spec fn entry_model(s: Seq<u8>, pos: int, wide: bool) -> EntryOutcome {
    if pos < 0 || pos + 2 > s.len() {
        EntryOutcome::TooShort { end: failed_pos(s.len() as int, pos) }
    } else {
        let count = le16_at(s, pos);
        let byte_len = if wide {
            2 * count
        } else {
            count
        };
        if pos + 2 + byte_len > s.len() {
            EntryOutcome::TooShort { end: s.len() as int }
        } else {
            let bytes = s.subrange(pos + 2, pos + 2 + byte_len);
            let decoded = if wide {
                spec_wide_text(bytes)
            } else {
                spec_ansi_text(bytes)
            };
            match decoded {
                Some(text) => EntryOutcome::Got { text, end: pos + 2 + byte_len },
                None => EntryOutcome::BadText { end: pos + 2 + byte_len },
            }
        }
    }
}

/// One field's contribution to the record: its text when present, the
/// position after it, and the error when the field was mandatory and failed.
pub struct FieldStep {
    /// The decoded text, when present.
    pub text: Option<Seq<char>>,
    /// Cursor position after the field.
    pub end: int,
    /// The fatal error, for a mandatory field that failed.
    pub fail: Option<StringDataError>,
}

/// A mandatory field: absent when unflagged; once flagged, a short read is a
/// read error and invalid text a conversion error, both fatal.
pub open spec fn strict_field(s: Seq<u8>, pos: int, flagged: bool, wide: bool) -> FieldStep {
    if !flagged {
        FieldStep { text: None, end: pos, fail: None }
    } else {
        match entry_model(s, pos, wide) {
            EntryOutcome::TooShort { end } => FieldStep {
                text: None,
                end,
                fail: Some(StringDataError::Read),
            },
            EntryOutcome::BadText { end } => FieldStep {
                text: None,
                end,
                fail: Some(
                    if wide {
                        StringDataError::WideStringConversion
                    } else {
                        StringDataError::StringConversion
                    },
                ),
            },
            EntryOutcome::Got { text, end } => FieldStep { text: Some(text), end, fail: None },
        }
    }
}

/// Outcome of decoding the whole string data section.
pub enum StringDataOutcome {
    /// A mandatory field failed.
    Failed {
        /// The error of the failing field.
        err: StringDataError,
        /// Cursor position after the failing field.
        end: int,
    },
    /// All flagged fields were handled.
    Decoded {
        /// The decoded record.
        sd: StringDataV,
        /// Cursor position after the last flagged field.
        end: int,
    },
}

/// Decoding the string data section at `pos` under the link flag bits: the
/// five fields in fixed order, each mandatory once flagged.
pub open spec fn string_data_model(s: Seq<u8>, pos: int, bits: u32) -> StringDataOutcome {
    let wide = flag_set(bits, IS_UNICODE);
    let f1 = strict_field(s, pos, flag_set(bits, HAS_NAME), wide);
    if f1.fail is Some {
        StringDataOutcome::Failed { err: f1.fail.unwrap(), end: f1.end }
    } else {
        let f2 = strict_field(s, f1.end, flag_set(bits, HAS_RELATIVE_PATH), wide);
        if f2.fail is Some {
            StringDataOutcome::Failed { err: f2.fail.unwrap(), end: f2.end }
        } else {
            let f3 = strict_field(s, f2.end, flag_set(bits, HAS_WORKING_DIR), wide);
            if f3.fail is Some {
                StringDataOutcome::Failed { err: f3.fail.unwrap(), end: f3.end }
            } else {
                let f4 = strict_field(s, f3.end, flag_set(bits, HAS_ARGUMENTS), wide);
                if f4.fail is Some {
                    StringDataOutcome::Failed { err: f4.fail.unwrap(), end: f4.end }
                } else {
                    let f5 = strict_field(s, f4.end, flag_set(bits, HAS_ICON_LOCATION), wide);
                    if f5.fail is Some {
                        StringDataOutcome::Failed { err: f5.fail.unwrap(), end: f5.end }
                    } else {
                        StringDataOutcome::Decoded {
                            sd: StringDataV {
                                name_string: f1.text,
                                relative_path: f2.text,
                                working_dir: f3.text,
                                command_line_arguments: f4.text,
                                icon_location: f5.text,
                            },
                            end: f5.end,
                        }
                    }
                }
            }
        }
    }
}

impl StringData {
    /// Decodes one length-prefixed string from the cursor's position: a
    /// 16-bit character count, then that many 1- or 2-byte characters
    /// according to `unicode`, decoded as narrow or wide text.
    fn parse_string(cursor: &mut Cursor, unicode: bool) -> (r: Result<String, StringDataError>)
        ensures
            final(cursor).data@ == old(cursor).data@,
            match entry_model(old(cursor).data@, old(cursor).pos as int, unicode) {
                EntryOutcome::Got { text, end } => {
                    &&& r matches Ok(t) && t@ == text
                    &&& final(cursor).pos == end
                },
                EntryOutcome::BadText { end } => {
                    &&& r == Err::<String, StringDataError>(
                        if unicode {
                            StringDataError::WideStringConversion
                        } else {
                            StringDataError::StringConversion
                        },
                    )
                    &&& final(cursor).pos == end
                },
                EntryOutcome::TooShort { end } => {
                    &&& r == Err::<String, StringDataError>(StringDataError::Read)
                    &&& final(cursor).pos == end
                },
            },
    {
        let count = match cursor.read_u16() {
            Ok(v) => v,
            Err(_) => return Err(StringDataError::Read),
        };
        let byte_len: usize = if unicode {
            2 * count as usize
        } else {
            count as usize
        };
        let bytes = match cursor.read_exact(byte_len) {
            Ok(b) => b,
            Err(_) => return Err(StringDataError::Read),
        };
        proof {
            if byte_len == 0 {
                assert(bytes@ =~= old(cursor).data@.subrange(
                    old(cursor).pos + 2,
                    old(cursor).pos + 2,
                ));
            }
        }
        if unicode {
            match wide_text(&bytes) {
                Some(t) => Ok(t),
                None => Err(StringDataError::WideStringConversion),
            }
        } else {
            match ansi_text(bytes) {
                Some(t) => Ok(t),
                None => Err(StringDataError::StringConversion),
            }
        }
    }

    /// Decodes one mandatory field: absent when unflagged; once flagged, any
    /// failure of the entry is returned as the field's error.
    fn strict_parse(cursor: &mut Cursor, flagged: bool, wide: bool) -> (r: Result<
        Option<String>,
        StringDataError,
    >)
        ensures
            final(cursor).data@ == old(cursor).data@,
            ({
                let f = strict_field(old(cursor).data@, old(cursor).pos as int, flagged, wide);
                match r {
                    Ok(o) => f.fail is None && opt_chars(o) == f.text && final(cursor).pos
                        == f.end,
                    Err(e) => f.fail == Some(e) && final(cursor).pos == f.end,
                }
            }),
    {
        if flagged {
            match Self::parse_string(cursor, wide) {
                Ok(t) => Ok(Some(t)),
                Err(e) => Err(e),
            }
        } else {
            Ok(None)
        }
    }

    /// Decodes the string data section from the cursor's position: each of
    /// the five fields in fixed order, present exactly when its flag bit is
    /// set. A failure of any flagged field aborts with its error.
    pub fn new(cursor: &mut Cursor, header: &ShellLinkHeader) -> (r: Result<
        StringData,
        StringDataError,
    >)
        ensures
            final(cursor).data@ == old(cursor).data@,
            match string_data_model(
                old(cursor).data@,
                old(cursor).pos as int,
                header.link_flags.bits,
            ) {
                StringDataOutcome::Decoded { sd, end } => {
                    &&& r matches Ok(v) && v@ == sd
                    &&& final(cursor).pos == end
                },
                StringDataOutcome::Failed { err, end } => {
                    &&& r == Err::<StringData, StringDataError>(err)
                    &&& final(cursor).pos == end
                },
            },
    {
        let unicode = header.link_flags.contains(IS_UNICODE);
        let name_string = match Self::strict_parse(
            cursor,
            header.link_flags.contains(HAS_NAME),
            unicode,
        ) {
            Ok(o) => o,
            Err(e) => return Err(e),
        };
        let relative_path = match Self::strict_parse(
            cursor,
            header.link_flags.contains(HAS_RELATIVE_PATH),
            unicode,
        ) {
            Ok(o) => o,
            Err(e) => return Err(e),
        };
        let working_dir = match Self::strict_parse(
            cursor,
            header.link_flags.contains(HAS_WORKING_DIR),
            unicode,
        ) {
            Ok(o) => o,
            Err(e) => return Err(e),
        };
        let command_line_arguments = match Self::strict_parse(
            cursor,
            header.link_flags.contains(HAS_ARGUMENTS),
            unicode,
        ) {
            Ok(o) => o,
            Err(e) => return Err(e),
        };
        let icon_location = match Self::strict_parse(
            cursor,
            header.link_flags.contains(HAS_ICON_LOCATION),
            unicode,
        ) {
            Ok(o) => o,
            Err(e) => return Err(e),
        };
        let this = StringData {
            name_string,
            relative_path,
            working_dir,
            command_line_arguments,
            icon_location,
        };
        proof {
            match string_data_model(
                old(cursor).data@,
                old(cursor).pos as int,
                header.link_flags.bits,
            ) {
                StringDataOutcome::Decoded { sd, end } => {
                    assert(this@ =~= sd);
                },
                StringDataOutcome::Failed { err, end } => {},
            }
        }
        Ok(this)
    }
}

/// The length-prefixed encoding of `text`: a 16-bit little-endian character
/// count, then the text's bytes in the encoding chosen by `wide`.
pub open spec fn encode_string_entry(text: Seq<char>, wide: bool) -> Seq<u8> {
    if wide {
        let units = encode_utf16(text);
        seq![(units.len() % 0x100) as u8, (units.len() / 0x100) as u8] + bytes_of_units(units)
    } else {
        let bytes = vstd::utf8::encode_utf8(text);
        seq![(bytes.len() % 0x100) as u8, (bytes.len() / 0x100) as u8] + bytes
    }
}

/// When the name flag is clear, the decoded name field is absent, whatever
/// the input bytes hold.
pub proof fn lemma_name_absent_when_flag_clear(s: Seq<u8>, pos: int, bits: u32)
    requires
        !flag_set(bits, HAS_NAME),
    ensures
        match string_data_model(s, pos, bits) {
            StringDataOutcome::Decoded { sd, end } => sd.name_string is None,
            StringDataOutcome::Failed { err, end } => true,
        },
{
}

/// The length-prefix/encoding scheme round-trips: encoding any string whose
/// encoded length fits the 16-bit count field and decoding it again yields
/// back exactly that string, in both the narrow and the wide encoding.
pub proof fn lemma_string_entry_round_trip(text: Seq<char>, wide: bool)
    requires
        wide ==> encode_utf16(text).len() < 0x1_0000,
        !wide ==> vstd::utf8::encode_utf8(text).len() < 0x1_0000,
    ensures
        entry_model(encode_string_entry(text, wide), 0, wide) == (EntryOutcome::Got {
            text,
            end: encode_string_entry(text, wide).len() as int,
        }),
{
    let enc = encode_string_entry(text, wide);
    if wide {
        let units = encode_utf16(text);
        let n = units.len() as int;
        vstd::arithmetic::div_mod::lemma_fundamental_div_mod(n, 0x100);
        assert(le16_at(enc, 0) == n);
        assert(enc.subrange(2, 2 + 2 * n) =~= bytes_of_units(units));
        lemma_units_of_bytes_of_units(units);
        lemma_utf16_round_trip(text);
    } else {
        let bytes = vstd::utf8::encode_utf8(text);
        let n = bytes.len() as int;
        vstd::arithmetic::div_mod::lemma_fundamental_div_mod(n, 0x100);
        assert(le16_at(enc, 0) == n);
        assert(enc.subrange(2, 2 + n) =~= bytes);
        vstd::utf8::encode_utf8_valid_utf8(text);
        vstd::utf8::encode_utf8_decode_utf8(text);
    }
}

/// A record whose flags hold exactly the name bit (and possibly the unicode
/// bit) decodes the encoded name back: flag and string round-trip together.
pub proof fn lemma_name_round_trip(text: Seq<char>, wide: bool)
    requires
        wide ==> encode_utf16(text).len() < 0x1_0000,
        !wide ==> vstd::utf8::encode_utf8(text).len() < 0x1_0000,
    ensures
        ({
            let bits = if wide {
                HAS_NAME | IS_UNICODE
            } else {
                HAS_NAME
            };
            let enc = encode_string_entry(text, wide);
            string_data_model(enc, 0, bits) == (StringDataOutcome::Decoded {
                sd: StringDataV {
                    name_string: Some(text),
                    relative_path: None,
                    working_dir: None,
                    command_line_arguments: None,
                    icon_location: None,
                },
                end: enc.len() as int,
            })
        }),
{
    lemma_string_entry_round_trip(text, wide);
    if wide {
        assert((0x4u32 | 0x80u32) == 0x84u32) by (bit_vector);
        assert(0x84u32 & 0x4u32 == 0x4u32 && 0x84u32 & 0x80u32 == 0x80u32 && 0x84u32 & 0x8u32
            != 0x8u32 && 0x84u32 & 0x10u32 != 0x10u32 && 0x84u32 & 0x20u32 != 0x20u32 && 0x84u32
            & 0x40u32 != 0x40u32) by (bit_vector);
    } else {
        assert(0x4u32 & 0x4u32 == 0x4u32 && 0x4u32 & 0x80u32 != 0x80u32 && 0x4u32 & 0x8u32
            != 0x8u32 && 0x4u32 & 0x10u32 != 0x10u32 && 0x4u32 & 0x20u32 != 0x20u32 && 0x4u32
            & 0x40u32 != 0x40u32) by (bit_vector);
    }
}

} // verus!
