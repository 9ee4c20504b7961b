//! Decoder for the Windows Shell Link (`.lnk`) binary file format.
//!
//! The decoder consumes a fully buffered byte sequence and produces a
//! structured record: a fixed header, an optional link target ID list, an
//! optional link info section, up to five optional strings, and a stream of
//! tagged extra data blocks, decoded in that fixed order over one cursor.
//! Every decoding function is specified against a mathematical model of the
//! byte format, so the same input always yields the same output or the same
//! error.

pub mod blocks;
pub mod cursor;
pub mod error;
pub mod extra_data;
pub mod header;
pub mod link_info;
pub mod link_target_id_list;
pub mod string_data;
pub mod text;

use crate::cursor::{buf_len_ok, Cursor};
use crate::error::{Error, HeaderError, LinkInfoError, LinkTargetIdListError};
use crate::extra_data::{extra_data_empty, extra_data_model, ExtraData, ExtraDataV};
use crate::header::{flag_set, header_at, ShellLinkHeader, HAS_LINK_INFO, HAS_LINK_TARGET_ID_LIST};
use crate::link_info::{link_info_absent, link_info_model, LinkInfo, LinkInfoOutcome, LinkInfoV};
use crate::link_target_id_list::{id_list_absent, id_list_at, id_list_end, LinkTargetIdList};
use crate::string_data::{string_data_model, StringData, StringDataOutcome, StringDataV};
use crate::text::opt_chars;
use vstd::prelude::*;

verus! {

/// A decoded `.lnk` file: the header and the four optional sections that
/// follow it.
#[derive(Clone, Debug)]
pub struct Lnk {
    /// The path the buffer was read from, kept only for diagnostic display.
    /// Decoding never sets or reads it; a caller that read the buffer from a
    /// file may fill it in.
    pub path: Option<String>,
    /// The fixed header: identification, timestamps, and the flags saying
    /// which optional sections are present.
    pub header: ShellLinkHeader,
    /// The optional user-interface and path strings.
    pub string_data: StringData,
    /// The skipped link target ID list.
    pub link_target_id_list: LinkTargetIdList,
    /// The link info section for resolving a moved target.
    pub link_info: LinkInfo,
    /// The tagged extra data blocks appended after the core sections.
    pub extra_data: ExtraData,
}

/// Mathematical view of a decoded link.
#[verifier::ext_equal]
pub struct LnkV {
    /// The path the buffer was read from, kept only for diagnostic display.
    pub path: Option<Seq<char>>,
    /// The fixed header.
    pub header: ShellLinkHeader,
    /// The optional strings.
    pub string_data: StringDataV,
    /// The skipped link target ID list.
    pub link_target_id_list: LinkTargetIdList,
    /// The link info section.
    pub link_info: LinkInfoV,
    /// The extra data blocks.
    pub extra_data: ExtraDataV,
}

impl View for Lnk {
    type V = LnkV;

    open spec fn view(&self) -> LnkV {
        LnkV {
            path: opt_chars(self.path),
            header: self.header,
            string_data: self.string_data@,
            link_target_id_list: self.link_target_id_list,
            link_info: self.link_info@,
            extra_data: self.extra_data@,
        }
    }
}

/// The sections after the link info, given the header `h`, the decoded ID
/// list `idl` and link info `li`, and the position `pos` where string data
/// starts.
pub open spec fn lnk_model_rest(
    s: Seq<u8>,
    h: ShellLinkHeader,
    idl: LinkTargetIdList,
    li: LinkInfoV,
    pos: int,
) -> Result<LnkV, Error> {
    match string_data_model(s, pos, h.link_flags.bits) {
        StringDataOutcome::Failed { err, end } => Err(Error::StringDataError(err)),
        StringDataOutcome::Decoded { sd, end } => {
            let ed = extra_data_model(s, end, extra_data_empty());
            Ok(
                LnkV {
                    path: None,
                    header: h,
                    string_data: sd,
                    link_target_id_list: idl,
                    link_info: li,
                    extra_data: ed.0,
                },
            )
        },
    }
}

/// Decoding a complete `.lnk` buffer: the fixed 76-byte header, then the ID
/// list, link info, string data and extra data sections in that order, each
/// present exactly when its header flag says so.
pub open spec fn lnk_model(s: Seq<u8>) -> Result<LnkV, Error> {
    if s.len() < 76 {
        Err(Error::HeaderError(HeaderError::Read))
    } else {
        let h = header_at(s, 0);
        let has_id_list = flag_set(h.link_flags.bits, HAS_LINK_TARGET_ID_LIST);
        if has_id_list && 76 + 2 > s.len() {
            Err(Error::LinkTargetIdListError(LinkTargetIdListError::Read))
        } else {
            let p = if has_id_list {
                id_list_end(s, 76)
            } else {
                76
            };
            let idl = if has_id_list {
                id_list_at(s, 76)
            } else {
                id_list_absent()
            };
            if flag_set(h.link_flags.bits, HAS_LINK_INFO) {
                match link_info_model(s, p) {
                    LinkInfoOutcome::Failed { end } => Err(Error::LinkInfoError(LinkInfoError::Read)),
                    LinkInfoOutcome::Decoded { info, end } => lnk_model_rest(s, h, idl, info, end),
                }
            } else {
                lnk_model_rest(s, h, idl, link_info_absent(), p)
            }
        }
    }
}

impl Lnk {
    /// Decodes a `.lnk` file from its complete byte contents. The result is
    /// a pure function of the bytes: any buffer shorter than the 76-byte
    /// header fails with a header read error and yields no partial record,
    /// and every other outcome follows the model of the five sections in
    /// their fixed order.
    pub fn new(data: Vec<u8>) -> (r: Result<Lnk, Error>)
        requires
            buf_len_ok(data@),
        ensures
            match lnk_model(data@) {
                Ok(v) => r matches Ok(l) && l@ == v,
                Err(e) => r == Err::<Lnk, Error>(e),
            },
            data@.len() < 76 ==> r == Err::<Lnk, Error>(Error::HeaderError(HeaderError::Read)),
    {
        let mut cursor = Cursor::new(data);
        let header = match ShellLinkHeader::decode(&mut cursor) {
            Ok(h) => h,
            Err(e) => return Err(Error::HeaderError(e)),
        };
        let link_target_id_list = match LinkTargetIdList::new(&mut cursor, &header) {
            Ok(l) => l,
            Err(e) => return Err(Error::LinkTargetIdListError(e)),
        };
        let link_info = match LinkInfo::new(&mut cursor, &header) {
            Ok(l) => l,
            Err(e) => return Err(Error::LinkInfoError(e)),
        };
        let string_data = match StringData::new(&mut cursor, &header) {
            Ok(sd) => sd,
            Err(e) => return Err(Error::StringDataError(e)),
        };
        let extra_data = ExtraData::new(&mut cursor, &header);
        Ok(Lnk { path: None, header, string_data, link_target_id_list, link_info, extra_data })
    }

    /// The command line arguments supplied via the link.
    pub fn arguments(&self) -> (r: Option<String>)
        ensures
            opt_chars(r) == self.string_data@.command_line_arguments,
    {
        match &self.string_data.command_line_arguments {
            Some(s) => Some(s.clone()),
            None => None,
        }
    }

    /// The relative path to the resource of the link.
    pub fn relative_path(&self) -> (r: Option<String>)
        ensures
            opt_chars(r) == self.string_data@.relative_path,
    {
        match &self.string_data.relative_path {
            Some(s) => Some(s.clone()),
            None => None,
        }
    }

    /// The working directory of the link.
    pub fn working_dir(&self) -> (r: Option<String>)
        ensures
            opt_chars(r) == self.string_data@.working_dir,
    {
        match &self.string_data.working_dir {
            Some(s) => Some(s.clone()),
            None => None,
        }
    }

    /// The description of the link.
    pub fn description(&self) -> (r: Option<String>)
        ensures
            opt_chars(r) == self.string_data@.name_string,
    {
        match &self.string_data.name_string {
            Some(s) => Some(s.clone()),
            None => None,
        }
    }

    /// The creation time of the target, in raw ticks.
    pub fn creation_time(&self) -> (r: u64)
        ensures
            r == self.header.creation_time,
    {
        self.header.creation_time
    }

    /// The access time of the target, in raw ticks.
    pub fn access_time(&self) -> (r: u64)
        ensures
            r == self.header.access_time,
    {
        self.header.access_time
    }

    /// The write time of the target, in raw ticks.
    pub fn write_time(&self) -> (r: u64)
        ensures
            r == self.header.write_time,
    {
        self.header.write_time
    }
}

} // verus!
