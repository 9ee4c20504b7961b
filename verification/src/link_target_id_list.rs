//! The link target ID list section: a length-prefixed, deliberately opaque
//! blob. Its internal shell-namespace encoding is outside this decoder's
//! scope, so only its declared length is honoured; the cursor is advanced
//! past the contents and their byte range is kept as the extension point for
//! a dedicated decoder.

use crate::cursor::{buf_len_ok, failed_pos, le16_at, Cursor};
use crate::error::LinkTargetIdListError;
use crate::header::{flag_set, ShellLinkHeader, HAS_LINK_TARGET_ID_LIST};
use vstd::prelude::*;

verus! {

/// The absolute byte range of a skipped ID list's contents.
#[derive(Clone, Copy, Debug, PartialEq, Eq, Structural)]
pub struct IdListRange {
    /// Absolute position of the first content byte, just after the length
    /// prefix.
    pub start: u64,
    /// The declared length of the contents, in bytes.
    pub len: u16,
}

/// A decoded (skipped) link target ID list section.
#[derive(Clone, Copy, Debug, PartialEq, Eq, Structural)]
pub struct LinkTargetIdList {
    /// The byte range of the skipped contents; absent when the section
    /// itself is absent. The range may run past the end of a truncated
    /// buffer: it restates the declared length, which is not validated.
    pub contents: Option<IdListRange>,
}

/// Cursor position after the section: past the 16-bit length prefix and the
/// declared number of content bytes.
pub open spec fn id_list_end(s: Seq<u8>, pos: int) -> int {
    pos + 2 + le16_at(s, pos)
}

/// The record of an ID list whose length prefix stands at `pos` of `s`.
pub open spec fn id_list_at(s: Seq<u8>, pos: int) -> LinkTargetIdList {
    LinkTargetIdList {
        contents: Some(IdListRange { start: (pos + 2) as u64, len: le16_at(s, pos) as u16 }),
    }
}

/// The record standing for an absent ID list section.
pub open spec fn id_list_absent() -> LinkTargetIdList {
    LinkTargetIdList { contents: None }
}

impl LinkTargetIdList {
    /// Skips the link target ID list when the header says one is present:
    /// reads its 16-bit length and advances the cursor by that many bytes
    /// without retaining them, keeping only their range. A no-op when the
    /// presence bit is clear. Fails exactly when the bit is set and the
    /// length prefix cannot be read.
    pub fn new(cursor: &mut Cursor, header: &ShellLinkHeader) -> (r: Result<
        LinkTargetIdList,
        LinkTargetIdListError,
    >)
        requires
            buf_len_ok(old(cursor).data@),
        ensures
            final(cursor).data@ == old(cursor).data@,
            !flag_set(header.link_flags.bits, HAS_LINK_TARGET_ID_LIST) ==> {
                &&& r == Ok::<LinkTargetIdList, LinkTargetIdListError>(id_list_absent())
                &&& final(cursor).pos == old(cursor).pos
            },
            flag_set(header.link_flags.bits, HAS_LINK_TARGET_ID_LIST) && old(cursor).pos + 2 <= old(
                cursor,
            ).len() ==> {
                &&& r == Ok::<LinkTargetIdList, LinkTargetIdListError>(
                    id_list_at(old(cursor).data@, old(cursor).pos as int),
                )
                &&& final(cursor).pos == id_list_end(old(cursor).data@, old(cursor).pos as int)
            },
            flag_set(header.link_flags.bits, HAS_LINK_TARGET_ID_LIST) && old(cursor).pos + 2 > old(
                cursor,
            ).len() ==> {
                &&& r == Err::<LinkTargetIdList, LinkTargetIdListError>(LinkTargetIdListError::Read)
                &&& final(cursor).pos == failed_pos(old(cursor).len(), old(cursor).pos as int)
            },
    {
        if header.link_flags.contains(HAS_LINK_TARGET_ID_LIST) {
            let id_list_size = match cursor.read_u16() {
                Ok(v) => v,
                Err(_) => return Err(LinkTargetIdListError::Read),
            };
            let current = cursor.position();
            cursor.set_position(current + id_list_size as u64);
            Ok(LinkTargetIdList { contents: Some(IdListRange { start: current, len: id_list_size }) })
        } else {
            Ok(LinkTargetIdList { contents: None })
        }
    }
}

} // verus!
