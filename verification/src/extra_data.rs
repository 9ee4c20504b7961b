//! The extra data section: a self-describing sequence of tagged,
//! variable-size blocks read until the tag stream ends or an unrecognized
//! tag is met. Each known (size, signature) tag dispatches to its block
//! decoder; at most one block of each type is retained, a later block of a
//! type replacing an earlier one.
//!
//! The stream's two distinct terminations are both exposed: running out of
//! bytes is an ordinary end of stream, while an unrecognized tag is recorded
//! with its size and signature, so a caller can tell trailing garbage from
//! simple truncation. Neither fails the decode of what came before.

use crate::blocks::{
    console_block_at, console_fe_block_at, darwin_block_at, environment_block_at,
    icon_environment_block_at, known_folder_block_at, opt_view, property_store_block_at,
    shim_block_at, sized_payload_len, special_folder_block_at, tracker_block_at,
    vista_id_list_block_at, ConsoleDataBlock, ConsoleDataBlockV, ConsoleFEDataBlock,
    DarwinDataBlock, DarwinDataBlockV, EnvironmentVariableDataBlock,
    EnvironmentVariableDataBlockV, IconEnvironmentDataBlock, IconEnvironmentDataBlockV,
    KnownFolderDataBlock, PropertyStoreDataBlock, PropertyStoreDataBlockV, ShimDataBlock,
    ShimDataBlockV, SpecialFolderDataBlock, TrackerDataBlock, TrackerDataBlockV,
    VistaAndAboveIDListDataBlock, VistaAndAboveIDListDataBlockV,
};
use crate::cursor::{failed_pos, le32_at, Cursor};
use crate::error::ExtraDataError;
use crate::header::ShellLinkHeader;
use vstd::prelude::*;

verus! {

/// How the extra data tag stream ended.
#[derive(Clone, Copy, Debug, PartialEq, Eq, Structural)]
pub enum ExtraDataEnd {
    /// Too few bytes remained for another block tag or for a recognized
    /// block's payload: the stream's natural end.
    EndOfStream,
    /// A tag matched no known block type; its declared size and signature
    /// are recorded so a caller can tell malformed trailing data from simple
    /// truncation.
    UnknownBlock(u32, u32),
}

/// The optional typed blocks appended after the core sections, at most one
/// of each type, together with how the tag stream ended.
#[derive(Clone, Debug)]
pub struct ExtraData {
    /// An application identifier usable instead of the target ID list.
    pub darwin_props: Option<DarwinDataBlock>,
    /// The location of a special folder.
    pub special_folder_props: Option<SpecialFolderDataBlock>,
    /// Display settings for a console target.
    pub console_props: Option<ConsoleDataBlock>,
    /// The code page for a console target.
    pub console_fe_props: Option<ConsoleFEDataBlock>,
    /// A path built from environment variables.
    pub environment_props: Option<EnvironmentVariableDataBlock>,
    /// An icon path built from environment variables.
    pub icon_environment_props: Option<IconEnvironmentDataBlock>,
    /// The location of a known folder.
    pub known_folder_props: Option<KnownFolderDataBlock>,
    /// A serialized property storage blob.
    pub property_store_props: Option<PropertyStoreDataBlock>,
    /// The name of a shim layer to apply on activation.
    pub shim_props: Option<ShimDataBlock>,
    /// Identifiers for the link tracking service.
    pub tracker_props: Option<TrackerDataBlock>,
    /// An alternate ID list.
    pub vista_and_above_idlist_props: Option<VistaAndAboveIDListDataBlock>,
    /// How the tag stream ended.
    pub trailing: ExtraDataEnd,
}

/// Mathematical view of an extra data record.
#[verifier::ext_equal]
pub struct ExtraDataV {
    /// An application identifier usable instead of the target ID list.
    pub darwin_props: Option<DarwinDataBlockV>,
    /// The location of a special folder.
    pub special_folder_props: Option<SpecialFolderDataBlock>,
    /// Display settings for a console target.
    pub console_props: Option<ConsoleDataBlockV>,
    /// The code page for a console target.
    pub console_fe_props: Option<ConsoleFEDataBlock>,
    /// A path built from environment variables.
    pub environment_props: Option<EnvironmentVariableDataBlockV>,
    /// An icon path built from environment variables.
    pub icon_environment_props: Option<IconEnvironmentDataBlockV>,
    /// The location of a known folder.
    pub known_folder_props: Option<KnownFolderDataBlock>,
    /// A serialized property storage blob.
    pub property_store_props: Option<PropertyStoreDataBlockV>,
    /// The name of a shim layer to apply on activation.
    pub shim_props: Option<ShimDataBlockV>,
    /// Identifiers for the link tracking service.
    pub tracker_props: Option<TrackerDataBlockV>,
    /// An alternate ID list.
    pub vista_and_above_idlist_props: Option<VistaAndAboveIDListDataBlockV>,
    /// How the tag stream ended.
    pub trailing: ExtraDataEnd,
}

impl View for ExtraData {
    type V = ExtraDataV;

    open spec fn view(&self) -> ExtraDataV {
        ExtraDataV {
            darwin_props: opt_view(self.darwin_props),
            special_folder_props: opt_view(self.special_folder_props),
            console_props: opt_view(self.console_props),
            console_fe_props: opt_view(self.console_fe_props),
            environment_props: opt_view(self.environment_props),
            icon_environment_props: opt_view(self.icon_environment_props),
            known_folder_props: opt_view(self.known_folder_props),
            property_store_props: opt_view(self.property_store_props),
            shim_props: opt_view(self.shim_props),
            tracker_props: opt_view(self.tracker_props),
            vista_and_above_idlist_props: opt_view(self.vista_and_above_idlist_props),
            trailing: self.trailing,
        }
    }
}

/// The record before any block has been read: every type absent and the
/// stream, so far, ended ordinarily.
pub open spec fn extra_data_empty() -> ExtraDataV {
    ExtraDataV {
        darwin_props: None,
        special_folder_props: None,
        console_props: None,
        console_fe_props: None,
        environment_props: None,
        icon_environment_props: None,
        known_folder_props: None,
        property_store_props: None,
        shim_props: None,
        tracker_props: None,
        vista_and_above_idlist_props: None,
        trailing: ExtraDataEnd::EndOfStream,
    }
}

/// The eleven known block types.
#[derive(Clone, Copy, Debug, PartialEq, Eq, Structural)]
pub enum BlockKind {
    /// Environment variable data block.
    Environment,
    /// Console data block.
    Console,
    /// Tracker data block.
    Tracker,
    /// Console codepage data block.
    ConsoleFe,
    /// Special folder data block.
    SpecialFolder,
    /// Darwin data block.
    Darwin,
    /// Icon environment data block.
    IconEnvironment,
    /// Shim data block.
    Shim,
    /// Property store data block.
    PropertyStore,
    /// Known folder data block.
    KnownFolder,
    /// Alternate ID list data block.
    VistaIdList,
}

/// The block type owning the (size, signature) tag, or none when the tag is
/// unrecognized.
pub open spec fn block_kind(size: u32, sig: u32) -> Option<BlockKind> {
    if size == 0x0000_0314 && sig == 0xa000_0001 {
        Some(BlockKind::Environment)
    } else if size == 0x0000_00cc && sig == 0xa000_0002 {
        Some(BlockKind::Console)
    } else if size == 0x0000_0060 && sig == 0xa000_0003 {
        Some(BlockKind::Tracker)
    } else if size == 0x0000_000c && sig == 0xa000_0004 {
        Some(BlockKind::ConsoleFe)
    } else if size == 0x0000_0010 && sig == 0xa000_0005 {
        Some(BlockKind::SpecialFolder)
    } else if size == 0x0000_0314 && sig == 0xa000_0006 {
        Some(BlockKind::Darwin)
    } else if size == 0x0000_0314 && sig == 0xa000_0007 {
        Some(BlockKind::IconEnvironment)
    } else if sig == 0xa000_0008 {
        Some(BlockKind::Shim)
    } else if sig == 0xa000_0009 {
        Some(BlockKind::PropertyStore)
    } else if size == 0x0000_001c && sig == 0xa000_000b {
        Some(BlockKind::KnownFolder)
    } else if sig == 0xa000_000c {
        Some(BlockKind::VistaIdList)
    } else {
        None
    }
}

/// The number of payload bytes a block of the given kind reads after its
/// 8-byte tag.
pub open spec fn payload_len(kind: BlockKind, size: u32) -> int {
    match kind {
        BlockKind::Environment => 780,
        BlockKind::Console => 196,
        BlockKind::Tracker => 88,
        BlockKind::ConsoleFe => 4,
        BlockKind::SpecialFolder => 8,
        BlockKind::Darwin => 780,
        BlockKind::IconEnvironment => 780,
        BlockKind::Shim => sized_payload_len(size),
        BlockKind::PropertyStore => sized_payload_len(size),
        BlockKind::KnownFolder => 20,
        BlockKind::VistaIdList => sized_payload_len(size),
    }
}

/// The decoded value of one block, of whichever type.
pub enum BlockVal {
    /// An environment variable data block.
    Environment(EnvironmentVariableDataBlockV),
    /// A console data block.
    Console(ConsoleDataBlockV),
    /// A tracker data block.
    Tracker(TrackerDataBlockV),
    /// A console codepage data block.
    ConsoleFe(ConsoleFEDataBlock),
    /// A special folder data block.
    SpecialFolder(SpecialFolderDataBlock),
    /// A Darwin data block.
    Darwin(DarwinDataBlockV),
    /// An icon environment data block.
    IconEnvironment(IconEnvironmentDataBlockV),
    /// A shim data block.
    Shim(ShimDataBlockV),
    /// A property store data block.
    PropertyStore(PropertyStoreDataBlockV),
    /// A known folder data block.
    KnownFolder(KnownFolderDataBlock),
    /// An alternate ID list data block.
    VistaIdList(VistaAndAboveIDListDataBlockV),
}

/// The type of a decoded block value.
pub open spec fn block_val_kind(v: BlockVal) -> BlockKind {
    match v {
        BlockVal::Environment(_) => BlockKind::Environment,
        BlockVal::Console(_) => BlockKind::Console,
        BlockVal::Tracker(_) => BlockKind::Tracker,
        BlockVal::ConsoleFe(_) => BlockKind::ConsoleFe,
        BlockVal::SpecialFolder(_) => BlockKind::SpecialFolder,
        BlockVal::Darwin(_) => BlockKind::Darwin,
        BlockVal::IconEnvironment(_) => BlockKind::IconEnvironment,
        BlockVal::Shim(_) => BlockKind::Shim,
        BlockVal::PropertyStore(_) => BlockKind::PropertyStore,
        BlockVal::KnownFolder(_) => BlockKind::KnownFolder,
        BlockVal::VistaIdList(_) => BlockKind::VistaIdList,
    }
}

/// The value of the block of the given kind whose payload starts at `p` of
/// `s`, under the tag (`size`, `sig`).
pub open spec fn block_val_at(s: Seq<u8>, kind: BlockKind, size: u32, sig: u32, p: int) -> BlockVal {
    match kind {
        BlockKind::Environment => BlockVal::Environment(environment_block_at(s, size, sig, p)),
        BlockKind::Console => BlockVal::Console(console_block_at(s, size, sig, p)),
        BlockKind::Tracker => BlockVal::Tracker(tracker_block_at(s, size, sig, p)),
        BlockKind::ConsoleFe => BlockVal::ConsoleFe(console_fe_block_at(s, size, sig, p)),
        BlockKind::SpecialFolder => BlockVal::SpecialFolder(
            special_folder_block_at(s, size, sig, p),
        ),
        BlockKind::Darwin => BlockVal::Darwin(darwin_block_at(s, size, sig, p)),
        BlockKind::IconEnvironment => BlockVal::IconEnvironment(
            icon_environment_block_at(s, size, sig, p),
        ),
        BlockKind::Shim => BlockVal::Shim(shim_block_at(s, size, sig, p)),
        BlockKind::PropertyStore => BlockVal::PropertyStore(
            property_store_block_at(s, size, sig, p),
        ),
        BlockKind::KnownFolder => BlockVal::KnownFolder(known_folder_block_at(s, size, sig, p)),
        BlockKind::VistaIdList => BlockVal::VistaIdList(vista_id_list_block_at(s, size, sig, p)),
    }
}

/// The record `acc` after seeing one more block: the block's own field is
/// replaced by its value, every other field kept.
pub open spec fn apply_block(acc: ExtraDataV, v: BlockVal) -> ExtraDataV {
    match v {
        BlockVal::Environment(b) => ExtraDataV { environment_props: Some(b), ..acc },
        BlockVal::Console(b) => ExtraDataV { console_props: Some(b), ..acc },
        BlockVal::Tracker(b) => ExtraDataV { tracker_props: Some(b), ..acc },
        BlockVal::ConsoleFe(b) => ExtraDataV { console_fe_props: Some(b), ..acc },
        BlockVal::SpecialFolder(b) => ExtraDataV { special_folder_props: Some(b), ..acc },
        BlockVal::Darwin(b) => ExtraDataV { darwin_props: Some(b), ..acc },
        BlockVal::IconEnvironment(b) => ExtraDataV { icon_environment_props: Some(b), ..acc },
        BlockVal::Shim(b) => ExtraDataV { shim_props: Some(b), ..acc },
        BlockVal::PropertyStore(b) => ExtraDataV { property_store_props: Some(b), ..acc },
        BlockVal::KnownFolder(b) => ExtraDataV { known_folder_props: Some(b), ..acc },
        BlockVal::VistaIdList(b) => ExtraDataV { vista_and_above_idlist_props: Some(b), ..acc },
    }
}

/// Outcome of one attempt to read a block at `pos`.
pub enum StepOutcome {
    /// Too few bytes remained for the tag or for the recognized payload.
    Eof {
        /// Cursor position after the failed read.
        end: int,
    },
    /// The tag matched no known block type.
    Unknown {
        /// The declared size.
        size: u32,
        /// The declared signature.
        sig: u32,
        /// Cursor position after the tag.
        end: int,
    },
    /// A recognized block was decoded.
    Parsed {
        /// The decoded block value.
        val: BlockVal,
        /// Cursor position after the block.
        end: int,
    },
}

/// One attempt to read a block at `pos` of `s`: the 8-byte tag, its
/// dispatch, and the recognized payload.
pub open spec fn block_step(s: Seq<u8>, pos: int) -> StepOutcome {
    if pos < 0 || pos + 8 > s.len() {
        StepOutcome::Eof { end: failed_pos(s.len() as int, pos) }
    } else {
        let size = le32_at(s, pos) as u32;
        let sig = le32_at(s, pos + 4) as u32;
        match block_kind(size, sig) {
            None => StepOutcome::Unknown { size, sig, end: pos + 8 },
            Some(kind) => {
                let plen = payload_len(kind, size);
                if pos + 8 + plen > s.len() {
                    StepOutcome::Eof { end: s.len() as int }
                } else {
                    StepOutcome::Parsed {
                        val: block_val_at(s, kind, size, sig, pos + 8),
                        end: pos + 8 + plen,
                    }
                }
            },
        }
    }
}

/// Decoding the extra data stream at `pos` of `s` into `acc`: blocks are
/// read and applied until the stream ends or an unrecognized tag is met, and
/// the way it ended is recorded. Returns the final record and the cursor
/// position after the stream.
pub open spec fn extra_data_model(s: Seq<u8>, pos: int, acc: ExtraDataV) -> (ExtraDataV, int)
    decreases s.len() - pos,
{
    match block_step(s, pos) {
        StepOutcome::Eof { end } => (
            ExtraDataV { trailing: ExtraDataEnd::EndOfStream, ..acc },
            end,
        ),
        StepOutcome::Unknown { size, sig, end } => (
            ExtraDataV { trailing: ExtraDataEnd::UnknownBlock(size, sig), ..acc },
            end,
        ),
        StepOutcome::Parsed { val, end } => extra_data_model(s, end, apply_block(acc, val)),
    }
}

impl ExtraData {
    /// Reads one block from the cursor's position into `self`: the 8-byte
    /// tag, then the recognized block's payload, replacing the field of that
    /// block's type. A short read is a read error; an unrecognized tag is an
    /// unknown-block error carrying the tag; neither modifies `self`.
    fn parse_next_block(&mut self, cursor: &mut Cursor) -> (r: Result<(), ExtraDataError>)
        ensures
            final(cursor).data@ == old(cursor).data@,
            match block_step(old(cursor).data@, old(cursor).pos as int) {
                StepOutcome::Eof { end } => {
                    &&& r == Err::<(), ExtraDataError>(ExtraDataError::Read)
                    &&& *final(self) == *old(self)
                    &&& final(cursor).pos == end
                },
                StepOutcome::Unknown { size, sig, end } => {
                    &&& r == Err::<(), ExtraDataError>(ExtraDataError::UnknownBlock(size, sig))
                    &&& *final(self) == *old(self)
                    &&& final(cursor).pos == end
                },
                StepOutcome::Parsed { val, end } => {
                    &&& r == Ok::<(), ExtraDataError>(())
                    &&& final(self)@ == apply_block(old(self)@, val)
                    &&& final(cursor).pos == end
                },
            },
    {
        let block_size = match cursor.read_u32() {
            Ok(v) => v,
            Err(_) => return Err(ExtraDataError::Read),
        };
        let block_signature = match cursor.read_u32() {
            Ok(v) => v,
            Err(_) => return Err(ExtraDataError::Read),
        };
        match (block_size, block_signature) {
            (0x0000_0314, 0xa000_0001) => {
                match EnvironmentVariableDataBlock::new(block_size, block_signature, cursor) {
                    Ok(b) => {
                        self.environment_props = Some(b);
                        Ok(())
                    },
                    Err(e) => Err(e),
                }
            },
            (0x0000_00cc, 0xa000_0002) => {
                match ConsoleDataBlock::new(block_size, block_signature, cursor) {
                    Ok(b) => {
                        self.console_props = Some(b);
                        Ok(())
                    },
                    Err(e) => Err(e),
                }
            },
            (0x0000_0060, 0xa000_0003) => {
                match TrackerDataBlock::new(block_size, block_signature, cursor) {
                    Ok(b) => {
                        self.tracker_props = Some(b);
                        Ok(())
                    },
                    Err(e) => Err(e),
                }
            },
            (0x0000_000c, 0xa000_0004) => {
                match ConsoleFEDataBlock::new(block_size, block_signature, cursor) {
                    Ok(b) => {
                        self.console_fe_props = Some(b);
                        Ok(())
                    },
                    Err(e) => Err(e),
                }
            },
            (0x0000_0010, 0xa000_0005) => {
                match SpecialFolderDataBlock::new(block_size, block_signature, cursor) {
                    Ok(b) => {
                        self.special_folder_props = Some(b);
                        Ok(())
                    },
                    Err(e) => Err(e),
                }
            },
            (0x0000_0314, 0xa000_0006) => {
                match DarwinDataBlock::new(block_size, block_signature, cursor) {
                    Ok(b) => {
                        self.darwin_props = Some(b);
                        Ok(())
                    },
                    Err(e) => Err(e),
                }
            },
            (0x0000_0314, 0xa000_0007) => {
                match IconEnvironmentDataBlock::new(block_size, block_signature, cursor) {
                    Ok(b) => {
                        self.icon_environment_props = Some(b);
                        Ok(())
                    },
                    Err(e) => Err(e),
                }
            },
            (_, 0xa000_0008) => {
                match ShimDataBlock::new(block_size, block_signature, cursor) {
                    Ok(b) => {
                        self.shim_props = Some(b);
                        Ok(())
                    },
                    Err(e) => Err(e),
                }
            },
            (_, 0xa000_0009) => {
                match PropertyStoreDataBlock::new(block_size, block_signature, cursor) {
                    Ok(b) => {
                        self.property_store_props = Some(b);
                        Ok(())
                    },
                    Err(e) => Err(e),
                }
            },
            (0x0000_001c, 0xa000_000b) => {
                match KnownFolderDataBlock::new(block_size, block_signature, cursor) {
                    Ok(b) => {
                        self.known_folder_props = Some(b);
                        Ok(())
                    },
                    Err(e) => Err(e),
                }
            },
            (_, 0xa000_000c) => {
                match VistaAndAboveIDListDataBlock::new(block_size, block_signature, cursor) {
                    Ok(b) => {
                        self.vista_and_above_idlist_props = Some(b);
                        Ok(())
                    },
                    Err(e) => Err(e),
                }
            },
            (size, signature) => Err(ExtraDataError::UnknownBlock(size, signature)),
        }
    }

    /// Decodes the extra data stream from the cursor's position: blocks are
    /// read until too few bytes remain for one more or its tag is
    /// unrecognized, each recognized block replacing the previously seen one
    /// of its type. Decoding always succeeds with whatever was read before
    /// the stream ended; the `trailing` field says how it ended.
    pub fn new(cursor: &mut Cursor, _header: &ShellLinkHeader) -> (r: ExtraData)
        ensures
            final(cursor).data@ == old(cursor).data@,
            ({
                let m = extra_data_model(
                    old(cursor).data@,
                    old(cursor).pos as int,
                    extra_data_empty(),
                );
                r@ == m.0 && final(cursor).pos == m.1
            }),
    {
        let mut this = ExtraData {
            darwin_props: None,
            special_folder_props: None,
            console_props: None,
            console_fe_props: None,
            environment_props: None,
            icon_environment_props: None,
            known_folder_props: None,
            property_store_props: None,
            shim_props: None,
            tracker_props: None,
            vista_and_above_idlist_props: None,
            trailing: ExtraDataEnd::EndOfStream,
        };
        loop
            invariant
                cursor.data@ == old(cursor).data@,
                this.trailing == ExtraDataEnd::EndOfStream,
                extra_data_model(old(cursor).data@, old(cursor).pos as int, extra_data_empty())
                    == extra_data_model(cursor.data@, cursor.pos as int, this@),
            decreases cursor.data@.len() - cursor.pos,
        {
            match this.parse_next_block(cursor) {
                Ok(()) => {},
                Err(e) => {
                    match e {
                        ExtraDataError::UnknownBlock(size, signature) => {
                            this.trailing = ExtraDataEnd::UnknownBlock(size, signature);
                        },
                        _ => {},
                    }
                    return this;
                },
            }
        }
    }
}

/// Later blocks of a previously seen type replace the earlier value: seeing
/// two blocks of the same type leaves exactly the second one's value, as if
/// the first had never been seen.
pub proof fn lemma_apply_block_last_wins(acc: ExtraDataV, v1: BlockVal, v2: BlockVal)
    requires
        block_val_kind(v1) == block_val_kind(v2),
    ensures
        apply_block(apply_block(acc, v1), v2) == apply_block(acc, v2),
{
}

/// Block order does not affect the final state across different types:
/// blocks of two different types may be seen in either order.
pub proof fn lemma_apply_block_commutes(acc: ExtraDataV, v1: BlockVal, v2: BlockVal)
    requires
        block_val_kind(v1) != block_val_kind(v2),
    ensures
        apply_block(apply_block(acc, v1), v2) == apply_block(apply_block(acc, v2), v1),
{
}

/// The record `acc` after seeing the blocks of `vs`, in order.
pub open spec fn apply_blocks(acc: ExtraDataV, vs: Seq<BlockVal>) -> ExtraDataV
    decreases vs.len(),
{
    if vs.len() == 0 {
        acc
    } else {
        apply_blocks(apply_block(acc, vs[0]), vs.drop_first())
    }
}

/// True when no two blocks of `vs` are of the same type.
pub open spec fn distinct_kinds(vs: Seq<BlockVal>) -> bool {
    forall|i: int, j: int|
        0 <= i < j < vs.len() ==> block_val_kind(vs[i]) != block_val_kind(vs[j])
}

/// When no two blocks share a type, seeing the blocks of `vs` in order
/// equals seeing the block at `j` first and the remaining blocks after it.
proof fn lemma_apply_blocks_extract(acc: ExtraDataV, vs: Seq<BlockVal>, j: int)
    requires
        distinct_kinds(vs),
        0 <= j < vs.len(),
    ensures
        apply_blocks(acc, vs) == apply_blocks(apply_block(acc, vs[j]), vs.remove(j)),
    decreases j,
{
    if j == 0 {
        assert(vs.remove(0) =~= vs.drop_first());
    } else {
        let rest = vs.drop_first();
        assert forall|a: int, b: int| 0 <= a < b < rest.len() implies block_val_kind(rest[a])
            != block_val_kind(rest[b]) by {
            assert(rest[a] == vs[a + 1]);
            assert(rest[b] == vs[b + 1]);
        }
        lemma_apply_blocks_extract(apply_block(acc, vs[0]), rest, j - 1);
        lemma_apply_block_commutes(acc, vs[0], vs[j]);
        let tail = vs.remove(j);
        vs.remove_ensures(j);
        assert(rest[j - 1] == vs[j]);
        assert(tail[0] == vs[0]);
        assert(tail.drop_first() =~= rest.remove(j - 1));
    }
}

/// Seeing the same blocks in any order yields the same record: the order of
/// a block sequence does not matter once no two blocks share a type.
pub proof fn lemma_apply_blocks_permutation(acc: ExtraDataV, vs1: Seq<BlockVal>, vs2: Seq<BlockVal>)
    requires
        vs1.to_multiset() == vs2.to_multiset(),
        distinct_kinds(vs1),
        distinct_kinds(vs2),
    ensures
        apply_blocks(acc, vs1) == apply_blocks(acc, vs2),
    decreases vs1.len(),
{
    broadcast use vstd::seq_lib::group_to_multiset_ensures;

    if vs1.len() == 0 {
        assert(vs2.to_multiset().len() == 0);
    } else {
        let v = vs1[0];
        assert(vs1.contains(v));
        assert(vs2.to_multiset().count(v) > 0);
        assert(vs2.contains(v));
        let j = choose|j: int| 0 <= j < vs2.len() && vs2[j] == v;
        lemma_apply_blocks_extract(acc, vs2, j);
        let r1 = vs1.drop_first();
        let r2 = vs2.remove(j);
        assert(vs1.remove(0) =~= r1);
        assert(r1.to_multiset() == vs1.to_multiset().remove(v));
        assert(r2.to_multiset() == vs2.to_multiset().remove(v));
        assert forall|a: int, b: int| 0 <= a < b < r1.len() implies block_val_kind(r1[a])
            != block_val_kind(r1[b]) by {
            assert(r1[a] == vs1[a + 1]);
            assert(r1[b] == vs1[b + 1]);
        }
        vs2.remove_ensures(j);
        assert forall|a: int, b: int| 0 <= a < b < r2.len() implies block_val_kind(r2[a])
            != block_val_kind(r2[b]) by {
            if a < j {
                assert(r2[a] == vs2[a]);
            } else {
                assert(r2[a] == vs2[a + 1]);
            }
            if b < j {
                assert(r2[b] == vs2[b]);
            } else {
                assert(r2[b] == vs2[b + 1]);
            }
        }
        lemma_apply_blocks_permutation(apply_block(acc, v), r1, r2);
    }
}

/// True when the bytes of `s` from `pos` to the very end are laid out as
/// exactly the recognized blocks whose values are `vs`, one after another.
pub open spec fn stream_of_blocks(s: Seq<u8>, pos: int, vs: Seq<BlockVal>) -> bool
    decreases vs.len(),
{
    if vs.len() == 0 {
        pos == s.len()
    } else {
        match block_step(s, pos) {
            StepOutcome::Parsed { val, end } => val == vs[0] && stream_of_blocks(
                s,
                end,
                vs.drop_first(),
            ),
            StepOutcome::Eof { end } => false,
            StepOutcome::Unknown { size, sig, end } => false,
        }
    }
}

/// Decoding a stream laid out as the blocks of `vs` yields the record got by
/// seeing those blocks in order, ending ordinarily at the buffer's end.
pub proof fn lemma_stream_decodes_to_fold(s: Seq<u8>, pos: int, vs: Seq<BlockVal>, acc: ExtraDataV)
    requires
        stream_of_blocks(s, pos, vs),
    ensures
        extra_data_model(s, pos, acc).0 == (ExtraDataV {
            trailing: ExtraDataEnd::EndOfStream,
            ..apply_blocks(acc, vs)
        }),
        extra_data_model(s, pos, acc).1 == s.len(),
    decreases vs.len(),
{
    if vs.len() == 0 {
    } else {
        match block_step(s, pos) {
            StepOutcome::Parsed { val, end } => {
                lemma_stream_decodes_to_fold(s, end, vs.drop_first(), apply_block(acc, val));
            },
            StepOutcome::Eof { end } => {
                assert(false);
            },
            StepOutcome::Unknown { size, sig, end } => {
                assert(false);
            },
        }
    }
}

/// Extra data block order does not affect the final state: two streams that
/// hold the same blocks — the same multiset of recognized block values, no
/// two of one type — in any order decode to the same record, each type's
/// field holding that type's block wherever it appeared.
pub proof fn lemma_stream_permutation(
    s1: Seq<u8>,
    pos1: int,
    vs1: Seq<BlockVal>,
    s2: Seq<u8>,
    pos2: int,
    vs2: Seq<BlockVal>,
    acc: ExtraDataV,
)
    requires
        stream_of_blocks(s1, pos1, vs1),
        stream_of_blocks(s2, pos2, vs2),
        vs1.to_multiset() == vs2.to_multiset(),
        distinct_kinds(vs1),
        distinct_kinds(vs2),
    ensures
        extra_data_model(s1, pos1, acc).0 == extra_data_model(s2, pos2, acc).0,
{
    lemma_stream_decodes_to_fold(s1, pos1, vs1, acc);
    lemma_stream_decodes_to_fold(s2, pos2, vs2, acc);
    lemma_apply_blocks_permutation(acc, vs1, vs2);
}

/// A stream of exactly two console data blocks decodes to the second one's
/// values alone, as if the first had never been seen.
pub proof fn lemma_two_console_blocks_decode_to_second(s: Seq<u8>, pos: int, acc: ExtraDataV)
    requires
        0 <= pos,
        pos + 408 == s.len(),
        le32_at(s, pos) == 0xcc,
        le32_at(s, pos + 4) == 0xa000_0002,
        le32_at(s, pos + 204) == 0xcc,
        le32_at(s, pos + 208) == 0xa000_0002,
    ensures
        extra_data_model(s, pos, acc).0.console_props == Some(
            console_block_at(s, 0xcc, 0xa000_0002, pos + 212),
        ),
{
    let acc1 = apply_block(acc, block_val_at(s, BlockKind::Console, 0xcc, 0xa000_0002, pos + 8));
    let acc2 = apply_block(
        acc1,
        block_val_at(s, BlockKind::Console, 0xcc, 0xa000_0002, pos + 212),
    );
    assert(extra_data_model(s, pos, acc) == extra_data_model(s, pos + 204, acc1));
    assert(extra_data_model(s, pos + 204, acc1) == extra_data_model(s, pos + 408, acc2));
}

} // verus!
