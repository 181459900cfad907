//! How the columns of a record shape are packed into one block of memory.
//!
//! The columns lie one after the other, in the order of the fields. Each starts
//! at the first address after the column before it that its field's alignment
//! allows; the padding in between is all that the block holds beside the
//! columns. A field whose values take no memory has no column in the block.
use crate::param::ParallelParam;
use vstd::arithmetic::power2::is_pow2;
use vstd::layout::{align_of, align_properties, size_of};
use vstd::prelude::*;

verus! {

/// The size and the alignment of a piece of memory, in bytes.
#[derive(Clone, Copy, Debug, PartialEq, Eq, Structural)]
pub struct BlockLayout {
    /// The number of bytes.
    pub size: usize,
    /// The power of two of which the address is a multiple.
    pub align: usize,
}

/// The layout of a block for the columns of a record shape, and the offset in
/// the block at which each column starts.
pub ghost struct Packing {
    /// The size and alignment of the block.
    pub layout: BlockLayout,
    /// Where the column of each field starts, in the order of the fields; for a
    /// field whose values take no memory, zero.
    pub offsets: Seq<usize>,
}

impl BlockLayout {
    /// Whether the values of a field can be laid out so: the alignment is a
    /// power of two and the size a multiple of it.
    pub open spec fn is_field(self) -> bool {
        &&& is_pow2(self.align as int)
        &&& self.size % self.align == 0
    }

    /// Whether memory can be laid out so: the alignment is a power of two, and
    /// the size, rounded up to the alignment, is no more than `isize::MAX`.
    pub open spec fn is_block(self) -> bool {
        &&& is_pow2(self.align as int)
        &&& self.size <= isize::MAX - (self.align - 1)
    }
}

/// The least multiple of `align` that is at least `size`.
pub open spec fn round_up(size: int, align: int) -> int {
    if size % align == 0 {
        size
    } else {
        size + align - size % align
    }
}

/// The layout of the values of the type `E`.
pub open spec fn layout_of<E>() -> BlockLayout {
    BlockLayout { size: size_of::<E>() as usize, align: align_of::<E>() as usize }
}

/// A block laid out as `layout` with the column of `capacity` values of `field`
/// after it, and the offset at which that column starts; or `None` where the
/// block would be too large. A field whose values take no memory adds nothing.
pub open spec fn appended(layout: BlockLayout, field: BlockLayout, capacity: usize) -> Option<
    (BlockLayout, usize),
> {
    let start = round_up(layout.size as int, field.align as int);
    let size = start + field.size * capacity;
    let align = if layout.align >= field.align {
        layout.align
    } else {
        field.align
    };
    if field.size == 0 {
        Some((layout, 0))
    } else if size <= isize::MAX - (align - 1) {
        Some((BlockLayout { size: size as usize, align }, start as usize))
    } else {
        None
    }
}

/// The block that holds a column of `capacity` values for each of `fields`, or
/// `None` where it would be too large.
pub open spec fn packed(fields: Seq<BlockLayout>, capacity: usize) -> Option<Packing>
    decreases fields.len(),
{
    if fields.len() == 0 {
        Some(Packing { layout: BlockLayout { size: 0, align: 1 }, offsets: Seq::empty() })
    } else {
        match packed(fields.drop_last(), capacity) {
            None => None,
            Some(before) => match appended(before.layout, fields.last(), capacity) {
                None => None,
                Some((layout, offset)) => Some(
                    Packing { layout, offsets: before.offsets.push(offset) },
                ),
            },
        }
    }
}

/// Rounding up gives a multiple of the alignment that is at least the size and
/// less than one alignment more.
pub proof fn lemma_round_up(size: int, align: int)
    requires
        0 <= size,
        0 < align,
    ensures
        round_up(size, align) % align == 0,
        size <= round_up(size, align) < size + align,
{
    if size % align != 0 {
        let rest = size % align;
        assert((size + (align - rest)) % align == 0) by (nonlinear_arith)
            requires
                rest == size % align,
                0 < rest < align,
        ;
    }
}

/// What the packing promises: there is an offset for each field; the block is
/// aligned for every field that has a column; each column starts at a multiple
/// of its field's alignment and ends within the block; and no column starts
/// before an earlier one has ended.
pub proof fn lemma_packed(fields: Seq<BlockLayout>, capacity: usize)
    requires
        forall|i: int| 0 <= i < fields.len() ==> (#[trigger] fields[i]).is_field(),
        packed(fields, capacity) is Some,
    ensures
        packed(fields, capacity).unwrap().offsets.len() == fields.len(),
        packed(fields, capacity).unwrap().layout.is_block(),
        forall|i: int|
            0 <= i < fields.len() && (#[trigger] fields[i]).size > 0 ==> fields[i].align <= packed(
                fields,
                capacity,
            ).unwrap().layout.align,
        forall|i: int|
            0 <= i < fields.len() && (#[trigger] fields[i]).size > 0 ==> {
                &&& packed(fields, capacity).unwrap().offsets[i] % fields[i].align == 0
                &&& packed(fields, capacity).unwrap().offsets[i] + fields[i].size * capacity
                    <= packed(fields, capacity).unwrap().layout.size
            },
        forall|i: int, j: int|
            0 <= i < j < fields.len() && (#[trigger] fields[i]).size > 0 && (#[trigger] fields[j]).size
                > 0 ==> packed(fields, capacity).unwrap().offsets[i] + fields[i].size * capacity
                <= packed(fields, capacity).unwrap().offsets[j],
    decreases fields.len(),
{
    if fields.len() == 0 {
        assert(is_pow2(1)) by {
            reveal(is_pow2);
        }
    } else {
        let earlier = fields.drop_last();
        let field = fields.last();
        let before = packed(earlier, capacity).unwrap();
        let all = packed(fields, capacity).unwrap();
        assert forall|i: int| 0 <= i < earlier.len() implies (#[trigger] earlier[i]).is_field() by {
            assert(earlier[i] == fields[i]);
        }
        lemma_packed(earlier, capacity);
        assert(field.is_field());
        assert(field.align > 0) by {
            reveal(is_pow2);
        }
        lemma_round_up(before.layout.size as int, field.align as int);
        assert(0 <= field.size * capacity) by (nonlinear_arith);
        assert forall|i: int| 0 <= i < fields.len() && (#[trigger] fields[i]).size > 0 implies fields[i].align
            <= all.layout.align by {
            if i < earlier.len() {
                assert(earlier[i] == fields[i]);
            }
        }
        assert forall|i: int| 0 <= i < fields.len() && (#[trigger] fields[i]).size > 0 implies {
            &&& all.offsets[i] % fields[i].align == 0
            &&& all.offsets[i] + fields[i].size * capacity <= all.layout.size
        } by {
            if i < earlier.len() {
                assert(earlier[i] == fields[i]);
            }
        }
        assert forall|i: int, j: int|
            0 <= i < j < fields.len() && (#[trigger] fields[i]).size > 0 && (#[trigger] fields[j]).size
                > 0 implies all.offsets[i] + fields[i].size * capacity <= all.offsets[j] by {
            assert(earlier[i] == fields[i]);
            if j < earlier.len() {
                assert(earlier[j] == fields[j]);
            }
        }
    }
}

/// The layout of the values of the type `E`.
pub fn field_layout<E>() -> (layout: BlockLayout)
    ensures
        layout == layout_of::<E>(),
        layout.is_field(),
{
    broadcast use align_properties;

    BlockLayout { size: core::mem::size_of::<E>(), align: core::mem::align_of::<E>() }
}

/// A block laid out as `layout` with the column of `capacity` values of `field`
/// after it, and the offset at which that column starts; or `None` where the
/// block would be too large.
pub fn append_column(layout: BlockLayout, field: BlockLayout, capacity: usize) -> (all: Option<
    (BlockLayout, usize),
>)
    requires
        layout.is_block(),
        field.is_field(),
    ensures
        all == appended(layout, field, capacity),
        all matches Some((block, _)) ==> block.is_block(),
{
    if field.size == 0 {
        return Some((layout, 0));
    }
    proof {
        assert(field.align > 0 && layout.align > 0) by {
            reveal(is_pow2);
        }
        lemma_round_up(layout.size as int, field.align as int);
        assert(0 <= field.size * capacity) by (nonlinear_arith);
    }
    let align = if layout.align >= field.align {
        layout.align
    } else {
        field.align
    };
    if align - 1 > isize::MAX as usize {
        return None;
    }
    let limit = (isize::MAX as usize) - (align - 1);
    let rest = layout.size % field.align;
    let padding = if rest == 0 {
        0
    } else {
        field.align - rest
    };
    let start = match layout.size.checked_add(padding) {
        Some(start) => start,
        None => { return None; },
    };
    let bytes = match field.size.checked_mul(capacity) {
        Some(bytes) => bytes,
        None => { return None; },
    };
    let size = match start.checked_add(bytes) {
        Some(size) => size,
        None => { return None; },
    };
    if size > limit {
        return None;
    }
    Some((BlockLayout { size, align }, start))
}

/// Where the columns of the first fields do not fit into a block, the columns
/// of all fields do not fit.
proof fn lemma_prefix_too_large(fields: Seq<BlockLayout>, capacity: usize, count: int)
    requires
        0 <= count <= fields.len(),
        packed(fields.take(count), capacity) is None,
    ensures
        packed(fields, capacity) is None,
    decreases fields.len() - count,
{
    if count == fields.len() {
        assert(fields.take(count) =~= fields);
    } else {
        assert(fields.drop_last().take(count) =~= fields.take(count));
        lemma_prefix_too_large(fields.drop_last(), capacity, count);
    }
}

/// The block that holds a column of `capacity` values for each of `fields`, and
/// the offset at which each column starts; or `None` where the block would be
/// too large.
pub fn pack(fields: &Vec<BlockLayout>, capacity: usize) -> (packing: Option<
    (BlockLayout, Vec<usize>),
>)
    requires
        forall|i: int| 0 <= i < fields@.len() ==> (#[trigger] fields@[i]).is_field(),
    ensures
        packing is Some <==> packed(fields@, capacity) is Some,
        packing matches Some((layout, offsets)) ==> packed(fields@, capacity) == Some(
            Packing { layout, offsets: offsets@ },
        ),
{
    let mut layout = BlockLayout { size: 0, align: 1 };
    let mut offsets: Vec<usize> = Vec::with_capacity(fields.len());
    let mut index: usize = 0;
    assert(fields@.take(0) =~= Seq::<BlockLayout>::empty());
    assert(is_pow2(1)) by {
        reveal(is_pow2);
    }
    while index < fields.len()
        invariant
            index <= fields@.len(),
            forall|i: int| 0 <= i < fields@.len() ==> (#[trigger] fields@[i]).is_field(),
            layout.is_block(),
            packed(fields@.take(index as int), capacity) == Some(
                Packing { layout, offsets: offsets@ },
            ),
        decreases fields@.len() - index,
    {
        let ghost next = fields@.take(index + 1);
        assert(next.drop_last() =~= fields@.take(index as int));
        assert(next.last() == fields@[index as int]);
        assert(fields@[index as int].is_field());
        match append_column(layout, fields[index], capacity) {
            Some((all, offset)) => {
                layout = all;
                offsets.push(offset);
            },
            None => {
                proof {
                    lemma_prefix_too_large(fields@, capacity, index + 1);
                }
                return None;
            },
        }
        index = index + 1;
    }
    assert(fields@.take(index as int) =~= fields@);
    Some((layout, offsets))
}

/// The block that holds `capacity` records of the shape `Param` column by
/// column, and the offset at which the column of each field starts; or `None`
/// where the block would be too large.
pub fn block_layout<Param: ParallelParam>(capacity: usize) -> (packing: Option<
    (BlockLayout, Vec<usize>),
>)
    ensures
        packing is Some <==> packed(Param::fields(), capacity) is Some,
        packing matches Some((layout, offsets)) ==> packed(Param::fields(), capacity) == Some(
            Packing { layout, offsets: offsets@ },
        ),
{
    let fields = Param::field_layouts();
    pack(&fields, capacity)
}

} // verus!
