use vstd::prelude::*;

verus! {

/// Bytes in a pointer, and in a pointer-sized integer, on the target ABI.
pub const POINTER_BYTES: u64 = 8;

/// Bytes of native fields that are reserved and never read.
pub const OPAQUE_BYTES: u64 = 16;

/// Offset of the primary vtable pointer in the native base.
pub const VTABLE_OFFSET: u64 = 0;

/// Offset of the opaque native fields in the native base.
pub const OPAQUE_OFFSET: u64 = 8;

/// Offset of the virtual base, whose first word is its vtable pointer.
pub const VIRTUAL_BASE_OFFSET: u64 = 24;

/// Offset of the virtual base's bookkeeping pointer.
pub const REFS_OFFSET: u64 = 32;

/// Size in bytes of the native base as the native library lays it out.
pub const BASE_SIZE: u64 = 40;

/// Where a field starts and how many bytes it takes.
#[derive(Clone, Copy, Debug, PartialEq, Eq, Structural)]
pub struct FieldLayout {
    pub offset: u64,
    pub size: u64,
}

/// The byte layout of the native base that prefixes every wrapped object.
#[derive(Clone, Copy, Debug, PartialEq, Eq, Structural)]
pub struct ForeignBaseLayout {
    pub vtable: FieldLayout,
    pub opaque: FieldLayout,
    pub vtable_ref_base: FieldLayout,
    pub refs: FieldLayout,
    pub size: u64,
}

/// `x` rounded up to a multiple of `align`.
pub open spec fn round_up(x: int, align: int) -> int {
    ((x + align - 1) / align) * align
}

/// A field of `size` bytes aligned to `align`, placed after the byte `end`
/// as a C struct places it.
pub open spec fn c_field(end: int, size: u64, align: u64) -> FieldLayout {
    FieldLayout { offset: round_up(end, align as int) as u64, size }
}

/// The native base laid out by C's rule from the sizes and alignments of
/// its fields in declaration order: a pointer (the primary vtable pointer),
/// the opaque bytes, and two more pointers (the virtual base's vtable pointer
/// and its bookkeeping pointer). The whole is padded to the pointer's
/// alignment, the largest of its fields'.
pub open spec fn c_base_layout(
    pointer_size: u64,
    pointer_align: u64,
    opaque_size: u64,
    opaque_align: u64,
) -> ForeignBaseLayout {
    let vtable = c_field(0, pointer_size, pointer_align);
    let opaque = c_field(vtable.offset + vtable.size, opaque_size, opaque_align);
    let vtable_ref_base = c_field(opaque.offset + opaque.size, pointer_size, pointer_align);
    let refs = c_field(vtable_ref_base.offset + vtable_ref_base.size, pointer_size, pointer_align);
    ForeignBaseLayout {
        vtable,
        opaque,
        vtable_ref_base,
        refs,
        size: round_up(refs.offset + refs.size, pointer_align as int) as u64,
    }
}

/// The layout that the native library's own headers give.
pub open spec fn native_base_layout() -> ForeignBaseLayout {
    ForeignBaseLayout {
        vtable: FieldLayout { offset: VTABLE_OFFSET, size: POINTER_BYTES },
        opaque: FieldLayout { offset: OPAQUE_OFFSET, size: OPAQUE_BYTES },
        vtable_ref_base: FieldLayout { offset: VIRTUAL_BASE_OFFSET, size: POINTER_BYTES },
        refs: FieldLayout { offset: REFS_OFFSET, size: POINTER_BYTES },
        size: BASE_SIZE,
    }
}

/// Places a field of the given size and alignment after the byte `end`, as a
/// C struct does.
pub fn place_field(end: u64, size: u64, align: u64) -> (r: FieldLayout)
    requires
        1 <= align,
        end + align + size <= u64::MAX,
    ensures
        r == c_field(end as int, size, align),
        r.offset == round_up(end as int, align as int),
        end <= r.offset < end + align,
{
    let bumped: u64 = end + (align - 1);
    assert((bumped / align) * align <= bumped) by (nonlinear_arith)
        requires
            align >= 1,
    ;
    let offset: u64 = (bumped / align) * align;
    assert(round_up(end as int, align as int) == offset) by (nonlinear_arith)
        requires
            bumped == end + align - 1,
            offset == (bumped / align) * align,
            align >= 1,
    ;
    assert(end <= offset < end + align) by (nonlinear_arith)
        requires
            bumped == end + align - 1,
            offset == (bumped / align) * align,
            align >= 1,
    ;
    FieldLayout { offset, size }
}

/// With pointers of 8 bytes aligned to 8 and opaque bytes aligned to 1, C's
/// layout rule gives exactly the offsets and size recorded for the native
/// library's compiled layout.
pub proof fn lemma_c_layout_is_native()
    ensures
        c_base_layout(POINTER_BYTES, POINTER_BYTES, OPAQUE_BYTES, 1) == native_base_layout(),
{
    assert(round_up(0, 8) == 0);
    assert(round_up(8, 1) == 8);
    assert(round_up(24, 8) == 24);
    assert(round_up(32, 8) == 32);
    assert(round_up(40, 8) == 40);
}

/// Lays out the native base by C's rule from the size and alignment of its
/// fields; the result is the native library's recorded layout. Whether a
/// given Rust struct is laid out this way is not checked here.
pub fn foreign_base_layout() -> (r: ForeignBaseLayout)
    ensures
        r == c_base_layout(POINTER_BYTES, POINTER_BYTES, OPAQUE_BYTES, 1),
        r == native_base_layout(),
{
    proof {
        lemma_c_layout_is_native();
    }
    let vtable = place_field(0, POINTER_BYTES, POINTER_BYTES);
    let opaque = place_field(vtable.offset + vtable.size, OPAQUE_BYTES, 1);
    let vtable_ref_base = place_field(opaque.offset + opaque.size, POINTER_BYTES, POINTER_BYTES);
    let refs = place_field(
        vtable_ref_base.offset + vtable_ref_base.size,
        POINTER_BYTES,
        POINTER_BYTES,
    );
    let end = refs.offset + refs.size;
    let size = (place_field(end, 0, POINTER_BYTES)).offset;
    ForeignBaseLayout { vtable, opaque, vtable_ref_base, refs, size }
}

/// Offset of the host payload, which follows the native base at the next
/// multiple of its alignment.
pub fn payload_offset(payload_align: u64) -> (r: u64)
    requires
        1 <= payload_align <= u64::MAX - BASE_SIZE,
    ensures
        r == round_up(BASE_SIZE as int, payload_align as int),
        BASE_SIZE <= r,
{
    place_field(BASE_SIZE, 0, payload_align).offset
}

} // verus!
