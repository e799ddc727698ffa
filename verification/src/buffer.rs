//! Where the elements of a buffer object lie, in bytes, and how vertex attributes are
//! laid over them.
use vstd::prelude::*;

verus! {

/// A run of bytes inside a buffer object, in the signed sizes that the graphics library takes.
#[derive(Clone, Copy, Debug, PartialEq, Eq, Structural)]
pub struct ByteRange {
    pub offset: isize,
    pub size: isize,
}

/// The bytes of `count` elements from element `first` on, each `elem_size` bytes long.
/// `None` where an offset or a size does not fit the signed size type.
pub fn byte_range(elem_size: usize, first: usize, count: usize) -> (r: Option<ByteRange>)
    ensures
        r is Some <==> first * elem_size <= isize::MAX && count * elem_size <= isize::MAX,
        r matches Some(range) ==> range.offset == first * elem_size && range.size == count
            * elem_size,
{
    let offset: usize = match first.checked_mul(elem_size) {
        Some(n) => n,
        None => {
            return None;
        },
    };
    let size: usize = match count.checked_mul(elem_size) {
        Some(n) => n,
        None => {
            return None;
        },
    };
    if offset > isize::MAX as usize || size > isize::MAX as usize {
        return None;
    }
    Some(ByteRange { offset: offset as isize, size: size as isize })
}

/// What a copy between two buffers of one element type hands to the graphics library.
#[derive(Clone, Copy, Debug, PartialEq, Eq, Structural)]
pub struct CopyRange {
    pub src_offset: isize,
    pub dst_offset: isize,
    pub size: isize,
}

/// A buffer object by name, with what the host knows of it: its size in bytes, the
/// usage it was allocated for, and the size of one element.
#[derive(Clone, Copy, Debug, PartialEq, Eq, Structural)]
pub struct Buffer {
    id: u32,
    size: usize,
    usage: u32,
    elem_size: usize,
}

impl Buffer {
    pub closed spec fn spec_id(&self) -> u32 {
        self.id
    }

    pub closed spec fn spec_byte_size(&self) -> usize {
        self.size
    }

    pub closed spec fn spec_usage(&self) -> u32 {
        self.usage
    }

    pub closed spec fn spec_elem_size(&self) -> usize {
        self.elem_size
    }

    /// Elements must take room.
    pub open spec fn wf(&self) -> bool {
        self.spec_elem_size() > 0
    }

    /// The buffer object `id`, for which nothing is allocated yet.
    pub fn empty(id: u32, elem_size: usize) -> (buf: Self)
        requires
            elem_size > 0,
        ensures
            buf.wf(),
            buf.spec_id() == id,
            buf.spec_byte_size() == 0,
            buf.spec_usage() == 0,
            buf.spec_elem_size() == elem_size,
    {
        Buffer { id, size: 0, usage: 0, elem_size }
    }

    pub fn id(&self) -> (id: u32)
        ensures
            id == self.spec_id(),
    {
        self.id
    }

    pub fn usage(&self) -> (usage: u32)
        ensures
            usage == self.spec_usage(),
    {
        self.usage
    }

    pub fn byte_size(&self) -> (size: usize)
        ensures
            size == self.spec_byte_size(),
    {
        self.size
    }

    /// Number of whole elements.
    pub fn len(&self) -> (n: usize)
        requires
            self.wf(),
        ensures
            n == self.spec_byte_size() / self.spec_elem_size(),
    {
        self.size / self.elem_size
    }

    /// Notes an allocation of `size` bytes for `usage`.
    pub fn alloc_bytes(&mut self, size: usize, usage: u32)
        ensures
            final(self).spec_byte_size() == size,
            final(self).spec_usage() == usage,
            final(self).spec_id() == old(self).spec_id(),
            final(self).spec_elem_size() == old(self).spec_elem_size(),
    {
        self.size = size;
        self.usage = usage;
    }

    /// Notes an allocation for `n_elem` elements and gives its size in bytes. Nothing
    /// is noted, and `None` comes back, where that size is more than the signed size
    /// type holds.
    pub fn alloc_elems(&mut self, n_elem: usize, usage: u32) -> (r: Option<isize>)
        ensures
            r is Some <==> n_elem * old(self).spec_elem_size() <= isize::MAX,
            r matches Some(size) ==> size == n_elem * old(self).spec_elem_size() && final(self).spec_byte_size() == size && final(self).spec_usage() == usage,
            r is None ==> *final(self) == *old(self),
            final(self).spec_id() == old(self).spec_id(),
            final(self).spec_elem_size() == old(self).spec_elem_size(),
    {
        match byte_range(self.elem_size, 0, n_elem) {
            Some(range) => {
                self.alloc_bytes(range.size as usize, usage);
                Some(range.size)
            },
            None => None,
        }
    }

    /// Notes that the buffer was loaded with `n_elem` elements; as `alloc_elems`.
    pub fn load(&mut self, usage: u32, n_elem: usize) -> (r: Option<isize>)
        ensures
            r is Some <==> n_elem * old(self).spec_elem_size() <= isize::MAX,
            r matches Some(size) ==> size == n_elem * old(self).spec_elem_size() && final(self).spec_byte_size() == size && final(self).spec_usage() == usage,
            r is None ==> *final(self) == *old(self),
            final(self).spec_id() == old(self).spec_id(),
            final(self).spec_elem_size() == old(self).spec_elem_size(),
    {
        self.alloc_elems(n_elem, usage)
    }

    /// The bytes to read for `len` elements from element `offset` on.
    pub fn read(&self, offset: usize, len: usize) -> (r: Option<ByteRange>)
        ensures
            r is Some <==> offset * self.spec_elem_size() <= isize::MAX && len
                * self.spec_elem_size() <= isize::MAX,
            r matches Some(range) ==> range.offset == offset * self.spec_elem_size()
                && range.size == len * self.spec_elem_size(),
    {
        byte_range(self.elem_size, offset, len)
    }

    /// The bytes to write for `len` elements from element `offset` on.
    pub fn write(&self, offset: usize, len: usize) -> (r: Option<ByteRange>)
        ensures
            r is Some <==> offset * self.spec_elem_size() <= isize::MAX && len
                * self.spec_elem_size() <= isize::MAX,
            r matches Some(range) ==> range.offset == offset * self.spec_elem_size()
                && range.size == len * self.spec_elem_size(),
    {
        byte_range(self.elem_size, offset, len)
    }

    /// The bytes of element `idx`, to read it.
    pub fn get(&self, idx: usize) -> (r: Option<ByteRange>)
        ensures
            r is Some <==> idx * self.spec_elem_size() <= isize::MAX && self.spec_elem_size()
                <= isize::MAX,
            r matches Some(range) ==> range.offset == idx * self.spec_elem_size() && range.size
                == self.spec_elem_size(),
    {
        byte_range(self.elem_size, idx, 1)
    }

    /// The bytes of element `idx`, to overwrite it.
    pub fn set(&self, idx: usize) -> (r: Option<ByteRange>)
        ensures
            r is Some <==> idx * self.spec_elem_size() <= isize::MAX && self.spec_elem_size()
                <= isize::MAX,
            r matches Some(range) ==> range.offset == idx * self.spec_elem_size() && range.size
                == self.spec_elem_size(),
    {
        byte_range(self.elem_size, idx, 1)
    }

    /// What copies `len` elements from element `src_idx` of this buffer to element
    /// `dst_idx` of another buffer of the same element type.
    pub fn copy_into(&self, src_idx: usize, dst_idx: usize, len: usize) -> (r: Option<CopyRange>)
        ensures
            r is Some <==> src_idx * self.spec_elem_size() <= isize::MAX && dst_idx
                * self.spec_elem_size() <= isize::MAX && len * self.spec_elem_size()
                <= isize::MAX,
            r matches Some(copy) ==> copy.src_offset == src_idx * self.spec_elem_size()
                && copy.dst_offset == dst_idx * self.spec_elem_size() && copy.size == len
                * self.spec_elem_size(),
    {
        let src = match byte_range(self.elem_size, src_idx, len) {
            Some(range) => range,
            None => {
                return None;
            },
        };
        let dst = match byte_range(self.elem_size, dst_idx, len) {
            Some(range) => range,
            None => {
                return None;
            },
        };
        Some(CopyRange { src_offset: src.offset, dst_offset: dst.offset, size: src.size })
    }

    /// Whether this buffer must be allocated anew before it can take a copy of all of
    /// `source`: it must where the sizes or the usages differ.
    pub fn clone_from_needs_alloc(&self, source: &Buffer) -> (r: bool)
        ensures
            r <==> self.spec_byte_size() != source.spec_byte_size() || self.spec_usage()
                != source.spec_usage(),
    {
        self.size != source.size || self.usage != source.usage
    }
}

/// How one vertex attribute lies in a buffer, in the types that the graphics library takes.
#[derive(Clone, Copy, Debug, PartialEq, Eq, Structural)]
pub struct AttribLayout {
    /// Scalars per vertex.
    pub elem_count: i32,
    /// Bytes from one vertex to the next.
    pub stride: i32,
    /// Bytes from the start of a vertex to the attribute.
    pub offset: u32,
}

/// The layout of an attribute of `elem_count` scalars that starts `offset` scalars into
/// a vertex of `stride` scalars, each scalar `elem_size` bytes. `None` where a number
/// does not fit its type.
pub fn attrib_layout(elem_size: usize, elem_count: u32, offset: usize, stride: usize) -> (r:
    Option<AttribLayout>)
    ensures
        r is Some <==> elem_count <= i32::MAX && stride * elem_size <= i32::MAX && offset
            * elem_size <= u32::MAX,
        r matches Some(layout) ==> layout.elem_count == elem_count && layout.stride == stride
            * elem_size && layout.offset == offset * elem_size,
{
    if elem_count > i32::MAX as u32 {
        return None;
    }
    let stride_bytes: usize = match stride.checked_mul(elem_size) {
        Some(n) => n,
        None => {
            return None;
        },
    };
    let offset_bytes: usize = match offset.checked_mul(elem_size) {
        Some(n) => n,
        None => {
            return None;
        },
    };
    if stride_bytes > i32::MAX as usize || offset_bytes > u32::MAX as usize {
        return None;
    }
    Some(
        AttribLayout {
            elem_count: elem_count as i32,
            stride: stride_bytes as i32,
            offset: offset_bytes as u32,
        },
    )
}

/// The first vertex and the vertex count of a draw, in the signed types that the graphics
/// library takes. `None` where one of them does not fit.
pub fn draw_range(first: u32, count: u32) -> (r: Option<(i32, i32)>)
    ensures
        r is Some <==> first <= i32::MAX && count <= i32::MAX,
        r matches Some(range) ==> range.0 == first && range.1 == count,
{
    if first > i32::MAX as u32 || count > i32::MAX as u32 {
        None
    } else {
        Some((first as i32, count as i32))
    }
}

} // verus!
