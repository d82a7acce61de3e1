//! Linear memory behind checked ranges.

use crate::error::{CoreError, CoreExecutionError};
use vstd::prelude::*;
use vstd::slice::slice_subrange;

verus! {

/// The number of bytes in one page of linear memory.
pub const PAGE_BYTES: usize = 0x1_0000;

/// The largest number of pages that a linear memory can hold.
pub const MAX_PAGES: u32 = 0x1_0000;

/// The largest extent of a linear memory, in bytes.
pub const MAX_BYTES: u64 = 0x1_0000_0000;

/// The limits that a linear memory was declared with.
#[derive(Debug, Clone, Copy, PartialEq, Eq, Structural)]
pub struct MemType {
    pub min: u32,
    pub max: Option<u32>,
    pub shared: bool,
}

impl MemType {
    /// The least number of pages, the greatest if one was declared, and
    /// whether the memory is shared between threads.
    pub fn limit(&self) -> (r: (u32, Option<u32>, bool))
        ensures
            r == (self.min, self.max, self.shared),
    {
        (self.min, self.max, self.shared)
    }
}

/// A position in linear memory at which a value of type `T` is read or
/// written.
pub struct WasmPtr<T: Sized>(pub usize, pub core::marker::PhantomData<T>);

impl<T: Sized> Clone for WasmPtr<T> {
    fn clone(&self) -> (p: Self)
        ensures
            p.0 == self.0,
    {
        WasmPtr(self.0, core::marker::PhantomData)
    }
}

impl<T: Sized> Copy for WasmPtr<T> {

}

impl<T: Sized> WasmPtr<T> {
    /// Whether this is position zero.
    pub fn is_null(&self) -> (b: bool)
        ensures
            b == (self.0 == 0),
    {
        self.0 == 0
    }

    /// The position `i`.
    pub fn from(i: usize) -> (p: Self)
        ensures
            p.0 == i,
    {
        WasmPtr(i, core::marker::PhantomData)
    }

    /// The position as a number.
    pub fn into(self) -> (i: usize)
        ensures
            i == self.0,
    {
        self.0
    }

    /// The position `rhs` values of type `T` further on.
    pub fn add(self, rhs: usize) -> (p: Self)
        requires
            self.0 + rhs * vstd::layout::size_of::<T>() <= usize::MAX,
        ensures
            p.0 == self.0 + rhs * vstd::layout::size_of::<T>(),
    {
        let width: usize = core::mem::size_of::<T>();
        assert(rhs * width <= usize::MAX) by (nonlinear_arith)
            requires
                self.0 + rhs * width <= usize::MAX,
                self.0 >= 0,
        ;
        WasmPtr(self.0 + rhs * width, core::marker::PhantomData)
    }

    /// The position `rhs` values of type `T` further back.
    pub fn sub(self, rhs: usize) -> (p: Self)
        requires
            rhs * vstd::layout::size_of::<T>() <= self.0,
        ensures
            p.0 == self.0 - rhs * vstd::layout::size_of::<T>(),
    {
        let width: usize = core::mem::size_of::<T>();
        WasmPtr(self.0 - rhs * width, core::marker::PhantomData)
    }
}

/// A view of one linear memory: a sequence of bytes that is read and
/// written only through checked ranges. A view that is attached to no memory
/// refuses every access.
#[derive(Debug)]
pub struct Memory {
    bytes: Vec<u8>,
    attached: bool,
}

/// What `bytes` looks like after `window` has taken the place of the `len`
/// bytes from `offset` on.
pub open spec fn splice(bytes: Seq<u8>, offset: int, len: int, window: Seq<u8>) -> Seq<u8> {
    bytes.subrange(0, offset) + window + bytes.subrange(offset + len, bytes.len() as int)
}

/// What `bytes` looks like after `data` has been laid over it from `offset`.
pub open spec fn overlay(bytes: Seq<u8>, offset: int, data: Seq<u8>) -> Seq<u8> {
    bytes.subrange(0, offset) + data + bytes.subrange(offset + data.len(), bytes.len() as int)
}

/// What has been written can be read back, and a write changes nothing
/// outside its range and never the extent.
pub proof fn lemma_write_then_read(bytes: Seq<u8>, offset: int, data: Seq<u8>)
    requires
        0 <= offset,
        offset + data.len() <= bytes.len(),
    ensures
        overlay(bytes, offset, data).len() == bytes.len(),
        overlay(bytes, offset, data).subrange(offset, offset + data.len()) == data,
        forall|i: int|
            0 <= i < bytes.len() && !(offset <= i < offset + data.len()) ==> overlay(
                bytes,
                offset,
                data,
            )[i] == bytes[i],
{
    assert(overlay(bytes, offset, data).subrange(offset, offset + data.len()) =~= data);
}

impl Memory {
    /// The bytes of the memory; empty for a view that is attached to none.
    pub closed spec fn view(&self) -> Seq<u8> {
        self.bytes@
    }

    /// Whether the view is attached to a memory.
    pub closed spec fn spec_attached(&self) -> bool {
        self.attached
    }

    /// Whether `len` bytes from `offset` all lie inside the memory.
    pub open spec fn spec_in_bounds(&self, offset: int, len: int) -> bool {
        self.spec_attached() && 0 <= offset && 0 <= len && offset + len <= self@.len()
    }

    /// A view of the memory that holds `bytes`.
    pub fn from_raw(bytes: Vec<u8>) -> (m: Memory)
        ensures
            m@ == bytes@,
            m.spec_attached(),
    {
        Memory { bytes, attached: true }
    }

    /// The view that is attached to no memory, for a caller that exports
    /// none.
    pub fn detached() -> (m: Memory)
        ensures
            m@.len() == 0,
            !m.spec_attached(),
    {
        Memory { bytes: Vec::new(), attached: false }
    }

    /// Gives the bytes back.
    pub fn into_raw(self) -> (bytes: Vec<u8>)
        ensures
            bytes@ == self@,
    {
        self.bytes
    }

    /// Whether the view is attached to a memory.
    pub fn is_attached(&self) -> (b: bool)
        ensures
            b == self.spec_attached(),
    {
        self.attached
    }

    /// Whether `len` bytes from `offset` all lie inside the memory.
    pub fn in_bounds(&self, offset: usize, len: usize) -> (b: bool)
        ensures
            b == self.spec_in_bounds(offset as int, len as int),
    {
        self.attached && offset <= self.bytes.len() && len <= self.bytes.len() - offset
    }

    /// The extent of the memory in whole pages, as far as 32 bits can count
    /// them.
    pub fn page_size(&self) -> (pages: u32)
        ensures
            self@.len() / (PAGE_BYTES as nat) <= u32::MAX ==> pages == self@.len() / (
            PAGE_BYTES as nat),
            self@.len() / (PAGE_BYTES as nat) > u32::MAX ==> pages == u32::MAX,
    {
        let pages: usize = self.bytes.len() / PAGE_BYTES;
        if pages > u32::MAX as usize {
            u32::MAX
        } else {
            pages as u32
        }
    }

    /// Copies `len` bytes out of the memory, or none at all.
    pub fn read_bytes(&self, offset: u32, len: u32) -> (r: Result<Vec<u8>, CoreError>)
        ensures
            r is Ok <==> self.spec_in_bounds(offset as int, len as int),
            r matches Ok(data) ==> data@ == self@.subrange(offset as int, offset + len),
            r matches Err(e) ==> e == CoreError::Execution(CoreExecutionError::MemoryOutOfBounds),
    {
        match self.data_pointer(offset as usize, len as usize) {
            Some(window) => Ok(vstd::slice::slice_to_vec(window)),
            None => Err(CoreError::Execution(CoreExecutionError::MemoryOutOfBounds)),
        }
    }

    /// Lays `data` over the memory from `start` on.
    fn store(&mut self, start: usize, data: &[u8])
        requires
            old(self).spec_in_bounds(start as int, data@.len() as int),
        ensures
            final(self)@ == overlay(old(self)@, start as int, data@),
            final(self).spec_attached() == old(self).spec_attached(),
    {
        let ghost before = self.bytes@;
        assert(before.len() == self.bytes.len());
        let mut i: usize = 0;
        while i < data.len()
            invariant
                i <= data@.len(),
                start + data@.len() <= before.len(),
                self.bytes@.len() == before.len(),
                before.len() <= usize::MAX,
                self.attached == old(self).attached,
                self.bytes@ == overlay(before, start as int, data@.subrange(0, i as int)),
            decreases data@.len() - i,
        {
            let byte: u8 = data[i];
            self.bytes[start + i] = byte;
            i += 1;
            assert(self.bytes@ =~= overlay(before, start as int, data@.subrange(0, i as int)));
        }
        assert(data@.subrange(0, i as int) =~= data@);
    }

    /// Copies `data` into the memory from `offset` on, or changes nothing.
    pub fn write_bytes(&mut self, data: &[u8], offset: u32) -> (r: Result<(), CoreError>)
        ensures
            r is Ok <==> old(self).spec_in_bounds(offset as int, data@.len() as int),
            r is Ok ==> final(self)@ == overlay(old(self)@, offset as int, data@),
            r matches Err(e) ==> e == CoreError::Execution(CoreExecutionError::MemoryOutOfBounds)
                && final(self)@ == old(self)@,
            final(self).spec_attached() == old(self).spec_attached(),
    {
        let start: usize = offset as usize;
        if !self.in_bounds(start, data.len()) {
            return Err(CoreError::Execution(CoreExecutionError::MemoryOutOfBounds));
        }
        self.store(start, data);
        Ok(())
    }

    /// The bytes from `offset` to `offset + len`, borrowed for reading.
    pub fn data_pointer<'a>(&'a self, offset: usize, len: usize) -> (r: Option<&'a [u8]>)
        ensures
            r is Some <==> self.spec_in_bounds(offset as int, len as int),
            r matches Some(window) ==> window@ == self@.subrange(offset as int, offset + len),
    {
        if self.in_bounds(offset, len) {
            assert(self@.len() == self.bytes.len());
            Some(slice_subrange(self.bytes.as_slice(), offset, offset + len))
        } else {
            None
        }
    }

    /// The bytes from `offset` to `offset + len`, borrowed for writing. What
    /// the caller writes through the borrow replaces those bytes and no
    /// others.
    pub fn data_pointer_mut<'a>(&'a mut self, offset: usize, len: usize) -> (r: Option<
        &'a mut [u8],
    >)
        ensures
            r is Some <==> old(self).spec_in_bounds(offset as int, len as int),
            r matches Some(window) ==> {
                &&& window@ == old(self)@.subrange(offset as int, offset + len)
                &&& final(self)@ == splice(old(self)@, offset as int, len as int, final(window)@)
            },
            r is None ==> final(self)@ == old(self)@,
            final(self).spec_attached() == old(self).spec_attached(),
    {
        if self.in_bounds(offset, len) {
            assert(self@.len() == self.bytes.len());
            let (_, rest) = self.bytes.as_mut_slice().split_at_mut(offset);
            let ghost tail = rest@;
            let (window, _) = rest.split_at_mut(len);
            assert(window@ =~= old(self)@.subrange(offset as int, offset + len));
            assert(tail.subrange(len as int, tail.len() as int) =~= old(self)@.subrange(
                offset + len,
                old(self)@.len() as int,
            ));
            Some(window)
        } else {
            None
        }
    }

    /// The bytes of the value of type `T` at `offset`, borrowed for reading:
    /// all of them or none.
    pub fn get_data<'a, T: Sized>(&'a self, offset: WasmPtr<T>) -> (r: Option<&'a [u8]>)
        ensures
            r is Some <==> self.spec_in_bounds(offset.0 as int, vstd::layout::size_of::<T>() as int),
            r matches Some(cell) ==> cell@ == self@.subrange(
                offset.0 as int,
                offset.0 + vstd::layout::size_of::<T>(),
            ),
    {
        let width: usize = core::mem::size_of::<T>();
        self.data_pointer(offset.0, width)
    }

    /// The bytes of `len` values of type `T` from `offset` on, borrowed for
    /// reading: all of them or none.
    pub fn get_slice<'a, T: Sized>(&'a self, offset: WasmPtr<T>, len: usize) -> (r: Option<
        &'a [u8],
    >)
        ensures
            r is Some <==> self.spec_in_bounds(
                offset.0 as int,
                vstd::layout::size_of::<T>() * len,
            ),
            r matches Some(cells) ==> cells@ == self@.subrange(
                offset.0 as int,
                offset.0 + vstd::layout::size_of::<T>() * len,
            ),
    {
        let width: usize = core::mem::size_of::<T>();
        assert(self@.len() == self.bytes.len());
        assert(0 <= width * len) by (nonlinear_arith)
            requires
                0 <= width,
                0 <= len,
        ;
        match width.checked_mul(len) {
            Some(total) => self.data_pointer(offset.0, total),
            None => None,
        }
    }

    /// The bytes of the value of type `T` at `offset`, borrowed for writing:
    /// all of them or none.
    pub fn mut_data<'a, T: Sized>(&'a mut self, offset: WasmPtr<T>) -> (r: Option<&'a mut [u8]>)
        ensures
            r is Some <==> old(self).spec_in_bounds(
                offset.0 as int,
                vstd::layout::size_of::<T>() as int,
            ),
            r matches Some(cell) ==> {
                &&& cell@ == old(self)@.subrange(
                    offset.0 as int,
                    offset.0 + vstd::layout::size_of::<T>(),
                )
                &&& final(self)@ == splice(
                    old(self)@,
                    offset.0 as int,
                    vstd::layout::size_of::<T>() as int,
                    final(cell)@,
                )
            },
            r is None ==> final(self)@ == old(self)@,
            final(self).spec_attached() == old(self).spec_attached(),
    {
        let width: usize = core::mem::size_of::<T>();
        self.data_pointer_mut(offset.0, width)
    }

    /// The bytes of `len` values of type `T` from `offset` on, borrowed for
    /// writing: all of them or none.
    pub fn mut_slice<'a, T: Sized>(&'a mut self, offset: WasmPtr<T>, len: usize) -> (r: Option<
        &'a mut [u8],
    >)
        ensures
            r is Some <==> old(self).spec_in_bounds(
                offset.0 as int,
                vstd::layout::size_of::<T>() * len,
            ),
            r matches Some(cells) ==> {
                &&& cells@ == old(self)@.subrange(
                    offset.0 as int,
                    offset.0 + vstd::layout::size_of::<T>() * len,
                )
                &&& final(self)@ == splice(
                    old(self)@,
                    offset.0 as int,
                    vstd::layout::size_of::<T>() * len,
                    final(cells)@,
                )
            },
            r is None ==> final(self)@ == old(self)@,
            final(self).spec_attached() == old(self).spec_attached(),
    {
        let width: usize = core::mem::size_of::<T>();
        assert(self@.len() == self.bytes.len());
        assert(0 <= width * len) by (nonlinear_arith)
            requires
                0 <= width,
                0 <= len,
        ;
        match width.checked_mul(len) {
            Some(total) => self.data_pointer_mut(offset.0, total),
            None => None,
        }
    }

    /// Writes the value of type `T` whose bytes are `data` at `offset`. The
    /// write happens whole or not at all: `data` must be exactly as long as
    /// a `T`, and all of its bytes must land inside the memory.
    pub fn write_data<T: Sized>(&mut self, offset: WasmPtr<T>, data: &[u8]) -> (r: Option<()>)
        ensures
            r is Some <==> data@.len() == vstd::layout::size_of::<T>() && old(self).spec_in_bounds(
                offset.0 as int,
                data@.len() as int,
            ),
            r is Some ==> final(self)@ == overlay(old(self)@, offset.0 as int, data@),
            r is None ==> final(self)@ == old(self)@,
            final(self).spec_attached() == old(self).spec_attached(),
    {
        let width: usize = core::mem::size_of::<T>();
        if data.len() != width || !self.in_bounds(offset.0, width) {
            return None;
        }
        self.store(offset.0, data);
        Some(())
    }

    /// Whether the memory can take `count` more pages: it must be attached,
    /// and the new extent must neither pass the largest extent of a linear
    /// memory nor what this machine can address.
    pub open spec fn spec_can_grow(&self, count: u32) -> bool {
        &&& self.spec_attached()
        &&& self@.len() + count * PAGE_BYTES <= MAX_BYTES
        &&& self@.len() + count * PAGE_BYTES <= usize::MAX
    }

    /// Adds `count` pages of zero bytes at the end, unless the memory cannot
    /// take them; then nothing changes. Growing borrows the view for
    /// writing, so no window into the memory is alive across it.
    pub fn grow(&mut self, count: u32) -> (r: Result<(), CoreError>)
        ensures
            r is Ok <==> old(self).spec_can_grow(count),
            r is Ok ==> final(self)@ == old(self)@ + Seq::new(
                (count * PAGE_BYTES) as nat,
                |i: int| 0u8,
            ),
            r matches Err(e) ==> e == CoreError::Execution(CoreExecutionError::MemoryOutOfBounds)
                && final(self)@ == old(self)@,
            final(self).spec_attached() == old(self).spec_attached(),
    {
        let extent: usize = self.bytes.len();
        assert(count * PAGE_BYTES <= 0xFFFF_FFFF * 0x1_0000) by (nonlinear_arith)
            requires
                count <= 0xFFFF_FFFF,
                PAGE_BYTES == 0x1_0000,
        ;
        let added: u64 = (count as u64) * (PAGE_BYTES as u64);
        if !self.attached || extent as u64 > MAX_BYTES || added > MAX_BYTES - extent as u64
            || added > (usize::MAX - extent) as u64 {
            return Err(CoreError::Execution(CoreExecutionError::MemoryOutOfBounds));
        }
        self.bytes.resize(extent + added as usize, 0u8);
        assert(self.bytes@ =~= old(self).bytes@ + Seq::new(
            (count * PAGE_BYTES) as nat,
            |i: int| 0u8,
        ));
        Ok(())
    }
}

} // verus!
