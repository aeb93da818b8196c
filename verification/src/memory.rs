//! Bounds-checked access to a sandbox's linear memory.
//!
//! The memory itself belongs to the engine. This module decides whether a
//! range requested by sandboxed code lies inside it, creates the memory with
//! checked limits, and copies bytes between host buffers and the region:
//! through the engine for its own memory, and directly where the caller
//! holds the region as a byte slice.

use crate::bridge::plain_store;
use vstd::prelude::*;
use wasmtime::{Limits, Memory, MemoryType, Store};

verus! {

/// Bytes in one page of linear memory.
pub const PAGE_SIZE: u64 = 65536;

/// The largest number of pages a linear memory may have.
pub const MAX_PAGES: u32 = 65536;

/// The engine's handle to one linear memory. Nothing is known of what it
/// holds: sandboxed code and other handles to the same memory change it.
#[verifier::external_type_specification]
#[verifier::external_body]
pub struct ExMemory(Memory);

/// The engine's store, in which memories and instances live.
#[verifier::external_type_specification]
#[verifier::external_body]
pub struct ExStore(Store);

/// Why a memory could not be created or a range could not be accessed.
#[derive(Clone, Copy, Debug, PartialEq, Eq, Structural)]
pub enum MemoryError {
    /// The initial page count exceeds the maximum, or the maximum exceeds
    /// what a linear memory can have.
    InvalidLimits { initial_pages: u32, max_pages: u32 },
    /// The range `[offset, offset + len)` does not lie inside a memory of
    /// `size` bytes.
    OutOfBounds { offset: u64, len: u64, size: u64 },
}

/// Whether the byte range `[offset, offset + len)` lies inside a region of
/// `size` bytes.
pub open spec fn range_fits(size: int, offset: int, len: int) -> bool {
    offset + len <= size
}

/// Whether a memory may be created with these page counts.
pub open spec fn limits_valid(initial_pages: u32, max_pages: u32) -> bool {
    initial_pages <= max_pages && max_pages <= MAX_PAGES
}

/// What the region holds after `buffer` was written at `offset`.
pub open spec fn written(data: Seq<u8>, offset: int, buffer: Seq<u8>) -> Seq<u8> {
    Seq::new(
        data.len(),
        |i: int|
            if offset <= i < offset + buffer.len() {
                buffer[i - offset]
            } else {
                data[i]
            },
    )
}

/// Decides whether `len` bytes starting at `offset` lie inside a memory of
/// `size` bytes. A range whose end cannot be represented in 64 bits never
/// fits.
pub fn fits(size: u64, offset: u64, len: u64) -> (r: bool)
    ensures
        r == range_fits(size as int, offset as int, len as int),
        offset + len > u64::MAX ==> !r,
{
    match offset.checked_add(len) {
        None => false,
        Some(end) => size >= end,
    }
}

/// Decides whether a memory may be created with these page counts.
pub fn check_limits(initial_pages: u32, max_pages: u32) -> (r: Result<(), MemoryError>)
    ensures
        r.is_ok() <==> limits_valid(initial_pages, max_pages),
        r.is_err() ==> r == Err::<(), MemoryError>(
            (MemoryError::InvalidLimits { initial_pages, max_pages }),
        ),
{
    if initial_pages <= max_pages && max_pages <= MAX_PAGES {
        Ok(())
    } else {
        Err(MemoryError::InvalidLimits { initial_pages, max_pages })
    }
}

/// Copies `buffer.len()` bytes of the region, starting at `offset`, into
/// `buffer`. The caller has checked that the range fits.
pub fn read_memory(data: &[u8], offset: u64, buffer: &mut [u8])
    requires
        range_fits(data@.len() as int, offset as int, old(buffer)@.len() as int),
    ensures
        final(buffer)@ == data@.subrange(offset as int, offset + old(buffer)@.len()),
{
    let size: usize = data.len();
    let len: usize = buffer.len();
    let start: usize = offset as usize;
    let mut i: usize = 0;
    while i < len
        invariant
            i <= len,
            len == buffer@.len(),
            len == old(buffer)@.len(),
            size == data@.len(),
            start == offset,
            start + len <= size,
            forall|j: int| 0 <= j < i ==> buffer@[j] == data@[start + j],
        decreases len - i,
    {
        buffer[i] = data[i + start];
        i += 1;
    }
    assert(buffer@ =~= data@.subrange(offset as int, offset + old(buffer)@.len()));
}

/// Reads the byte at `offset`. The caller has checked that it lies inside
/// the region.
pub fn read_memory_u8(data: &[u8], offset: u64) -> (r: u8)
    requires
        range_fits(data@.len() as int, offset as int, 1),
    ensures
        r == data@[offset as int],
{
    let size: usize = data.len();
    data[offset as usize]
}

/// Copies `buffer` into the region, starting at `offset`. The caller has
/// checked that the range fits. Bytes outside the range keep their value.
pub fn write_memory(data: &mut [u8], offset: u64, buffer: &[u8])
    requires
        range_fits(old(data)@.len() as int, offset as int, buffer@.len() as int),
    ensures
        final(data)@ == written(old(data)@, offset as int, buffer@),
{
    let size: usize = data.len();
    let len: usize = buffer.len();
    let start: usize = offset as usize;
    let mut i: usize = 0;
    while i < len
        invariant
            i <= len,
            len == buffer@.len(),
            size == data@.len(),
            size == old(data)@.len(),
            start == offset,
            start + len <= size,
            forall|j: int| 0 <= j < i ==> data@[start + j] == buffer@[j],
            forall|j: int|
                0 <= j < size && !(start <= j < start + i) ==> data@[j] == old(data)@[j],
        decreases len - i,
    {
        data[i + start] = buffer[i];
        i += 1;
    }
    assert(data@ =~= written(old(data)@, offset as int, buffer@));
}

/// Reads like [`read_memory`], after checking the range itself. A range
/// that does not fit is reported and `buffer` is left as it was.
pub fn try_read_memory(data: &[u8], offset: u64, buffer: &mut [u8]) -> (r: Result<
    (),
    MemoryError,
>)
    ensures
        r.is_ok() <==> range_fits(data@.len() as int, offset as int, old(buffer)@.len() as int),
        r.is_ok() ==> final(buffer)@ == data@.subrange(
            offset as int,
            offset + old(buffer)@.len(),
        ),
        r.is_err() ==> final(buffer)@ == old(buffer)@ && r == Err::<(), MemoryError>(
            (MemoryError::OutOfBounds {
                offset,
                len: old(buffer)@.len() as u64,
                size: data@.len() as u64,
            }),
        ),
{
    let size: u64 = data.len() as u64;
    let len: u64 = buffer.len() as u64;
    if fits(size, offset, len) {
        read_memory(data, offset, buffer);
        Ok(())
    } else {
        Err(MemoryError::OutOfBounds { offset, len, size })
    }
}

/// Reads like [`read_memory_u8`], after checking the offset itself.
pub fn try_read_memory_u8(data: &[u8], offset: u64) -> (r: Result<u8, MemoryError>)
    ensures
        r.is_ok() <==> offset < data@.len(),
        r.is_ok() ==> r == Ok::<u8, MemoryError>(data@[offset as int]),
        r.is_err() ==> r == Err::<u8, MemoryError>(
            (MemoryError::OutOfBounds { offset, len: 1, size: data@.len() as u64 }),
        ),
{
    let size: u64 = data.len() as u64;
    if fits(size, offset, 1) {
        Ok(read_memory_u8(data, offset))
    } else {
        Err(MemoryError::OutOfBounds { offset, len: 1, size })
    }
}

/// Writes like [`write_memory`], after checking the range itself. A range
/// that does not fit is reported and the region is left as it was.
pub fn try_write_memory(data: &mut [u8], offset: u64, buffer: &[u8]) -> (r: Result<
    (),
    MemoryError,
>)
    ensures
        r.is_ok() <==> range_fits(old(data)@.len() as int, offset as int, buffer@.len() as int),
        r.is_ok() ==> final(data)@ == written(old(data)@, offset as int, buffer@),
        r.is_err() ==> final(data)@ == old(data)@ && r == Err::<(), MemoryError>(
            (MemoryError::OutOfBounds {
                offset,
                len: buffer@.len() as u64,
                size: old(data)@.len() as u64,
            }),
        ),
{
    let size: u64 = data.len() as u64;
    let len: u64 = buffer.len() as u64;
    if fits(size, offset, len) {
        write_memory(data, offset, buffer);
        Ok(())
    } else {
        Err(MemoryError::OutOfBounds { offset, len, size })
    }
}

/// Reading back what was just written gives the written bytes, and the
/// region keeps its size.
pub proof fn lemma_read_after_write(data: Seq<u8>, offset: int, buffer: Seq<u8>)
    requires
        0 <= offset,
        range_fits(data.len() as int, offset, buffer.len() as int),
    ensures
        written(data, offset, buffer).len() == data.len(),
        written(data, offset, buffer).subrange(offset, offset + buffer.len()) == buffer,
{
    assert(written(data, offset, buffer).subrange(offset, offset + buffer.len()) =~= buffer);
}

/// A range that fits a memory still fits after the memory has grown, and a
/// range whose end lies past the largest 64-bit address fits no memory.
pub proof fn lemma_fits_bounds(size: u64, larger: u64, offset: u64, len: u64)
    requires
        size <= larger,
    ensures
        range_fits(size as int, offset as int, len as int) ==> range_fits(
            larger as int,
            offset as int,
            len as int,
        ),
        offset + len > u64::MAX ==> !range_fits(size as int, offset as int, len as int),
        range_fits(size as int, size as int - 1, 1),
        range_fits(size as int, size as int, 0),
        !range_fits(size as int, size as int, 1),
        !range_fits(size as int, size as int + 1, 0),
{
}

/// A linear memory of the engine, as the driver creates it for one
/// invocation and exports it to sandboxed code.
pub struct WasmtimeMemory(Memory);

/// The page limits that a memory was created with, as its minimum and its
/// maximum: what `wasmtime::Memory::ty` reports of it. They are fixed when
/// the memory is created and are the same for every handle to it.
pub uninterp spec fn declared_limits(memory: Memory) -> (u32, Option<u32>);

/// Whether the engine's own allocator manages the memory: it was created in
/// a store whose engine has no host memory allocator. Such a memory starts
/// at its minimum and never grows past its maximum.
pub uninterp spec fn engine_allocated(memory: Memory) -> bool;

/// The store in which a memory was created. It is fixed when the memory is
/// created and is the same for every handle to it.
pub uninterp spec fn memory_store(memory: Memory) -> Store;

/// Whether `size` is a whole number of pages.
pub open spec fn whole_pages(size: u64) -> bool {
    size as int % PAGE_SIZE as int == 0
}

/// Whether the minimum does not exceed the maximum, where there is one.
pub open spec fn ordered(limits: (u32, Option<u32>)) -> bool {
    limits.1 is Some ==> limits.0 <= limits.1->0
}

/// Whether a memory with these limits can have `size` bytes: a whole
/// number of pages, at least the minimum and at most the maximum.
pub open spec fn size_within(limits: (u32, Option<u32>), size: u64) -> bool {
    &&& whole_pages(size)
    &&& limits.0 as int * PAGE_SIZE as int <= size
    &&& limits.1 is Some ==> size <= limits.1->0 as int * PAGE_SIZE as int
}

/// Whether `answer` is what [`fits`] decides for the range in a memory of
/// some size that these limits allow.
pub open spec fn decided_within(
    limits: (u32, Option<u32>),
    answer: bool,
    offset: u64,
    len: u64,
) -> bool {
    exists|size: u64| #[trigger]
        size_within(limits, size) && answer == range_fits(size as int, offset as int, len as int)
}

/// Whether `error` reports the range as outside a memory of some size that
/// these limits allow, and the range indeed lies outside a memory of that
/// size.
pub open spec fn reported_within(
    limits: (u32, Option<u32>),
    error: MemoryError,
    offset: u64,
    len: u64,
) -> bool {
    exists|size: u64| #[trigger]
        size_within(limits, size) && !range_fits(size as int, offset as int, len as int)
            && error == (MemoryError::OutOfBounds { offset, len, size })
}

/// Whether the whole range lies inside the minimum of these limits, where
/// it is inside the memory whatever its current size.
pub open spec fn inside_minimum(limits: (u32, Option<u32>), offset: int, len: int) -> bool {
    offset + len <= limits.0 as int * PAGE_SIZE as int
}

/// Whether the range ends past the maximum of these limits, where it is
/// outside the memory whatever its current size.
pub open spec fn past_maximum(limits: (u32, Option<u32>), offset: int, len: int) -> bool {
    limits.1 is Some && offset + len > limits.1->0 as int * PAGE_SIZE as int
}

/// Calls `wasmtime::Memory::new` with a memory type of `initial_pages` to
/// `max_pages` pages, in a store whose engine allocates memories itself.
/// The engine aborts on page counts above the largest a memory can have, so
/// those are left out; it also aborts when the operating system refuses the
/// mapping, which no argument decides. The memory that comes back was
/// created with exactly these limits.
#[verifier::external_body]
fn allocate(store: &Store, initial_pages: u32, max_pages: u32) -> (r: Memory)
    requires
        plain_store(*store),
        initial_pages <= max_pages,
        max_pages <= MAX_PAGES,
    ensures
        declared_limits(r) == (initial_pages, Some(max_pages)),
        engine_allocated(r),
        memory_store(r) == *store,
{
    Memory::new(store, MemoryType::new(Limits::new(initial_pages, Some(max_pages))))
}

/// Calls `wasmtime::Memory::clone`: a second handle to the same memory, not
/// a copy of its bytes. The handle reports the limits of that memory.
#[verifier::external_body]
fn share(memory: &Memory) -> (r: Memory)
    ensures
        declared_limits(r) == declared_limits(*memory),
        engine_allocated(r) == engine_allocated(*memory),
        memory_store(r) == memory_store(*memory),
{
    memory.clone()
}

/// Calls `wasmtime::Memory::ty` and reads the minimum out of its limits:
/// the number of pages that the memory was created with.
#[verifier::external_body]
fn declared_minimum(memory: &Memory) -> (r: u32)
    ensures
        r == declared_limits(*memory).0,
{
    memory.ty().limits().min()
}

/// Calls `wasmtime::Memory::data_size`: the current length in bytes, which
/// the engine documents as a multiple of the page size. The length changes
/// when sandboxed code grows the memory, so two calls may differ; the
/// engine's allocator starts a memory at its minimum and refuses to grow it
/// past its maximum.
#[verifier::external_body]
fn byte_size(memory: &Memory) -> (r: usize)
    requires
        engine_allocated(*memory),
        ordered(declared_limits(*memory)),
    ensures
        size_within(declared_limits(*memory), r as u64),
{
    memory.data_size()
}

/// Calls `wasmtime::Memory::read` and tells whether it succeeded. The
/// engine copies into `buffer` exactly when the whole range lies inside the
/// memory at its current size; otherwise it reports a failure and leaves
/// `buffer` as it was. So a range inside the minimum is always read, and a
/// range that was read ends at or before the maximum.
#[verifier::external_body]
fn engine_read(memory: &Memory, offset: usize, buffer: &mut [u8]) -> (r: bool)
    requires
        engine_allocated(*memory),
        ordered(declared_limits(*memory)),
    ensures
        final(buffer)@.len() == old(buffer)@.len(),
        !r ==> final(buffer)@ == old(buffer)@,
        inside_minimum(declared_limits(*memory), offset as int, old(buffer)@.len() as int) ==> r,
        past_maximum(declared_limits(*memory), offset as int, old(buffer)@.len() as int) ==> !r,
{
    memory.read(offset, buffer).is_ok()
}

/// Calls `wasmtime::Memory::write` and tells whether it succeeded. The
/// engine writes exactly when the whole range lies inside the memory at its
/// current size. So a range inside the minimum is always written, and a
/// range that was written ends at or before the maximum.
#[verifier::external_body]
fn engine_write(memory: &Memory, offset: usize, buffer: &[u8]) -> (r: bool)
    requires
        engine_allocated(*memory),
        ordered(declared_limits(*memory)),
    ensures
        inside_minimum(declared_limits(*memory), offset as int, buffer@.len() as int) ==> r,
        past_maximum(declared_limits(*memory), offset as int, buffer@.len() as int) ==> !r,
{
    memory.write(offset, buffer).is_ok()
}

impl WasmtimeMemory {
    /// The engine's own allocator manages the memory, and its minimum does
    /// not exceed its maximum.
    #[verifier::type_invariant]
    spec fn well_formed(&self) -> bool {
        engine_allocated(self.0) && ordered(declared_limits(self.0))
    }

    /// The page limits that the memory was created with.
    pub closed spec fn limits(&self) -> (u32, Option<u32>) {
        declared_limits(self.0)
    }

    /// The store in which the memory was created.
    pub closed spec fn store(&self) -> Store {
        memory_store(self.0)
    }

    /// The smallest size the memory can have, in bytes: its minimum number
    /// of pages.
    fn floor_bytes(&self) -> (r: u64)
        ensures
            r == self.limits().0 as int * PAGE_SIZE as int,
            size_within(self.limits(), r),
    {
        proof {
            use_type_invariant(self);
        }
        let pages: u32 = declared_minimum(&self.0);
        assert(pages as int * 65536 <= 0xffff_ffff * 65536);
        assert((pages as int * 65536) % 65536 == 0) by (nonlinear_arith);
        pages as u64 * PAGE_SIZE
    }

    /// Creates a memory of `initial_memory_pages` pages that may grow to
    /// `max_memory_pages` pages, in a store whose engine allocates memories
    /// itself. Limits that no memory can have are rejected before the
    /// engine is asked.
    pub fn new(store: &Store, initial_memory_pages: u32, max_memory_pages: u32) -> (r: Result<
        Self,
        MemoryError,
    >)
        requires
            plain_store(*store),
        ensures
            r.is_ok() <==> limits_valid(initial_memory_pages, max_memory_pages),
            r is Err ==> r->Err_0 == (MemoryError::InvalidLimits {
                initial_pages: initial_memory_pages,
                max_pages: max_memory_pages,
            }),
            r is Ok ==> r->Ok_0.limits() == (initial_memory_pages, Some(max_memory_pages))
                && r->Ok_0.store() == *store,
    {
        match check_limits(initial_memory_pages, max_memory_pages) {
            Ok(()) => Ok(WasmtimeMemory(allocate(store, initial_memory_pages, max_memory_pages))),
            Err(e) => Err(e),
        }
    }

    /// Another handle to the same memory, for the import table. It reports
    /// the limits that this memory was created with.
    pub fn clone(&self) -> (r: Memory)
        ensures
            declared_limits(r) == self.limits(),
            engine_allocated(r),
            memory_store(r) == self.store(),
    {
        proof {
            use_type_invariant(self);
        }
        share(&self.0)
    }

    /// The current size of the memory in bytes, read anew on every call:
    /// a whole number of pages between the minimum and the maximum that the
    /// memory was created with.
    pub fn size_bytes(&self) -> (r: u64)
        ensures
            size_within(self.limits(), r),
            r <= usize::MAX,
    {
        proof {
            use_type_invariant(self);
        }
        byte_size(&self.0) as u64
    }

    /// Whether `len` bytes starting at `offset` lie inside the memory at its
    /// current size. The size is read from the engine on every call; the
    /// answer is what [`fits`] decides for that size, which lies within the
    /// limits of the memory. So a range inside the minimum always fits, and
    /// a range that ends past the maximum, or whose end cannot be
    /// represented in 64 bits, never does.
    pub fn fits_memory(&self, offset: u64, len: u64) -> (r: bool)
        ensures
            decided_within(self.limits(), r, offset, len),
            inside_minimum(self.limits(), offset as int, len as int) ==> r,
            past_maximum(self.limits(), offset as int, len as int) ==> !r,
            offset + len > u64::MAX ==> !r,
    {
        let size: u64 = self.size_bytes();
        let r = fits(size, offset, len);
        assert(size_within(self.limits(), size) && r == range_fits(
            size as int,
            offset as int,
            len as int,
        ));
        r
    }

    /// Copies `buffer.len()` bytes of the memory, starting at `offset`,
    /// into `buffer`. A range inside the minimum of the memory is always
    /// read. A range that does not fit the memory at its current size is
    /// reported with that size, and `buffer` is left as it was.
    pub fn read_memory(&self, offset: u64, buffer: &mut [u8]) -> (r: Result<(), MemoryError>)
        ensures
            final(buffer)@.len() == old(buffer)@.len(),
            inside_minimum(self.limits(), offset as int, old(buffer)@.len() as int) ==> r is Ok,
            past_maximum(self.limits(), offset as int, old(buffer)@.len() as int) ==> r is Err,
            offset + old(buffer)@.len() > u64::MAX ==> r is Err,
            r is Err ==> final(buffer)@ == old(buffer)@ && reported_within(
                self.limits(),
                r->Err_0,
                offset,
                old(buffer)@.len() as u64,
            ),
    {
        proof {
            use_type_invariant(self);
        }
        let len: u64 = buffer.len() as u64;
        let seen: u64 = self.size_bytes();
        // A range that the engine refuses although it fitted the size just
        // read lies outside the minimum, so it is reported against that.
        let size: u64 = if fits(seen, offset, len) {
            if engine_read(&self.0, offset as usize, buffer) {
                return Ok(());
            }
            self.floor_bytes()
        } else {
            seen
        };
        let error = MemoryError::OutOfBounds { offset, len, size };
        assert(size_within(self.limits(), size) && !range_fits(
            size as int,
            offset as int,
            len as int,
        ) && error == (MemoryError::OutOfBounds { offset, len, size }));
        Err(error)
    }

    /// Reads the byte at `offset`. An offset inside the minimum of the
    /// memory is always read; an offset outside the memory at its current
    /// size is reported with that size.
    pub fn read_memory_u8(&self, offset: u64) -> (r: Result<u8, MemoryError>)
        ensures
            inside_minimum(self.limits(), offset as int, 1) ==> r is Ok,
            past_maximum(self.limits(), offset as int, 1) ==> r is Err,
            offset == u64::MAX ==> r is Err,
            r is Err ==> reported_within(self.limits(), r->Err_0, offset, 1),
    {
        let mut byte: Vec<u8> = vec![0u8];
        match self.read_memory(offset, byte.as_mut_slice()) {
            Ok(()) => Ok(byte[0]),
            Err(e) => Err(e),
        }
    }

    /// Copies `buffer` into the memory, starting at `offset`. A range
    /// inside the minimum of the memory is always written. A range that
    /// does not fit the memory at its current size is reported with that
    /// size.
    pub fn write_memory(&mut self, offset: u64, buffer: &[u8]) -> (r: Result<(), MemoryError>)
        ensures
            final(self).limits() == old(self).limits(),
            inside_minimum(old(self).limits(), offset as int, buffer@.len() as int) ==> r is Ok,
            past_maximum(old(self).limits(), offset as int, buffer@.len() as int) ==> r is Err,
            offset + buffer@.len() > u64::MAX ==> r is Err,
            r is Err ==> reported_within(old(self).limits(), r->Err_0, offset, buffer@.len() as u64),
    {
        proof {
            use_type_invariant(&*self);
        }
        let len: u64 = buffer.len() as u64;
        let seen: u64 = self.size_bytes();
        // A range that the engine refuses although it fitted the size just
        // read lies outside the minimum, so it is reported against that.
        let size: u64 = if fits(seen, offset, len) {
            if engine_write(&self.0, offset as usize, buffer) {
                return Ok(());
            }
            self.floor_bytes()
        } else {
            seen
        };
        let error = MemoryError::OutOfBounds { offset, len, size };
        assert(size_within(self.limits(), size) && !range_fits(
            size as int,
            offset as int,
            len as int,
        ) && error == (MemoryError::OutOfBounds { offset, len, size }));
        Err(error)
    }
}

} // verus!
