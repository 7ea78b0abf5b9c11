//! Memory handed to plug-ins: each block starts with a header, padded to the
//! block alignment, in front of the bytes the plug-in asked for.

use vstd::prelude::*;

use crate::ofx_constants::{kOfxStatErrBadHandle, kOfxStatOK};

verus! {

/// Alignment of every block, in bytes.
pub const kBlockAlignment: usize = 16;

/// `size` rounded up to a multiple of `align`.
pub open spec fn round_up(size: int, align: int) -> int {
    if size % align == 0 {
        size
    } else {
        (size / align + 1) * align
    }
}

/// Whether a block of `size` bytes, rounded up to the block alignment, can be
/// described to the allocator.
pub open spec fn spec_layout_fits(size: int) -> bool {
    round_up(size, kBlockAlignment as int) <= isize::MAX
}

/// Calls `std::alloc::Layout::from_size_align` and tells whether it succeeds.
///
/// Trusted: as documented, it succeeds exactly when the alignment is a power
/// of two (16 is) and the size rounded up to the alignment does not exceed
/// `isize::MAX`.
#[verifier::external_body]
pub(crate) fn layout_fits(size: usize) -> (r: bool)
    ensures
        r == spec_layout_fits(size as int),
{
    std::alloc::Layout::from_size_align(size, kBlockAlignment).is_ok()
}

/// The room that a header of `header_size` bytes takes in front of a block:
/// the size rounded up to the block alignment.
pub fn header_padding(header_size: usize) -> (r: usize)
    requires
        header_size + kBlockAlignment <= usize::MAX,
    ensures
        r as int == round_up(header_size as int, kBlockAlignment as int),
        r % kBlockAlignment == 0,
        header_size <= r < header_size + kBlockAlignment,
{
    if header_size % kBlockAlignment == 0 {
        header_size
    } else {
        assert((header_size / 16 + 1) * 16 <= header_size + 16) by (nonlinear_arith);
        assert((header_size / 16 + 1) * 16 > header_size) by (nonlinear_arith);
        assert(((header_size / 16 + 1) * 16) % 16 == 0) by (nonlinear_arith);
        (header_size / kBlockAlignment + 1) * kBlockAlignment
    }
}

/// What to do on a request for a block of `n_bytes` behind a header that takes `padding`.
pub enum AllocDecision {
    /// Refuse the request without touching the output handle.
    Refuse,
    /// The block cannot be described to the allocator: fail, clearing the output handle.
    TooLarge,
    /// Allocate a block of this many bytes in all.
    Allocate(usize),
}

/// The decision on a request for `n_bytes`: an empty request is refused.
pub open spec fn spec_alloc_decision(n_bytes: int, padding: int) -> AllocDecision {
    if n_bytes == 0 {
        AllocDecision::Refuse
    } else if spec_layout_fits(padding + n_bytes) {
        AllocDecision::Allocate((padding + n_bytes) as usize)
    } else {
        AllocDecision::TooLarge
    }
}

/// The decision on a request for `n_bytes` behind a header that takes `padding`.
pub fn alloc_decision(n_bytes: usize, padding: usize) -> (r: AllocDecision)
    requires
        padding + n_bytes <= usize::MAX,
    ensures
        r == spec_alloc_decision(n_bytes as int, padding as int),
{
    if n_bytes == 0 {
        return AllocDecision::Refuse;
    }
    let total = padding + n_bytes;
    if layout_fits(total) {
        AllocDecision::Allocate(total)
    } else {
        AllocDecision::TooLarge
    }
}

/// The status of freeing a block of `total_size` bytes: it is released only
/// when its size can be described to the allocator, else the handle is bad.
pub open spec fn spec_release_status(total_size: int) -> i32 {
    if spec_layout_fits(total_size) {
        kOfxStatOK
    } else {
        kOfxStatErrBadHandle
    }
}

/// The status of freeing a block of `total_size` bytes.
fn release_status(total_size: usize) -> (status: i32)
    ensures
        status == spec_release_status(total_size as int),
{
    if layout_fits(total_size) {
        kOfxStatOK
    } else {
        kOfxStatErrBadHandle
    }
}

/// The header in front of a block of plain memory.
pub struct MemoryHeader {
    pub total_size: usize,
}

impl MemoryHeader {
    /// The header of a block of `total_size` bytes.
    pub fn new(total_size: usize) -> (r: MemoryHeader)
        ensures
            r.total_size == total_size,
    {
        MemoryHeader { total_size }
    }

    /// The status of freeing this block.
    pub fn release_status(&self) -> (status: i32)
        ensures
            status == spec_release_status(self.total_size as int),
    {
        release_status(self.total_size)
    }
}

/// The header in front of a block of image memory: its size and how many
/// locks are held on it.
pub struct ImageMemoryHeader {
    pub total_size: usize,
    pub lock_count: usize,
}

impl ImageMemoryHeader {
    /// The header after one more lock.
    pub open spec fn spec_lock(self) -> ImageMemoryHeader {
        ImageMemoryHeader { lock_count: (self.lock_count + 1) as usize, ..self }
    }

    /// The header after one lock is released; the count does not go below zero.
    pub open spec fn spec_unlock(self) -> ImageMemoryHeader {
        ImageMemoryHeader {
            lock_count: if self.lock_count > 0 {
                (self.lock_count - 1) as usize
            } else {
                0
            },
            ..self
        }
    }

    /// The header of a new, unlocked block of `total_size` bytes.
    pub fn new(total_size: usize) -> (r: ImageMemoryHeader)
        ensures
            r.total_size == total_size,
            r.lock_count == 0,
    {
        ImageMemoryHeader { total_size, lock_count: 0 }
    }

    /// Takes one more lock on the block.
    pub fn lock(&mut self)
        requires
            old(self).lock_count < usize::MAX,
        ensures
            *final(self) == old(self).spec_lock(),
    {
        self.lock_count = self.lock_count + 1;
    }

    /// Releases one lock on the block; a block with no locks stays unlocked.
    pub fn unlock(&mut self)
        ensures
            *final(self) == old(self).spec_unlock(),
    {
        if self.lock_count > 0 {
            self.lock_count = self.lock_count - 1;
        }
    }

    /// The status of freeing this block, whatever locks are held on it.
    pub fn release_status(&self) -> (status: i32)
        ensures
            status == spec_release_status(self.total_size as int),
    {
        release_status(self.total_size)
    }
}

/// Releasing a lock undoes taking it.
pub proof fn law_unlock_undoes_lock(h: ImageMemoryHeader)
    requires
        h.lock_count < usize::MAX,
    ensures
        h.spec_lock().spec_unlock() == h,
{
}

/// Releasing a lock on an unlocked block leaves it unlocked.
pub proof fn law_unlock_of_unlocked(h: ImageMemoryHeader)
    requires
        h.lock_count == 0,
    ensures
        h.spec_unlock() == h,
{
}

/// Each lock taken adds exactly one to the count of locks held, and each
/// lock released takes exactly one away, down to none.
pub proof fn law_locks_count_one_each(h: ImageMemoryHeader)
    ensures
        h.lock_count < usize::MAX ==> h.spec_lock().lock_count == h.lock_count + 1,
        h.lock_count > 0 ==> h.spec_unlock().lock_count == h.lock_count - 1,
        h.lock_count == 0 ==> h.spec_unlock().lock_count == 0,
{
}

/// Locking and unlocking never change the size of the block.
pub proof fn law_locks_keep_size(h: ImageMemoryHeader)
    ensures
        h.spec_unlock().total_size == h.total_size,
        h.lock_count < usize::MAX ==> h.spec_lock().total_size == h.total_size,
{
}

/// A request for no bytes is refused; any other request whose block (header
/// and all the requested bytes) the allocator can describe is allocated, and
/// the block it allocates is exactly the header's padding plus every byte
/// that was asked for, so the plug-in's part after the header is as long as
/// the request.
pub proof fn law_allocation_holds_header_and_request(n_bytes: usize, padding: usize)
    requires
        padding + n_bytes <= usize::MAX,
    ensures
        (spec_alloc_decision(n_bytes as int, padding as int) is Refuse) <==> n_bytes == 0,
        (spec_alloc_decision(n_bytes as int, padding as int) is Allocate) <==> (n_bytes != 0
            && spec_layout_fits(padding + n_bytes)),
        (spec_alloc_decision(n_bytes as int, padding as int) is TooLarge) <==> (n_bytes != 0
            && !spec_layout_fits(padding + n_bytes)),
        spec_alloc_decision(n_bytes as int, padding as int) is Allocate ==> {
            &&& spec_alloc_decision(n_bytes as int, padding as int)->Allocate_0 == padding + n_bytes
            &&& spec_alloc_decision(n_bytes as int, padding as int)->Allocate_0 - padding == n_bytes
            &&& spec_alloc_decision(n_bytes as int, padding as int)->Allocate_0 > padding
        },
{
}

/// A block that an allocation decided on is freed successfully: the size
/// that the decision gives is one the allocator accepts.
pub proof fn law_free_after_alloc(n_bytes: usize, padding: usize)
    requires
        padding + n_bytes <= usize::MAX,
        spec_alloc_decision(n_bytes as int, padding as int) is Allocate,
    ensures
        spec_release_status(
            spec_alloc_decision(n_bytes as int, padding as int)->Allocate_0 as int,
        ) == kOfxStatOK,
{
}

/// Image memory that an allocation decided on is freed successfully,
/// whatever locks are held on it.
pub proof fn law_free_image_memory_after_alloc(n_bytes: usize, padding: usize, h: ImageMemoryHeader)
    requires
        padding + n_bytes <= usize::MAX,
        spec_alloc_decision(n_bytes as int, padding as int) == AllocDecision::Allocate(h.total_size),
    ensures
        spec_release_status(h.total_size as int) == kOfxStatOK,
{
}

/// The operations of the memory suite.
pub struct MemorySuite;

/// The memory suite that the host hands to plug-ins.
pub fn memory_suite() -> (r: MemorySuite) {
    MemorySuite
}

impl MemorySuite {
    /// The decision on a request for `n_bytes` of plain memory behind a header
    /// that takes `padding`.
    pub fn memory_alloc(&self, n_bytes: usize, padding: usize) -> (r: AllocDecision)
        requires
            padding + n_bytes <= usize::MAX,
        ensures
            r == spec_alloc_decision(n_bytes as int, padding as int),
    {
        alloc_decision(n_bytes, padding)
    }

    /// The status of freeing the block behind `header`.
    pub fn memory_free(&self, header: &MemoryHeader) -> (status: i32)
        ensures
            status == spec_release_status(header.total_size as int),
    {
        header.release_status()
    }
}

} // verus!
