//! A host-visible storage buffer of 32-bit words, the kind a compute
//! dispatch binds at descriptor (set 0, binding 0).
//!
//! The underlying GPU buffer cannot be declared to the verifier (its
//! type is generic over an outside trait), so it is held in a struct
//! that the verifier treats as opaque. Its contents are shared with the
//! device — a dispatch rewrites them — so no contract speaks of them;
//! only the word count, fixed at creation, is named and carried through
//! the contracts.

use vstd::prelude::*;

use std::sync::Arc;
use vulkano::buffer::{BufferUsage, CpuAccessibleBuffer};
use vulkano::device::Device;

use crate::errors::BufferError;

verus! {

/// A storage buffer of `u32` words, host-visible and device-shared.
/// The caller retains it across a dispatch and reads it back after the
/// returned fence has signalled; a host read before the fence signals
/// is refused while the device still holds the buffer, and observes
/// unspecified contents otherwise.
#[verifier::external_body]
pub struct WordBuffer {
    pub(crate) inner: Arc<CpuAccessibleBuffer<[u32]>>,
}

/// The number of 32-bit words the buffer was created with. The size of
/// a buffer never changes, so this is a function of the buffer alone.
pub uninterp spec fn word_buffer_len(b: WordBuffer) -> nat;

/// Relies on `CpuAccessibleBuffer::from_iter` with storage-buffer
/// usage: the buffer holds exactly the words of the iterator, in
/// order. The word list is checked to be non-empty before the call,
/// because buffer creation panics on size zero; the public constructor
/// below rejects the empty list first.
#[verifier::external_body]
fn word_buffer_from_words(device: &Arc<Device>, words: &Vec<u32>) -> (r: Result<
    WordBuffer,
    BufferError,
>)
    requires
        words@.len() > 0,
    ensures
        r matches Ok(b) ==> word_buffer_len(b) == words@.len(),
        r matches Err(e) ==> e == BufferError::BufferCreationFailed,
{
    if words.is_empty() {
        return Err(BufferError::BufferCreationFailed);
    }
    let usage = BufferUsage { storage_buffer: true, ..Default::default() };
    match CpuAccessibleBuffer::from_iter(device.clone(), usage, false, words.iter().copied()) {
        Ok(inner) => Ok(WordBuffer { inner }),
        Err(_) => Err(BufferError::BufferCreationFailed),
    }
}

/// Relies on `CpuAccessibleBuffer::read`: while the device holds the
/// buffer the lock is refused; otherwise the lock exposes all words of
/// the buffer, whatever the device left in them.
#[verifier::external_body]
fn word_buffer_read(b: &WordBuffer) -> (r: Result<Vec<u32>, BufferError>)
    ensures
        r matches Ok(v) ==> v@.len() == word_buffer_len(*b),
        r matches Err(e) ==> e == BufferError::BufferInUse,
{
    match b.inner.read() {
        Ok(lock) => Ok(lock.to_vec()),
        Err(_) => Err(BufferError::BufferInUse),
    }
}

impl WordBuffer {
    /// Creates a host-visible storage buffer holding exactly `words`,
    /// in order, on the given runtime's device. The empty word list is
    /// rejected: a GPU buffer cannot have size zero.
    pub fn from_words(device: &Arc<Device>, words: &Vec<u32>) -> (r: Result<
        WordBuffer,
        BufferError,
    >)
        ensures
            r matches Ok(b) ==> word_buffer_len(b) == words@.len() && words@.len() > 0,
            r matches Err(e) ==> e == BufferError::BufferCreationFailed,
            words@.len() == 0 ==> r is Err,
    {
        if words.len() == 0 {
            return Err(BufferError::BufferCreationFailed);
        }
        word_buffer_from_words(device, words)
    }

    /// Reads the whole buffer back to the host: one `u32` per word the
    /// buffer was created with. Refused with [`BufferError::BufferInUse`]
    /// while the device still holds the buffer — wait on the dispatch's
    /// fence first; what a read that races the device would observe is
    /// unspecified, and the buffer never changes its length.
    pub fn read_words(&self) -> (r: Result<Vec<u32>, BufferError>)
        ensures
            r matches Ok(v) ==> v@.len() == word_buffer_len(*self),
            r matches Err(e) ==> e == BufferError::BufferInUse,
    {
        word_buffer_read(self)
    }
}

} // verus!
