//! The per-open session: a growable byte buffer that every write appends to
//! and that release takes, once, and hands to finalization.
//!
//! A session is owned by whoever opened it. `&mut self` is the exclusive
//! access that the buffer needs: a driver that shares a session between
//! threads keeps it behind its own lock and holds the lock for each call.
//! Opening makes the session and release consumes it, so a closed session
//! cannot be written to: there is none.

use vstd::prelude::*;
use crate::finalize::{begin, begin_spec, Action, Finalization};

verus! {

/// The host could not provide the memory that an operation needed.
#[derive(Clone, Copy, Debug, PartialEq, Eq, Structural)]
pub enum ResourceError {
    OutOfMemory,
}

/// Device state: the bytes written since the session was opened.
#[derive(Debug)]
pub struct DevExecDevice {
    data: Vec<u8>,
}

impl View for DevExecDevice {
    type V = Seq<u8>;

    closed spec fn view(&self) -> Seq<u8> {
        self.data@
    }
}

/// The buffer after the chunks of `writes` were appended to `start`, one
/// successful write each, in order.
pub open spec fn buffer_after(start: Seq<u8>, writes: Seq<Seq<u8>>) -> Seq<u8>
    decreases writes.len(),
{
    if writes.len() == 0 {
        start
    } else {
        buffer_after(start, writes.drop_last()) + writes.last()
    }
}

/// The sum of the lengths of the chunks of `writes`.
pub open spec fn total_len(writes: Seq<Seq<u8>>) -> nat
    decreases writes.len(),
{
    if writes.len() == 0 {
        0
    } else {
        total_len(writes.drop_last()) + writes.last().len()
    }
}

impl DevExecDevice {
    /// Opens a session with an empty buffer.
    pub fn open() -> (device: DevExecDevice)
        ensures
            device@ == Seq::<u8>::empty(),
    {
        DevExecDevice { data: Vec::new() }
    }

    /// The number of bytes buffered so far.
    pub fn len(&self) -> (n: usize)
        ensures
            n == self@.len(),
    {
        self.data.len()
    }

    /// Appends `bytes` to the buffer and reports how many were consumed:
    /// all of them, or none when the memory for them cannot be had. An empty
    /// write needs no memory and always succeeds.
    pub fn write_iter(&mut self, bytes: &[u8]) -> (r: Result<usize, ResourceError>)
        ensures
            match r {
                Ok(n) => n == bytes@.len() && final(self)@ == old(self)@ + bytes@,
                Err(e) => e == ResourceError::OutOfMemory && final(self)@ == old(self)@,
            },
            bytes@.len() == 0 ==> r.is_ok(),
    {
        if bytes.len() == 0 {
            assert(self@ + bytes@ =~= self@);
            return Ok(0);
        }
        let reserved = self.data.try_reserve(bytes.len()).is_ok();
        self.append_reserved(bytes, reserved)
    }

    /// The second half of a write, after the attempt to reserve memory for
    /// `bytes`: appends them if `reserved`, and reports exhaustion with the
    /// buffer untouched if not.
    pub fn append_reserved(&mut self, bytes: &[u8], reserved: bool) -> (r: Result<usize, ResourceError>)
        ensures
            reserved ==> r == Ok::<usize, ResourceError>(bytes@.len() as usize),
            reserved ==> final(self)@ == old(self)@ + bytes@,
            !reserved ==> r == Err::<usize, ResourceError>(ResourceError::OutOfMemory),
            !reserved ==> final(self)@ == old(self)@,
    {
        if reserved {
            self.data.extend_from_slice(bytes);
            assert(self.data@ =~= old(self).data@ + bytes@);
            Ok(bytes.len())
        } else {
            Err(ResourceError::OutOfMemory)
        }
    }

    /// Takes the buffer out of the session and leaves the session empty.
    pub fn take_buffer(&mut self) -> (taken: Vec<u8>)
        ensures
            taken@ == old(self)@,
            final(self)@ == Seq::<u8>::empty(),
    {
        let mut taken: Vec<u8> = Vec::new();
        core::mem::swap(&mut self.data, &mut taken);
        taken
    }

    /// Closes the session: takes its buffer and starts the finalization of
    /// what was in it. The session is gone whatever finalization comes to.
    pub fn release(self) -> (r: (Finalization, Action))
        ensures
            (r.0@, r.1@) == begin_spec(self@),
    {
        let mut device = self;
        let payload = device.take_buffer();
        begin(payload)
    }
}

/// Writes accumulate: after any sequence of successful writes to a fresh
/// session, the buffer holds the chunks concatenated in call order, and its
/// length is the sum of their lengths.
pub proof fn law_writes_accumulate(writes: Seq<Seq<u8>>)
    ensures
        buffer_after(Seq::<u8>::empty(), writes) == writes.flatten(),
        buffer_after(Seq::<u8>::empty(), writes).len() == total_len(writes),
    decreases writes.len(),
{
    writes.lemma_flatten_and_flatten_alt_are_equivalent();
    if writes.len() > 0 {
        law_writes_accumulate(writes.drop_last());
        writes.drop_last().lemma_flatten_and_flatten_alt_are_equivalent();
    }
}

} // verus!
