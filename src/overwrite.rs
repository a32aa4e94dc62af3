//! The overwrite engine's plan: how a file of a given size is covered by
//! chunks of fresh random bytes, and where those bytes come from.
use vstd::prelude::*;
use rand_core::TryRngCore;
use crate::error::ShredError;

verus! {

/// The largest number of bytes written in one chunk.
pub const CHUNK_SIZE: usize = 8192;

/// The chunk lengths, in order, that cover `s` bytes: full chunks first,
/// then what remains.
pub open spec fn chunk_lens(s: nat) -> Seq<nat>
    decreases s,
{
    if s == 0 {
        seq![]
    } else if s <= CHUNK_SIZE {
        seq![s]
    } else {
        seq![CHUNK_SIZE as nat] + chunk_lens((s - CHUNK_SIZE) as nat)
    }
}

/// The total of a sequence of lengths.
pub open spec fn total_len(q: Seq<nat>) -> nat
    decreases q.len(),
{
    if q.len() == 0 {
        0
    } else {
        q[0] + total_len(q.drop_first())
    }
}

/// The size of the last chunk of a file of `s > 0` bytes.
pub open spec fn last_chunk_len(s: nat) -> nat {
    if s % (CHUNK_SIZE as nat) == 0 {
        CHUNK_SIZE as nat
    } else {
        s % (CHUNK_SIZE as nat)
    }
}

/// The chunks that cover `s` bytes add up to exactly `s`; none is empty or
/// larger than [`CHUNK_SIZE`]; the last is `s mod CHUNK_SIZE`, or a full
/// chunk when that is zero; and a file of zero bytes gets no chunk.
pub proof fn lemma_chunk_lens(s: nat)
    ensures
        total_len(chunk_lens(s)) == s,
        forall|i: int| 0 <= i < chunk_lens(s).len() ==> 0 < #[trigger] chunk_lens(s)[i] <= CHUNK_SIZE,
        s == 0 <==> chunk_lens(s).len() == 0,
        s > 0 ==> chunk_lens(s).last() == last_chunk_len(s),
    decreases s,
{
    if s > CHUNK_SIZE {
        let rest = (s - CHUNK_SIZE) as nat;
        lemma_chunk_lens(rest);
        let q = chunk_lens(s);
        assert(q.drop_first() =~= chunk_lens(rest));
        assert(total_len(q) == CHUNK_SIZE + total_len(chunk_lens(rest)));
        assert(rest % (CHUNK_SIZE as nat) == s % (CHUNK_SIZE as nat));
        assert forall|i: int| 0 <= i < q.len() implies 0 < #[trigger] q[i] <= CHUNK_SIZE by {
            if i > 0 {
                assert(q[i] == chunk_lens(rest)[i - 1]);
            }
        }
    } else if s > 0 {
        let q = chunk_lens(s);
        assert(q.drop_first() =~= Seq::<nat>::empty());
        assert(total_len(q.drop_first()) == 0);
    }
}

/// Walks through the chunks of one overwrite call. The file's size is taken
/// once, when the plan is made, and bounds every chunk that follows.
pub struct OverwritePlan {
    size: u64,
    remaining: u64,
    written: Ghost<Seq<nat>>,
}

impl OverwritePlan {
    /// The size snapshot the plan covers.
    pub closed spec fn size(&self) -> nat {
        self.size as nat
    }

    /// The bytes not yet written.
    pub closed spec fn remaining(&self) -> nat {
        self.remaining as nat
    }

    /// The chunk lengths written so far, in order.
    pub closed spec fn written(&self) -> Seq<nat> {
        self.written@
    }

    /// The chunks written so far, followed by those that cover the rest,
    /// are exactly the chunks that cover the whole size.
    pub open spec fn wf(&self) -> bool {
        &&& self.remaining() <= self.size()
        &&& self.written() + chunk_lens(self.remaining()) == chunk_lens(self.size())
    }

    /// A plan for a file of `size` bytes, nothing written yet.
    pub fn new(size: u64) -> (r: OverwritePlan)
        ensures
            r.wf(),
            r.size() == size,
            r.remaining() == size,
            r.written() == Seq::<nat>::empty(),
    {
        let r = OverwritePlan { size, remaining: size, written: Ghost(Seq::empty()) };
        assert(r.written() + chunk_lens(r.remaining()) =~= chunk_lens(r.size()));
        r
    }

    /// Whether every byte of the snapshot has been written; then the chunks
    /// written are exactly those that cover the size.
    pub fn is_complete(&self) -> (r: bool)
        requires
            self.wf(),
        ensures
            r == (self.remaining() == 0),
            r ==> self.written() == chunk_lens(self.size()),
    {
        proof {
            if self.remaining() == 0 {
                assert(self.written() + chunk_lens(0) =~= self.written());
            }
        }
        self.remaining == 0
    }

    /// Once a plan is complete, the chunks written add up to exactly the
    /// size snapshot, so the file keeps its length and every byte of it was
    /// written; none of the chunks exceeds [`CHUNK_SIZE`].
    pub proof fn lemma_complete_covers_size(&self)
        requires
            self.wf(),
            self.remaining() == 0,
        ensures
            total_len(self.written()) == self.size(),
            forall|i: int| 0 <= i < self.written().len() ==> 0 < #[trigger] self.written()[i] <= CHUNK_SIZE,
    {
        lemma_chunk_lens(self.size());
        assert(self.written() + chunk_lens(0) =~= self.written());
    }

    /// The length of the next chunk: a full chunk, or exactly what remains.
    pub fn next_chunk_len(&self) -> (r: usize)
        requires
            self.wf(),
            self.remaining() > 0,
        ensures
            r == chunk_lens(self.remaining())[0],
            0 < r <= CHUNK_SIZE,
            r <= self.remaining(),
    {
        if self.remaining <= CHUNK_SIZE as u64 {
            self.remaining as usize
        } else {
            CHUNK_SIZE
        }
    }

    /// Records a write of `written` bytes for the next chunk. Only a write of
    /// the whole chunk counts: a short one is refused (`false`) and leaves
    /// the plan as it was, so that the caller fails rather than retries.
    pub fn record_write(&mut self, written: usize) -> (r: bool)
        requires
            old(self).wf(),
            old(self).remaining() > 0,
        ensures
            r == (written == chunk_lens(old(self).remaining())[0]),
            final(self).wf(),
            final(self).size() == old(self).size(),
            r ==> final(self).remaining() == old(self).remaining() - written,
            r ==> final(self).written() == old(self).written().push(written as nat),
            !r ==> *final(self) == *old(self),
    {
        if written == self.next_chunk_len() {
            self.record_chunk(written);
            true
        } else {
            false
        }
    }

    /// Records that the next chunk, of length `len`, has been written.
    pub fn record_chunk(&mut self, len: usize)
        requires
            old(self).wf(),
            old(self).remaining() > 0,
            len == chunk_lens(old(self).remaining())[0],
        ensures
            final(self).wf(),
            final(self).size() == old(self).size(),
            final(self).remaining() == old(self).remaining() - len,
            final(self).written() == old(self).written().push(len as nat),
    {
        let ghost before = self.remaining();
        let ghost w = self.written();
        proof {
            if before > CHUNK_SIZE {
                assert(chunk_lens(before) =~= seq![len as nat] + chunk_lens((before - len) as nat));
            } else {
                assert(chunk_lens(before) =~= seq![len as nat] + chunk_lens(0));
            }
            assert(w.push(len as nat) + chunk_lens((before - len) as nat) =~= w + chunk_lens(before));
        }
        self.remaining = self.remaining - len as u64;
        self.written = Ghost(w.push(len as nat));
    }
}

#[verifier::external_type_specification]
#[verifier::external_body]
pub struct ExOsError(rand_core::OsError);

/// Relies on rand_core's `OsRng::try_fill_bytes` (that is, `getrandom::fill`):
/// it fills the slice with bytes from the operating system's secure random
/// source or reports an error; the buffer's length never changes, and an
/// empty buffer succeeds at once.
#[verifier::external_body]
fn os_fill(buf: &mut Vec<u8>) -> (r: Result<(), rand_core::OsError>)
    ensures
        final(buf)@.len() == old(buf)@.len(),
        old(buf)@.len() == 0 ==> r is Ok,
{
    rand_core::OsRng.try_fill_bytes(buf.as_mut_slice())
}

/// Makes `buf` the next chunk: `len` bytes freshly drawn from the secure
/// random source. The buffer is reused from chunk to chunk; every byte of it
/// is drawn again each time. A failing source is an error, never replaced
/// by a weaker one.
pub fn refill_chunk(buf: &mut Vec<u8>, len: usize) -> (r: Result<(), ShredError>)
    ensures
        final(buf)@.len() == len,
        len == 0 ==> r is Ok,
        r matches Err(e) ==> e is RandomSource,
{
    buf.clear();
    let mut i: usize = 0;
    while i < len
        invariant
            i <= len,
            buf@.len() == i,
        decreases len - i,
    {
        buf.push(0u8);
        i = i + 1;
    }
    match os_fill(buf) {
        Ok(()) => Ok(()),
        Err(_) => Err(ShredError::RandomSource),
    }
}

} // verus!
