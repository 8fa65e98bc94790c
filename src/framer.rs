//! Accumulates one request from a byte stream that marks its end with a NUL byte.
use vstd::prelude::*;

verus! {

/// Number of bytes the connection reads at a time.
pub const BUFFER_SIZE: usize = 128;

/// Largest request the framer accepts before giving up on the peer.
pub const MAX_REQUEST_BYTES: usize = 1048576;

/// The sentinel that ends a request on the wire.
pub const SENTINEL: u8 = 0;

/// What the framer knows after taking in one chunk.
#[derive(Clone, Copy, Debug, PartialEq, Eq, Structural)]
pub enum FrameStatus {
    /// The sentinel has not been seen yet: read again.
    More,
    /// The sentinel was seen: the buffer holds the whole request.
    Complete,
    /// The peer closed the connection before the sentinel arrived.
    Closed,
    /// The request grew past `MAX_REQUEST_BYTES` without a sentinel.
    TooLarge,
}

/// The bytes of `chunk` that come before its first sentinel (all of them when it has none).
pub open spec fn before_sentinel(chunk: Seq<u8>) -> Seq<u8>
    decreases chunk.len(),
{
    if chunk.len() == 0 {
        chunk
    } else if chunk[0] == SENTINEL {
        Seq::empty()
    } else {
        seq![chunk[0]] + before_sentinel(chunk.drop_first())
    }
}

/// Whether `chunk` holds a sentinel byte.
pub open spec fn has_sentinel(chunk: Seq<u8>) -> bool {
    exists|i: int| 0 <= i < chunk.len() && chunk[i] == SENTINEL
}

/// The request buffer of one connection.
pub struct Framer {
    buffer: Vec<u8>,
    status: FrameStatus,
}

impl Framer {
    /// The bytes received so far, without any sentinel.
    pub closed spec fn bytes(&self) -> Seq<u8> {
        self.buffer@
    }

    /// The state after the last chunk (`More` before any).
    pub closed spec fn state(&self) -> FrameStatus {
        self.status
    }

    /// An empty buffer waiting for its first chunk.
    pub fn new() -> (r: Framer)
        ensures
            r.bytes() == Seq::<u8>::empty(),
            r.state() == FrameStatus::More,
    {
        Framer { buffer: Vec::new(), status: FrameStatus::More }
    }

    /// Takes one chunk as read from the stream, together with the byte that follows
    /// it on the stream when one was already there to peek at. Bytes up to the first
    /// sentinel are kept; a sentinel in the chunk, or a sentinel right after it, ends
    /// the request. An empty chunk means that the peer has gone away.
    pub fn feed(&mut self, chunk: &[u8], lookahead: Option<u8>) -> (r: FrameStatus)
        requires
            old(self).state() == FrameStatus::More,
            old(self).bytes().len() <= MAX_REQUEST_BYTES,
        ensures
            r == final(self).state(),
            chunk@.len() == 0 ==> r == FrameStatus::Closed && final(self).bytes() == old(self).bytes(),
            chunk@.len() > 0 ==> final(self).bytes() == old(self).bytes() + before_sentinel(chunk@),
            chunk@.len() > 0 ==> (r == FrameStatus::Complete <==> (has_sentinel(chunk@)
                || lookahead == Some(SENTINEL))),
            chunk@.len() > 0 ==> (r == FrameStatus::TooLarge <==> (!has_sentinel(chunk@)
                && lookahead != Some(SENTINEL) && final(self).bytes().len() > MAX_REQUEST_BYTES)),
            r == FrameStatus::More ==> final(self).bytes().len() <= MAX_REQUEST_BYTES,
    {
        if chunk.len() == 0 {
            self.status = FrameStatus::Closed;
            return FrameStatus::Closed;
        }
        let ghost start = self.buffer@;
        let mut i: usize = 0;
        let mut seen = false;
        while i < chunk.len() && !seen
            invariant
                i <= chunk@.len(),
                start.len() <= MAX_REQUEST_BYTES,
                !seen ==> self.buffer@ == start + chunk@.subrange(0, i as int),
                !seen ==> forall|j: int| 0 <= j < i ==> chunk@[j] != SENTINEL,
                seen ==> self.buffer@ == start + before_sentinel(chunk@) && has_sentinel(chunk@),
                self.buffer@.len() <= start.len() + i,
            decreases chunk@.len() - i + (if seen { 0int } else { 1int }),
        {
            if chunk[i] == SENTINEL {
                proof {
                    lemma_before_first_sentinel(chunk@, i as int);
                }
                seen = true;
            } else {
                self.buffer.push(chunk[i]);
                i += 1;
                assert(chunk@.subrange(0, i as int) == chunk@.subrange(0, i - 1).push(chunk@[i - 1]));
            }
        }
        if !seen {
            assert(chunk@.subrange(0, chunk@.len() as int) == chunk@);
            proof {
                lemma_no_sentinel(chunk@);
            }
        }
        let status = if seen || lookahead == Some(SENTINEL) {
            FrameStatus::Complete
        } else if self.buffer.len() > MAX_REQUEST_BYTES {
            FrameStatus::TooLarge
        } else {
            FrameStatus::More
        };
        self.status = status;
        status
    }

    /// The bytes received so far.
    pub fn request(&self) -> (r: &Vec<u8>)
        ensures
            r@ == self.bytes(),
    {
        &self.buffer
    }
}

proof fn lemma_before_first_sentinel(chunk: Seq<u8>, i: int)
    requires
        0 <= i < chunk.len(),
        chunk[i] == SENTINEL,
        forall|j: int| 0 <= j < i ==> chunk[j] != SENTINEL,
    ensures
        before_sentinel(chunk) == chunk.subrange(0, i),
    decreases i,
{
    if i > 0 {
        lemma_before_first_sentinel(chunk.drop_first(), i - 1);
        assert(chunk.subrange(0, i) == seq![chunk[0]] + chunk.drop_first().subrange(0, i - 1));
    } else {
        assert(chunk.subrange(0, 0) =~= Seq::<u8>::empty());
    }
}

proof fn lemma_no_sentinel(chunk: Seq<u8>)
    requires
        forall|j: int| 0 <= j < chunk.len() ==> chunk[j] != SENTINEL,
    ensures
        before_sentinel(chunk) == chunk,
        !has_sentinel(chunk),
    decreases chunk.len(),
{
    if chunk.len() > 0 {
        lemma_no_sentinel(chunk.drop_first());
        assert(chunk == seq![chunk[0]] + chunk.drop_first());
    }
}

} // verus!
