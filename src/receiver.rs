//! The server side of one transfer: which local file a body goes to, how
//! much to read next, and when the body is over.
//!
//! The receiver makes the decisions; whoever drives it performs the reads
//! and writes. A driving loop reads while `wants_more` holds, at most
//! `next_read_len` bytes at a time, and hands every read, the empty one
//! that marks the peer's close included, to `record_read`.
use crate::error::TransferError;
use vstd::prelude::*;
use vstd::string::*;

verus! {

/// Size of the buffer a transfer reads and writes its body through.
pub const CHUNK_SIZE: usize = 65536;

/// What a receiver makes of a peer that closes its side before the
/// declared size has arrived.
#[derive(Debug, Clone, Copy, PartialEq, Eq, Structural)]
pub enum EarlyClose {
    /// Keep what arrived and finish the transfer without error.
    Truncate,
    /// Finish the transfer with `TransferError::TruncatedBody`.
    Fail,
}

/// The local name a received file is stored under: the received name,
/// used verbatim, after a fixed prefix.
pub open spec fn received_name_spec(name: Seq<char>) -> Seq<char> {
    "received-"@ + name
}

/// Local file name for a transfer that announced `name`.
pub fn received_file_name(name: &str) -> (r: String)
    ensures
        r@ == received_name_spec(name@),
{
    String::from_str("received-").concat(name)
}

/// How one read moves a receiver from `pre` to `post`: a non-empty read is
/// appended to the bytes accepted, an empty one marks the peer's close and
/// accepts nothing.
pub open spec fn read_step(pre: BodyReceiver, post: BodyReceiver, chunk: Seq<u8>) -> bool {
    &&& post.wf()
    &&& post.declared_size() == pre.declared_size()
    &&& post.close_policy() == pre.close_policy()
    &&& chunk.len() > 0 ==> {
        &&& post.received_bytes() == pre.received_bytes() + chunk
        &&& !post.peer_closed()
    }
    &&& chunk.len() == 0 ==> {
        &&& post.received_bytes() == pre.received_bytes()
        &&& post.peer_closed()
    }
}

/// However a body is split into reads, a receiver that starts empty and
/// takes those reads in order accepts exactly their concatenation: what is
/// stored is byte for byte what was sent, in the order it was sent.
pub proof fn lemma_reads_reassemble(states: Seq<BodyReceiver>, chunks: Seq<Seq<u8>>)
    requires
        states.len() == chunks.len() + 1,
        states[0].received_bytes() == Seq::<u8>::empty(),
        forall|i: int|
            0 <= i < chunks.len() ==> #[trigger] read_step(states[i], states[i + 1], chunks[i]),
    ensures
        states.last().received_bytes() == chunks.flatten(),
    decreases chunks.len(),
{
    if chunks.len() == 0 {
        assert(chunks.flatten() == Seq::<u8>::empty());
    } else {
        let n = chunks.len() - 1;
        let pre_states = states.subrange(0, n + 1);
        let pre_chunks = chunks.subrange(0, n);
        assert forall|i: int| 0 <= i < pre_chunks.len() implies #[trigger] read_step(
            pre_states[i],
            pre_states[i + 1],
            pre_chunks[i],
        ) by {
            assert(read_step(states[i], states[i + 1], chunks[i]));
        }
        lemma_reads_reassemble(pre_states, pre_chunks);
        assert(chunks =~= pre_chunks + seq![chunks[n]]);
        vstd::seq_lib::lemma_flatten_concat(pre_chunks, seq![chunks[n]]);
        seq![chunks[n]].lemma_flatten_one_element();
        assert(read_step(states[n], states[n + 1], chunks[n]));
        if chunks[n].len() == 0 {
            assert(chunks.flatten() =~= pre_chunks.flatten());
        }
    }
}

/// Progress of reading one body of a declared size from a stream.
pub struct BodyReceiver {
    size: u64,
    received: u64,
    closed: bool,
    policy: EarlyClose,
    body: Ghost<Seq<u8>>,
}

impl BodyReceiver {
    /// The size the header declared.
    pub closed spec fn declared_size(&self) -> nat {
        self.size as nat
    }

    /// Every byte accepted so far, in the order it arrived.
    pub closed spec fn received_bytes(&self) -> Seq<u8> {
        self.body@
    }

    /// Whether the peer has closed its side of the stream.
    pub closed spec fn peer_closed(&self) -> bool {
        self.closed
    }

    /// The policy for a close before the declared size.
    pub closed spec fn close_policy(&self) -> EarlyClose {
        self.policy
    }

    /// The receiver's invariant: no more bytes than declared, and the
    /// counter agrees with the bytes accepted.
    pub closed spec fn wf(&self) -> bool {
        &&& self.received <= self.size
        &&& self.body@.len() == self.received as nat
    }

    /// Whether the driving loop should read again.
    pub open spec fn wants_more_spec(&self) -> bool {
        !self.peer_closed() && self.received_bytes().len() < self.declared_size()
    }

    /// Starts reading a body of `size` bytes.
    pub fn new(size: u64, policy: EarlyClose) -> (r: Self)
        ensures
            r.wf(),
            r.declared_size() == size,
            r.received_bytes() == Seq::<u8>::empty(),
            !r.peer_closed(),
            r.close_policy() == policy,
    {
        BodyReceiver { size, received: 0, closed: false, policy, body: Ghost(Seq::empty()) }
    }

    /// Whether another read is needed: the peer is still sending and fewer
    /// than the declared bytes have arrived.
    pub fn wants_more(&self) -> (r: bool)
        requires
            self.wf(),
        ensures
            r == self.wants_more_spec(),
    {
        !self.closed && self.received < self.size
    }

    /// How many bytes the next read may take into a buffer of `buf_len`
    /// bytes: what is left of the body, but no more than the buffer holds.
    pub fn next_read_len(&self, buf_len: usize) -> (r: usize)
        requires
            self.wf(),
            self.wants_more_spec(),
            buf_len > 0,
        ensures
            r > 0,
            r <= buf_len,
            r == buf_len || r == self.declared_size() - self.received_bytes().len(),
            r <= self.declared_size() - self.received_bytes().len(),
    {
        let remaining = self.size - self.received;
        if remaining < buf_len as u64 {
            remaining as usize
        } else {
            buf_len
        }
    }

    /// Takes in what one read returned. An empty read means the peer closed
    /// its side: the body ends there, and the policy decides whether ending
    /// short is an error.
    pub fn record_read(&mut self, chunk: &[u8]) -> (r: Result<(), TransferError>)
        requires
            old(self).wf(),
            old(self).wants_more_spec(),
            chunk@.len() <= old(self).declared_size() - old(self).received_bytes().len(),
        ensures
            read_step(*old(self), *final(self), chunk@),
            chunk@.len() > 0 ==> r is Ok,
            chunk@.len() == 0 ==> {
                &&& !final(self).wants_more_spec()
                &&& final(self).received_bytes().len() < final(self).declared_size()
                &&& r == if old(self).close_policy() == EarlyClose::Fail {
                    Err::<(), TransferError>(TransferError::TruncatedBody)
                } else {
                    Ok::<(), TransferError>(())
                }
            },
    {
        let n = chunk.len();
        if n == 0 {
            self.closed = true;
            return match self.policy {
                EarlyClose::Fail => Err(TransferError::TruncatedBody),
                EarlyClose::Truncate => Ok(()),
            };
        }
        self.received = self.received + n as u64;
        self.body = Ghost(self.body@ + chunk@);
        Ok(())
    }

    /// Bytes accepted so far.
    pub fn received(&self) -> (r: u64)
        requires
            self.wf(),
        ensures
            r == self.received_bytes().len(),
    {
        self.received
    }

    /// The size the header declared.
    pub fn size(&self) -> (r: u64)
        ensures
            r == self.declared_size(),
    {
        self.size
    }

    /// Whether the whole declared body has arrived.
    pub fn is_complete(&self) -> (r: bool)
        requires
            self.wf(),
        ensures
            r == (self.received_bytes().len() == self.declared_size()),
    {
        self.received == self.size
    }
}

} // verus!
