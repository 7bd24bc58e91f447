//! The framing buffer that holds the first bytes of the next message, and the search that
//! resynchronizes on `8=F` after a garbled message.

use vstd::prelude::*;
use crate::decode::spec_remaining;
use crate::error::{GarbledMessageType, SessionError};

verus! {

/// The length of the header buffer.
pub const PEEK_LEN: usize = 32;

/// A fixed-size buffer whose first `filled_len` bytes hold the start of the next message.
pub struct HeaderBuf<const N: usize> {
    inner: Vec<u8>,
    filled_len: usize,
}

impl<const N: usize> HeaderBuf<N> {
    /// The bytes held.
    pub closed spec fn spec_filled(&self) -> Seq<u8> {
        self.inner@.subrange(0, self.filled_len as int)
    }

    /// How many bytes are held.
    pub closed spec fn spec_filled_len(&self) -> nat {
        self.filled_len as nat
    }

    /// The whole backing store, held bytes first.
    pub closed spec fn spec_inner(&self) -> Seq<u8> {
        self.inner@
    }

    pub closed spec fn wf(&self) -> bool {
        self.filled_len <= self.inner@.len()
    }

    pub fn new() -> (r: Self)
        ensures
            r.wf(),
            r.spec_filled() == Seq::<u8>::empty(),
            r.spec_inner() == Seq::new(N as nat, |i: int| 0u8),
    {
        let mut inner: Vec<u8> = Vec::new();
        let mut i: usize = 0;
        while i < N
            invariant
                i <= N,
                inner@ == Seq::new(i as nat, |j: int| 0u8),
            decreases N - i,
        {
            inner.push(0);
            i = i + 1;
            proof {
                assert(inner@ =~= Seq::new(i as nat, |j: int| 0u8));
            }
        }
        let r = HeaderBuf { inner, filled_len: 0 };
        proof {
            assert(r.spec_filled() =~= Seq::<u8>::empty());
        }
        r
    }

    /// The free part of the buffer, to read into.
    pub fn unfilled_mut(&mut self) -> (r: &mut [u8])
        requires
            old(self).wf(),
        ensures
            r@ == old(self).spec_inner().subrange(old(self).spec_filled_len() as int, old(self).spec_inner().len() as int),
            final(self).wf(),
            final(self).spec_filled_len() == old(self).spec_filled_len(),
            final(self).spec_inner() == old(self).spec_inner().subrange(0, old(self).spec_filled_len() as int)
                + final(r)@,
    {
        let f = self.filled_len;
        let (_, tail) = self.inner.as_mut_slice().split_at_mut(f);
        tail
    }

    /// Counts `n` more bytes as held, up to the buffer's size.
    pub fn advance(&mut self, n: usize)
        requires
            old(self).wf(),
        ensures
            final(self).wf(),
            final(self).spec_inner() == old(self).spec_inner(),
            final(self).spec_filled_len() == if n >= old(self).spec_inner().len() - old(self).spec_filled_len() {
                old(self).spec_inner().len()
            } else {
                (old(self).spec_filled_len() + n) as nat
            },
    {
        if n >= self.inner.len() - self.filled_len {
            self.filled_len = self.inner.len();
        } else {
            self.filled_len = self.filled_len + n;
        }
    }

    pub fn clear(&mut self)
        requires
            old(self).wf(),
        ensures
            final(self).wf(),
            final(self).spec_inner() == old(self).spec_inner(),
            final(self).spec_filled() == Seq::<u8>::empty(),
    {
        self.filled_len = 0;
        proof {
            assert(self.spec_filled() =~= Seq::<u8>::empty());
        }
    }

    pub fn is_full(&self) -> (r: bool)
        requires
            self.wf(),
        ensures
            r == (self.spec_filled_len() == N),
    {
        self.filled_len == N
    }

    pub fn filled(&self) -> (r: &[u8])
        requires
            self.wf(),
        ensures
            r@ == self.spec_filled(),
    {
        let (head, _) = self.inner.as_slice().split_at(self.filled_len);
        head
    }

    /// Removes the first `n` held bytes (all of them when fewer are held) and returns them;
    /// the rest move to the front.
    pub fn take(&mut self, n: usize) -> (r: Vec<u8>)
        requires
            old(self).wf(),
        ensures
            final(self).wf(),
            r@ == old(self).spec_filled().subrange(0, if n < old(self).spec_filled_len() { n as int } else { old(self).spec_filled_len() as int }),
            final(self).spec_filled() == old(self).spec_filled().subrange(
                if n < old(self).spec_filled_len() { n as int } else { old(self).spec_filled_len() as int },
                old(self).spec_filled_len() as int,
            ),
            final(self).spec_inner() == old(self).spec_inner().subrange(
                if n < old(self).spec_filled_len() { n as int } else { old(self).spec_filled_len() as int },
                old(self).spec_inner().len() as int,
            ) + old(self).spec_inner().subrange(0, if n < old(self).spec_filled_len() { n as int } else { old(self).spec_filled_len() as int }),
    {
        let n = if n < self.filled_len {
            n
        } else {
            self.filled_len
        };
        let mut taken: Vec<u8> = Vec::new();
        let mut rest: Vec<u8> = Vec::new();
        let mut i: usize = 0;
        let len = self.inner.len();
        while i < len
            invariant
                i <= len,
                n <= self.filled_len <= len,
                self.inner@.len() == len,
                i <= n ==> taken@ == self.inner@.subrange(0, i as int),
                i > n ==> taken@ == self.inner@.subrange(0, n as int),
                i <= n ==> rest@ == Seq::<u8>::empty(),
                i > n ==> rest@ == self.inner@.subrange(n as int, i as int),
            decreases len - i,
        {
            if i < n {
                taken.push(self.inner[i]);
            } else {
                rest.push(self.inner[i]);
            }
            i = i + 1;
            proof {
                if i <= n {
                    assert(taken@ =~= self.inner@.subrange(0, i as int));
                } else {
                    assert(taken@ =~= self.inner@.subrange(0, n as int));
                    assert(rest@ =~= self.inner@.subrange(n as int, i as int));
                }
            }
        }
        let ghost old_inner = self.inner@;
        let mut t2 = vstd::slice::slice_to_vec(taken.as_slice());
        rest.append(&mut t2);
        self.inner = rest;
        self.filled_len = self.filled_len - n;
        proof {
            if n == len {
                assert(taken@ =~= old_inner.subrange(0, n as int));
            }
            assert(self.inner@ =~= old_inner.subrange(n as int, len as int) + old_inner.subrange(0, n as int));
            assert(self.spec_filled() =~= old_inner.subrange(0, (self.filled_len + n) as int).subrange(n as int, (self.filled_len + n) as int));
        }
        taken
    }
}

/// The start of the longest prefix of `target` (of at most `k` bytes) that ends `buf`.
pub open spec fn partial_match_from(buf: Seq<u8>, target: Seq<u8>, k: int) -> Option<int>
    decreases k,
{
    if k <= 0 {
        None
    } else if buf.subrange(buf.len() - k, buf.len() as int) == target.subrange(0, k) {
        Some(buf.len() - k)
    } else {
        partial_match_from(buf, target, k - 1)
    }
}

pub open spec fn spec_partial_match_in_suffix(buf: Seq<u8>, target: Seq<u8>) -> Option<int> {
    partial_match_from(buf, target, if target.len() < buf.len() { target.len() as int } else { buf.len() as int })
}

pub(crate) fn slices_eq(a: &[u8], a_start: usize, b: &[u8], b_start: usize, len: usize) -> (r: bool)
    requires
        a_start + len <= a@.len(),
        b_start + len <= b@.len(),
    ensures
        r == (a@.subrange(a_start as int, a_start + len) == b@.subrange(b_start as int, b_start + len)),
{
    let mut i: usize = 0;
    let alen = a.len();
    let blen = b.len();
    while i < len
        invariant
            i <= len,
            alen == a@.len(),
            blen == b@.len(),
            a_start + len <= a@.len(),
            b_start + len <= b@.len(),
            a@.subrange(a_start as int, a_start + i) == b@.subrange(b_start as int, b_start + i),
        decreases len - i,
    {
        if a[a_start + i] != b[b_start + i] {
            proof {
                assert(a@.subrange(a_start as int, a_start + len)[i as int] != b@.subrange(b_start as int, b_start + len)[i as int]);
            }
            return false;
        }
        proof {
            assert(a@.subrange(a_start as int, a_start + i + 1) =~= a@.subrange(a_start as int, a_start + i).push(a@[a_start + i]));
            assert(b@.subrange(b_start as int, b_start + i + 1) =~= b@.subrange(b_start as int, b_start + i).push(b@[b_start + i]));
        }
        i = i + 1;
    }
    true
}

/// Where the longest prefix of `target` that is also a suffix of `buf` starts, if any.
pub fn partial_match_in_suffix(buf: &[u8], target: &[u8]) -> (r: Option<usize>)
    ensures
        match spec_partial_match_in_suffix(buf@, target@) {
            Some(i) => r == Some(i as usize),
            None => r is None,
        },
{
    let mut k = if target.len() < buf.len() {
        target.len()
    } else {
        buf.len()
    };
    while k > 0
        invariant
            k <= buf@.len(),
            k <= target@.len(),
            spec_partial_match_in_suffix(buf@, target@) == partial_match_from(buf@, target@, k as int),
        decreases k,
    {
        let start = buf.len() - k;
        if slices_eq(buf, start, target, 0, k) {
            return Some(start);
        }
        k = k - 1;
    }
    None
}

/// The first position at or after `i` where `target` stands whole in `buf`.
pub open spec fn window_from(buf: Seq<u8>, target: Seq<u8>, i: int) -> Option<int>
    decreases buf.len() - i,
{
    if i < 0 || i >= buf.len() || i + target.len() > buf.len() {
        None
    } else if buf.subrange(i, i + target.len()) == target {
        Some(i)
    } else {
        window_from(buf, target, i + 1)
    }
}

pub open spec fn spec_position_or_partial_match(buf: Seq<u8>, target: Seq<u8>) -> Option<int> {
    match window_from(buf, target, 0) {
        Some(i) => Some(i),
        None => spec_partial_match_in_suffix(buf, target),
    }
}

/// Where `target` first stands whole in `buf`, else where a prefix of it ends `buf`.
pub fn position_or_partial_match(buf: &[u8], target: &[u8]) -> (r: Option<usize>)
    requires
        target@.len() > 0,
    ensures
        match spec_position_or_partial_match(buf@, target@) {
            Some(i) => r == Some(i as usize),
            None => r is None,
        },
{
    let mut i: usize = 0;
    while i < buf.len() && target.len() <= buf.len() - i
        invariant
            window_from(buf@, target@, 0) == window_from(buf@, target@, i as int),
            i <= buf@.len(),
        decreases buf.len() - i,
    {
        if slices_eq(buf, i, target, 0, target.len()) {
            proof {
                assert(target@.subrange(0, target@.len() as int) =~= target@);
            }
            return Some(i);
        }
        proof {
            assert(target@.subrange(0, target@.len() as int) =~= target@);
        }
        i = i + 1;
    }
    partial_match_in_suffix(buf, target)
}

/// `8=F`, how every message starts.
pub open spec fn message_beginning() -> Seq<u8> {
    seq![56u8, 61, 70]
}

impl<const N: usize> HeaderBuf<N> {
    /// Removes and returns the held bytes before where `target` (or a prefix of it at the end)
    /// stands; all of them when it stands nowhere.
    pub fn take_until_possible_match(&mut self, target: &[u8]) -> (r: Vec<u8>)
        requires
            old(self).wf(),
            target@.len() > 0,
        ensures
            final(self).wf(),
            ({
                let k = match spec_position_or_partial_match(old(self).spec_filled(), target@) {
                    Some(i) => i,
                    None => old(self).spec_filled().len() as int,
                };
                r@ == old(self).spec_filled().subrange(0, k) && final(self).spec_filled()
                    == old(self).spec_filled().subrange(k, old(self).spec_filled().len() as int)
            }),
    {
        let pos = position_or_partial_match(self.filled(), target);
        let n = match pos {
            Some(p) => p,
            None => self.filled_len,
        };
        proof {
            lemma_position_bound(self.spec_filled(), target@);
        }
        self.take(n)
    }

    /// Whether the held bytes start with `8=F`.
    pub fn starts_with_message_beginning(&self) -> (r: bool)
        requires
            self.wf(),
        ensures
            r == (self.spec_filled().len() >= 3 && self.spec_filled().subrange(0, 3) == message_beginning()),
    {
        let f = self.filled();
        if f.len() < 3 {
            return false;
        }
        let r = f[0] == 56 && f[1] == 61 && f[2] == 70;
        proof {
            if r {
                assert(f@.subrange(0, 3) =~= message_beginning());
            } else {
                if f@.subrange(0, 3) == message_beginning() {
                    assert(f@.subrange(0, 3)[0] == f@[0]);
                    assert(f@.subrange(0, 3)[1] == f@[1]);
                    assert(f@.subrange(0, 3)[2] == f@[2]);
                }
            }
        }
        r
    }

    /// One step of resynchronization after a garbled message: drops what cannot start a
    /// message and returns it, leaving `8=F` (or what may become it) at the front.
    pub fn skip_junk(&mut self) -> (r: Vec<u8>)
        requires
            old(self).wf(),
        ensures
            final(self).wf(),
            ({
                let k = match spec_position_or_partial_match(old(self).spec_filled(), message_beginning()) {
                    Some(i) => i,
                    None => old(self).spec_filled().len() as int,
                };
                r@ == old(self).spec_filled().subrange(0, k) && final(self).spec_filled()
                    == old(self).spec_filled().subrange(k, old(self).spec_filled().len() as int)
            }),
    {
        let target: Vec<u8> = vec![56u8, 61, 70];
        proof {
            assert(target@ =~= message_beginning());
        }
        self.take_until_possible_match(target.as_slice())
    }
}

proof fn lemma_partial_bound(buf: Seq<u8>, target: Seq<u8>, k: int)
    requires
        k <= buf.len(),
    ensures
        partial_match_from(buf, target, k) matches Some(i) ==> 0 <= buf.len() - k <= i <= buf.len(),
    decreases k,
{
    if k > 0 && buf.subrange(buf.len() - k, buf.len() as int) != target.subrange(0, k) {
        lemma_partial_bound(buf, target, k - 1);
    }
}

proof fn lemma_window_bound(buf: Seq<u8>, target: Seq<u8>, i: int)
    ensures
        window_from(buf, target, i) matches Some(j) ==> i <= j <= buf.len(),
    decreases buf.len() - i,
{
    if i >= 0 && i < buf.len() && i + target.len() <= buf.len() && buf.subrange(i, i + target.len()) != target {
        lemma_window_bound(buf, target, i + 1);
    }
}

proof fn lemma_position_bound(buf: Seq<u8>, target: Seq<u8>)
    ensures
        spec_position_or_partial_match(buf, target) matches Some(i) ==> 0 <= i <= buf.len(),
{
    lemma_window_bound(buf, target, 0);
    let k = if target.len() < buf.len() { target.len() as int } else { buf.len() as int };
    lemma_partial_bound(buf, target, k);
}

/// Where the framer resynchronizes after a garble: the next `8=F` after the first byte, else
/// where a start of `8=F` ends the bytes at hand, else their end.
pub open spec fn resync_point(stream: Seq<u8>) -> int {
    match window_from(stream, message_beginning(), 1) {
        Some(i) => i,
        None => match spec_partial_match_in_suffix(stream, message_beginning()) {
            Some(i) => if i >= 1 {
                i
            } else {
                stream.len() as int
            },
            None => stream.len() as int,
        },
    }
}

/// What the framer reads from `stream`, in order: each message (`Ok`) and each run of
/// discarded bytes (`Err`). It fills its 32-byte header buffer and reads the length the prefix
/// gives; it takes the message when the checksum field opens where that length says, and
/// otherwise drops those bytes. A prefix that does not read makes it drop bytes up to the next
/// `8=F`. It stops when fewer bytes are left than it needs.
pub open spec fn spec_frame(stream: Seq<u8>) -> Seq<Result<Seq<u8>, Seq<u8>>>
    decreases stream.len(),
{
    if stream.len() < 32 {
        Seq::empty()
    } else {
        let k = resync_point(stream);
        let junk = if 1 <= k <= stream.len() {
            seq![Err(stream.take(k))] + spec_frame(stream.skip(k))
        } else {
            Seq::empty()
        };
        match spec_remaining(stream.take(32)) {
            Ok(n) => {
                let total = 32 + n;
                if total > stream.len() {
                    Seq::empty()
                } else if stream[total - 7] == 49 && stream[total - 6] == 48 && stream[total - 5] == 61 {
                    seq![Ok(stream.take(total))] + spec_frame(stream.skip(total))
                } else {
                    seq![Err(stream.take(total))] + spec_frame(stream.skip(total))
                }
            },
            Err(_) => junk,
        }
    }
}

pub open spec fn item_bytes(item: Result<Seq<u8>, Seq<u8>>) -> Seq<u8> {
    match item {
        Ok(m) => m,
        Err(j) => j,
    }
}

/// One decision of the framer on the bytes at hand.
#[derive(Debug)]
pub enum FrameStep {
    /// More bytes are needed before anything can be decided.
    NeedMore,
    /// The first bytes form a message of this length.
    Message(usize),
    /// The first bytes of this length are garble, for the reason given.
    Garbled(usize, SessionError),
}

fn find_message_beginning(stream: &[u8]) -> (r: Option<usize>)
    ensures
        match window_from(stream@, message_beginning(), 1) {
            Some(i) => r == Some(i as usize),
            None => r is None,
        },
{
    let target: Vec<u8> = vec![56u8, 61, 70];
    proof {
        assert(target@ =~= message_beginning());
    }
    let n = stream.len();
    if n == 0 {
        return None;
    }
    let mut i: usize = 1;
    while i < n && n - i >= 3
        invariant
            1 <= i <= n,
            n == stream@.len(),
            target@ == message_beginning(),
            window_from(stream@, message_beginning(), 1) == window_from(stream@, message_beginning(), i as int),
        decreases n - i,
    {
        if slices_eq(stream, i, target.as_slice(), 0, 3) {
            proof {
                assert(target@.subrange(0, 3) =~= target@);
            }
            return Some(i);
        }
        proof {
            assert(target@.subrange(0, 3) =~= target@);
        }
        i = i + 1;
    }
    None
}

/// Decides what the bytes at hand start with: a whole message, a run of garble to drop (up to
/// where the next message may begin), or nothing yet. The decision is the first item of
/// [`spec_frame`], which reads the rest after it.
pub fn frame_next(stream: &[u8]) -> (r: FrameStep)
    ensures
        match r {
            FrameStep::NeedMore => spec_frame(stream@) == Seq::<Result<Seq<u8>, Seq<u8>>>::empty(),
            FrameStep::Message(n) => 0 < n <= stream@.len() && spec_frame(stream@) == seq![
                Ok::<Seq<u8>, Seq<u8>>(stream@.take(n as int)),
            ] + spec_frame(stream@.skip(n as int)),
            FrameStep::Garbled(n, e) => 0 < n <= stream@.len() && spec_frame(stream@) == seq![
                Err::<Seq<u8>, Seq<u8>>(stream@.take(n as int)),
            ] + spec_frame(stream@.skip(n as int)) && e is GarbledMessage,
        },
{
    let len = stream.len();
    if len < 32 {
        proof {
            assert(stream@.len() < 32);
            assert(spec_frame(stream@) == Seq::<Result<Seq<u8>, Seq<u8>>>::empty());
        }
        return FrameStep::NeedMore;
    }
    let head = &stream[0..32];
    proof {
        assert(head@ =~= stream@.take(32));
    }
    match crate::decode::parse_header(head) {
        Ok(rem) => {
            if rem > len - 32 {
                proof {
                    assert(spec_remaining(stream@.take(32)) == Ok::<int, GarbledMessageType>(rem as int));
                }
                return FrameStep::NeedMore;
            }
            let total = 32 + rem;
            if stream[total - 7] == 49 && stream[total - 6] == 48 && stream[total - 5] == 61 {
                FrameStep::Message(total)
            } else {
                FrameStep::Garbled(
                    total,
                    SessionError::new_garbled_message(
                        "BodyLength(9) was incorrect".to_owned(),
                        GarbledMessageType::BodyLengthIssue,
                    ),
                )
            }
        },
        Err(e) => {
            let target: Vec<u8> = vec![56u8, 61, 70];
            proof {
                assert(target@ =~= message_beginning());
                lemma_partial_bound(stream@, message_beginning(), 3);
            }
            let k = match find_message_beginning(stream) {
                Some(i) => i,
                None => match partial_match_in_suffix(stream, target.as_slice()) {
                    Some(i) => if i >= 1 {
                        i
                    } else {
                        len
                    },
                    None => len,
                },
            };
            proof {
                lemma_window_bound(stream@, message_beginning(), 1);
            }
            FrameStep::Garbled(k, e)
        },
    }
}
} // verus!
