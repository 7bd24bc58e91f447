//! Rewriting a stored outbound message for retransmission: PossDupFlag, OrigSendingTime, a new
//! SendingTime, and BodyLength and CheckSum recomputed.

use vstd::prelude::*;
use crate::checksum::spec_checksum;
use crate::decode::{bytes_to_u32, parse_peeked_prefix, spec_bytes_to_u32, spec_peek, ParsedPeek};
use crate::encode::{spec_digits, three_digits, SerializedInt};
use crate::error::SessionError;

verus! {

/// `43=Y<SOH>`.
pub open spec fn poss_dup_flag_eq_y() -> Seq<u8> {
    seq![52u8, 51, 61, 89, 1]
}

/// The `43=Y<SOH>` field that marks a retransmission.
pub fn poss_dup_flag_field() -> (r: Vec<u8>)
    ensures
        r@ == poss_dup_flag_eq_y(),
{
    let r: Vec<u8> = vec![52u8, 51, 61, 89, 1];
    proof {
        assert(r@ =~= poss_dup_flag_eq_y());
    }
    r
}

/// `122=`.
pub open spec fn orig_sending_time_tag() -> Seq<u8> {
    seq![49u8, 50, 50, 61]
}

/// The first index `i >= k` (with `k >= 4`) where `msg[i-4..i]` is `<SOH>52=`.
pub open spec fn find_sending_time(msg: Seq<u8>, k: int) -> Option<int>
    decreases msg.len() - k,
{
    if k < 4 || k >= msg.len() {
        None
    } else if msg[k - 4] == 1 && msg[k - 3] == 53 && msg[k - 2] == 50 && msg[k - 1] == 61 {
        Some(k)
    } else {
        find_sending_time(msg, k + 1)
    }
}

/// The first SOH at or after `k`, if there is one.
pub open spec fn find_soh(msg: Seq<u8>, k: int) -> Option<int>
    decreases msg.len() - k,
{
    if k < 0 || k >= msg.len() {
        None
    } else if msg[k] == 1 {
        Some(k)
    } else {
        find_soh(msg, k + 1)
    }
}

/// Where the SendingTime value of `msg` starts and where the SOH after it stands.
pub open spec fn spec_sending_time_indices(msg: Seq<u8>) -> Option<(int, int)> {
    match find_sending_time(msg, 4) {
        Some(s) => match find_soh(msg, s) {
            Some(e) => Some((s, e)),
            None => None,
        },
        None => None,
    }
}

proof fn lemma_find_sending_time(msg: Seq<u8>, k: int)
    ensures
        find_sending_time(msg, k) matches Some(s) ==> k <= s < msg.len() && 4 <= s,
    decreases msg.len() - k,
{
    if k >= 4 && k < msg.len() && !(msg[k - 4] == 1 && msg[k - 3] == 53 && msg[k - 2] == 50 && msg[k - 1] == 61) {
        lemma_find_sending_time(msg, k + 1);
    }
}

proof fn lemma_find_soh(msg: Seq<u8>, k: int)
    ensures
        find_soh(msg, k) matches Some(e) ==> k <= e < msg.len() && msg[e] == 1,
    decreases msg.len() - k,
{
    if k >= 0 && k < msg.len() && msg[k] != 1 {
        lemma_find_soh(msg, k + 1);
    }
}

pub proof fn lemma_sending_time_bounds(msg: Seq<u8>)
    ensures
        spec_sending_time_indices(msg) matches Some((s, e)) ==> 4 <= s <= e < msg.len(),
{
    lemma_find_sending_time(msg, 4);
    if let Some(s) = find_sending_time(msg, 4) {
        lemma_find_soh(msg, s);
    }
}

/// Finds the SendingTime value of `msg`: where it starts and where the SOH after it stands.
pub fn sending_time_indices(msg: &[u8]) -> (r: Option<(usize, usize)>)
    ensures
        match spec_sending_time_indices(msg@) {
            Some((s, e)) => r == Some((s as usize, e as usize)),
            None => r is None,
        },
{
    let n = msg.len();
    if n < 5 {
        return None;
    }
    let mut i: usize = 4;
    while i < n && !(msg[i - 4] == 1 && msg[i - 3] == 53 && msg[i - 2] == 50 && msg[i - 1] == 61)
        invariant
            4 <= i <= n,
            n == msg@.len(),
            find_sending_time(msg@, 4) == find_sending_time(msg@, i as int),
        decreases n - i,
    {
        i = i + 1;
    }
    if i >= n {
        return None;
    }
    let start = i;
    let mut j = start;
    while j < n && msg[j] != 1
        invariant
            start <= j <= n,
            n == msg@.len(),
            find_soh(msg@, start as int) == find_soh(msg@, j as int),
        decreases n - j,
    {
        j = j + 1;
    }
    if j >= n {
        return None;
    }
    Some((start, j))
}

/// A stored message taken apart for retransmission.
pub struct Transformer {
    msg: Vec<u8>,
    len_start: usize,
    len_end: usize,
    sending_time_start: usize,
    sending_time_end: usize,
    fixed_fields_end: usize,
    poss_dup_at: usize,
    msg_type: char,
}

/// Where PossDupFlag goes in a stored message: after the MsgSeqNum field when it follows
/// MsgType, else right after MsgType.
pub open spec fn spec_poss_dup_at(msg: Seq<u8>, fixed_fields_end: int) -> int {
    if fixed_fields_end + 3 <= msg.len() && msg[fixed_fields_end] == 51 && msg[fixed_fields_end + 1]
        == 52 && msg[fixed_fields_end + 2] == 61 {
        match find_soh(msg, fixed_fields_end + 3) {
            Some(e) => e + 1,
            None => fixed_fields_end,
        }
    } else {
        fixed_fields_end
    }
}

pub proof fn lemma_poss_dup_at_bounds(msg: Seq<u8>, ffe: int)
    requires
        0 <= ffe <= msg.len(),
    ensures
        ffe <= spec_poss_dup_at(msg, ffe) <= msg.len(),
{
    lemma_find_soh(msg, ffe + 3);
}

/// Finds where PossDupFlag goes (see [`spec_poss_dup_at`]).
fn poss_dup_at(msg: &[u8], ffe: usize) -> (r: usize)
    requires
        ffe <= msg@.len(),
    ensures
        r == spec_poss_dup_at(msg@, ffe as int),
        ffe <= r <= msg@.len(),
{
    let n = msg.len();
    if ffe < n && n - ffe >= 3 && msg[ffe] == 51 && msg[ffe + 1] == 52 && msg[ffe + 2] == 61 {
        let mut j = ffe + 3;
        while j < n && msg[j] != 1
            invariant
                ffe + 3 <= j <= n,
                n == msg@.len(),
                find_soh(msg@, (ffe + 3) as int) == find_soh(msg@, j as int),
            decreases n - j,
        {
            j = j + 1;
        }
        if j < n {
            j + 1
        } else {
            ffe
        }
    } else {
        ffe
    }
}

/// Whether a stored message can be taken apart: its prefix reads, it has a SendingTime after
/// the fixed fields, and the SendingTime ends before the checksum field.
pub open spec fn spec_transformable(msg: Seq<u8>) -> bool {
    &&& spec_peek(msg) is Ok
    &&& spec_sending_time_indices(msg) is Some
    &&& msg.len() >= 7
    &&& spec_poss_dup_at(msg, spec_peek(msg)->Ok_0.fixed_fields_end as int) <= spec_sending_time_indices(msg)->Some_0.0
    &&& spec_sending_time_indices(msg)->Some_0.1 + 1 <= msg.len() - 7
}

/// The retransmission of `msg` sent at `time`, or `None` when its BodyLength cannot be read or
/// the new one does not fit in a `u32`.
pub open spec fn spec_transform(msg: Seq<u8>, time: Seq<u8>) -> Option<Seq<u8>> {
    let p = spec_peek(msg)->Ok_0;
    let (s, e) = spec_sending_time_indices(msg)->Some_0;
    match spec_bytes_to_u32(msg.subrange(p.len_start as int, p.len_end as int)) {
        Some(old_len) => if old_len + time.len() + 10 > u32::MAX {
            None
        } else {
            let head = msg.subrange(0, p.len_start as int) + spec_digits(
                (old_len + time.len() + 10) as nat,
            ) + seq![1u8] + msg.subrange(p.len_end + 1, spec_poss_dup_at(msg, p.fixed_fields_end as int))
                + poss_dup_flag_eq_y() + msg.subrange(spec_poss_dup_at(msg, p.fixed_fields_end as int), s) + time
                + seq![1u8] + orig_sending_time_tag() + msg.subrange(s, e) + seq![1u8]
                + msg.subrange(e + 1, msg.len() - 7);
            Some(head + seq![49u8, 48, 61] + three_digits(spec_checksum(head)) + seq![1u8])
        },
        None => None,
    }
}

impl Transformer {
    /// The stored message.
    pub closed spec fn message(&self) -> Seq<u8> {
        self.msg@
    }

    pub closed spec fn spec_msg_type(&self) -> char {
        self.msg_type
    }

    /// The MsgType of the stored message.
    pub fn msg_type(&self) -> (r: char)
        ensures
            r == self.spec_msg_type(),
    {
        self.msg_type
    }

    pub closed spec fn wf(&self) -> bool {
        &&& spec_transformable(self.msg@)
        &&& spec_peek(self.msg@) == Ok::<ParsedPeek, crate::error::GarbledMessageType>(
            ParsedPeek {
                msg_type: self.msg_type,
                msg_length: spec_peek(self.msg@)->Ok_0.msg_length,
                len_start: self.len_start,
                len_end: self.len_end,
                fixed_fields_end: self.fixed_fields_end,
                body_length: spec_peek(self.msg@)->Ok_0.body_length,
            },
        )
        &&& self.poss_dup_at == spec_poss_dup_at(self.msg@, self.fixed_fields_end as int)
        &&& spec_sending_time_indices(self.msg@) == Some(
            (self.sending_time_start as int, self.sending_time_end as int),
        )
    }

    /// Takes `msg` apart; a message that cannot be is a resend error.
    pub fn try_from_vec(msg: Vec<u8>) -> (r: Result<Transformer, SessionError>)
        ensures
            spec_transformable(msg@) ==> (r matches Ok(t) && t.wf() && t.message() == msg@
                && t.spec_msg_type() == spec_peek(msg@)->Ok_0.msg_type),
            !spec_transformable(msg@) ==> r is Err,
    {
        let peek = match parse_peeked_prefix(msg.as_slice()) {
            Ok(p) => p,
            Err(e) => {
                return Err(e);
            },
        };
        let (s, e) = match sending_time_indices(msg.as_slice()) {
            Some(v) => v,
            None => {
                return Err(SessionError::ResendError);
            },
        };
        proof {
            lemma_sending_time_bounds(msg@);
        }
        proof {
            crate::decode::lemma_peek_bounds(msg@);
        }
        let at = poss_dup_at(msg.as_slice(), peek.fixed_fields_end);
        if msg.len() < 7 || at > s || e + 1 > msg.len() - 7 {
            return Err(SessionError::ResendError);
        }
        Ok(
            Transformer {
                msg,
                len_start: peek.len_start,
                len_end: peek.len_end,
                sending_time_start: s,
                sending_time_end: e,
                fixed_fields_end: peek.fixed_fields_end,
                poss_dup_at: at,
                msg_type: peek.msg_type,
            },
        )
    }

    /// The SendingTime value of the stored message.
    pub fn original_sending_time(&self) -> (r: &[u8])
        requires
            self.wf(),
        ensures
            r@ == self.message().subrange(
                spec_sending_time_indices(self.message())->Some_0.0,
                spec_sending_time_indices(self.message())->Some_0.1,
            ),
    {
        proof {
            lemma_sending_time_bounds(self.msg@);
        }
        &self.msg.as_slice()[self.sending_time_start..self.sending_time_end]
    }

    /// Writes the retransmission with the SendingTime value `new_sending_time`.
    pub fn build(&self, new_sending_time: &[u8]) -> (r: Result<Vec<u8>, SessionError>)
        requires
            self.wf(),
        ensures
            match spec_transform(self.message(), new_sending_time@) {
                Some(m) => r matches Ok(v) && v@ == m,
                None => r == Err::<Vec<u8>, SessionError>(SessionError::ResendError),
            },
    {
        proof {
            crate::decode::lemma_peek_bounds(self.msg@);
            lemma_sending_time_bounds(self.msg@);
            lemma_poss_dup_at_bounds(self.msg@, self.fixed_fields_end as int);
        }
        let msg = self.msg.as_slice();
        let n = msg.len();
        let old_len = match bytes_to_u32(&msg[self.len_start..self.len_end]) {
            Some(v) => v,
            None => {
                return Err(SessionError::ResendError);
            },
        };
        let tl = new_sending_time.len();
        if tl > 0xffff_ffff - 10 || old_len as usize > 0xffff_ffff - 10 - tl {
            return Err(SessionError::ResendError);
        }
        let new_len = old_len + tl as u32 + 10;
        let digits = SerializedInt::from_u32(new_len);
        let mut w = crate::checksum::ChecksumWriter::new(Vec::new());
        proof {
            assert(w.running() == spec_checksum(w.bytes())) by {
                assert(w.bytes() =~= Seq::<u8>::empty());
            }
            assert(Seq::<u8>::empty() + msg@.subrange(0, self.len_start as int) =~= msg@.subrange(0, self.len_start as int));
        }
        let soh: Vec<u8> = vec![1u8];
        let pdf: Vec<u8> = vec![52u8, 51, 61, 89, 1];
        let ost: Vec<u8> = vec![49u8, 50, 50, 61];
        w.write(&msg[0..self.len_start]);
        w.write(digits.as_bytes());
        w.write(soh.as_slice());
        w.write(&msg[self.len_end + 1..self.poss_dup_at]);
        w.write(pdf.as_slice());
        w.write(&msg[self.poss_dup_at..self.sending_time_start]);
        w.write(new_sending_time);
        w.write(soh.as_slice());
        w.write(ost.as_slice());
        w.write(&msg[self.sending_time_start..self.sending_time_end]);
        w.write(soh.as_slice());
        w.write(&msg[self.sending_time_end + 1..n - 7]);
        let c = w.checksum();
        proof {
            assert(pdf@ =~= poss_dup_flag_eq_y());
            assert(ost@ =~= orig_sending_time_tag());
            let p = spec_peek(self.msg@)->Ok_0;
            let (s, e) = spec_sending_time_indices(self.msg@)->Some_0;
            let head = msg@.subrange(0, p.len_start as int) + spec_digits(
                (old_len + new_sending_time@.len() + 10) as nat,
            ) + seq![1u8] + msg@.subrange(p.len_end + 1, spec_poss_dup_at(msg@, p.fixed_fields_end as int))
                + poss_dup_flag_eq_y() + msg@.subrange(spec_poss_dup_at(msg@, p.fixed_fields_end as int), s) + new_sending_time@
                + seq![1u8] + orig_sending_time_tag() + msg@.subrange(s, e) + seq![1u8]
                + msg@.subrange(e + 1, msg@.len() - 7);
            assert(w.bytes() == head);
        }
        let tail: Vec<u8> = vec![
            49u8,
            48,
            61,
            (48 + c / 100) as u8,
            (48 + (c / 10) % 10) as u8,
            (48 + c % 10) as u8,
            1,
        ];
        w.write(tail.as_slice());
        let r = w.into_inner();
        proof {
            assert(r@ =~= spec_transform(self.msg@, new_sending_time@)->Some_0);
        }
        Ok(r)
    }
}


/// One step of a replay: a gap fill that stands for a run of session messages, or the
/// retransmission of the stored message at an index.
#[derive(Debug, Clone, Copy, PartialEq, Eq, Structural)]
pub enum ResendAction {
    /// A SequenceReset with GapFillFlag=Y sent as `msg_seq_num`, moving the peer to `new_seq_no`.
    GapFill { msg_seq_num: u32, new_seq_no: u32 },
    /// The stored message at this index, sent again as a PossDup.
    Retransmit(usize),
}

/// The replay of stored messages `msgs[i..]` (each a sequence number and whether it is a
/// session message), where `run` holds the first sequence number of a pending run of session
/// messages and `end` is the last sequence number asked for.
pub open spec fn spec_plan_from(msgs: Seq<(u32, bool)>, i: int, run: Option<u32>, end: u32) -> Seq<ResendAction>
    decreases msgs.len() - i,
{
    if i >= msgs.len() {
        match run {
            Some(first) => seq![ResendAction::GapFill { msg_seq_num: first, new_seq_no: wrap_inc(end) }],
            None => Seq::empty(),
        }
    } else if i < 0 {
        Seq::empty()
    } else if msgs[i].1 {
        spec_plan_from(
            msgs,
            i + 1,
            match run {
                Some(first) => Some(first),
                None => Some(msgs[i].0),
            },
            end,
        )
    } else {
        let here = seq![ResendAction::Retransmit(i as usize)];
        match run {
            Some(first) => seq![ResendAction::GapFill { msg_seq_num: first, new_seq_no: msgs[i].0 }] + here
                + spec_plan_from(msgs, i + 1, None, end),
            None => here + spec_plan_from(msgs, i + 1, None, end),
        }
    }
}

pub open spec fn spec_plan_resend(msgs: Seq<(u32, bool)>, end: u32) -> Seq<ResendAction> {
    spec_plan_from(msgs, 0, None, end)
}

pub open spec fn wrap_inc(x: u32) -> u32 {
    if x == u32::MAX {
        0
    } else {
        (x + 1) as u32
    }
}

/// Plans the replay of stored messages, in the order given: each run of session messages
/// becomes one gap fill sent as the run's first sequence number and moving the peer to the
/// next application message (or past `end` for a run at the close); each application message
/// is retransmitted.
pub fn plan_resend(msgs: &[(u32, bool)], end: u32) -> (r: Vec<ResendAction>)
    ensures
        r@ == spec_plan_resend(msgs@, end),
{
    let mut out: Vec<ResendAction> = Vec::new();
    let mut run: Option<u32> = None;
    let mut i: usize = 0;
    while i < msgs.len()
        invariant
            i <= msgs@.len(),
            out@ + spec_plan_from(msgs@, i as int, run, end) == spec_plan_resend(msgs@, end),
        decreases msgs.len() - i,
    {
        let (seq, is_session) = msgs[i];
        if is_session {
            if run.is_none() {
                run = Some(seq);
            }
        } else {
            let ghost out0 = out@;
            let ghost run0 = run;
            match run {
                Some(first) => {
                    out.push(ResendAction::GapFill { msg_seq_num: first, new_seq_no: seq });
                },
                None => {},
            }
            out.push(ResendAction::Retransmit(i));
            run = None;
            proof {
                let here = seq![ResendAction::Retransmit(i as usize)];
                match run0 {
                    Some(first) => {
                        assert(out@ =~= out0 + seq![ResendAction::GapFill { msg_seq_num: first, new_seq_no: seq }] + here);
                    },
                    None => {
                        assert(out@ =~= out0 + here);
                    },
                }
                assert(out@ + spec_plan_from(msgs@, i + 1, None, end) =~= out0 + spec_plan_from(msgs@, i as int, run0, end));
            }
        }
        i = i + 1;
    }
    match run {
        Some(first) => {
            let n = if end == u32::MAX {
                0
            } else {
                end + 1
            };
            out.push(ResendAction::GapFill { msg_seq_num: first, new_seq_no: n });
        },
        None => {},
    }
    proof {
        assert(out@ =~= spec_plan_resend(msgs@, end));
    }
    out
}

/// The sequence number of the last message sent, when `next_outgoing` is the next one.
pub open spec fn last_sent(next_outgoing: u32) -> u32 {
    if next_outgoing == 0 {
        0
    } else {
        (next_outgoing - 1) as u32
    }
}

/// The range a ResendRequest asks for: `end` 0 means everything sent so far, and a missing
/// BeginSeqNo means the end alone.
pub open spec fn spec_resend_range(begin_seq_no: Option<u32>, end_seq_no: Option<u32>, next_outgoing: u32) -> (u32, u32) {
    let e = match end_seq_no {
        Some(n) => if n > 0 {
            n
        } else {
            last_sent(next_outgoing)
        },
        None => last_sent(next_outgoing),
    };
    (match begin_seq_no {
        Some(b) => b,
        None => e,
    }, e)
}

pub fn resend_range(begin_seq_no: Option<u32>, end_seq_no: Option<u32>, next_outgoing: u32) -> (r: (u32, u32))
    ensures
        r == spec_resend_range(begin_seq_no, end_seq_no, next_outgoing),
        r.1 == match end_seq_no {
            Some(n) => if n > 0 {
                n
            } else {
                last_sent(next_outgoing)
            },
            None => last_sent(next_outgoing),
        },
        r.0 == match begin_seq_no {
            Some(b) => b,
            None => r.1,
        },
{
    let prev = if next_outgoing == 0 {
        0
    } else {
        next_outgoing - 1
    };
    let e = match end_seq_no {
        Some(n) => if n > 0 {
            n
        } else {
            prev
        },
        None => prev,
    };
    let b = match begin_seq_no {
        Some(b) => b,
        None => e,
    };
    (b, e)
}

} // verus!
