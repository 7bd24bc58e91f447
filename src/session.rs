//! The session state machine: logon, sequence-number checks, gap detection and resend
//! handling, heartbeats and test requests, and logout.

use vstd::prelude::*;
use std::collections::VecDeque;
use crate::encode::{field_bytes, spec_digits, MessageBuilder, SerializedInt};
use vstd::string::StringSliceAdditionalSpecFns;
use vstd::utf8::encode_utf8;
use crate::error::{GarbledMessageType, SessionError};
use crate::fields::{GapFillFlag, PossDupFlag, SessionRejectReason};

verus! {

/// The state a gap fill returns to once the missing messages have arrived.
#[derive(Debug, Clone, Copy, PartialEq, Eq, Structural)]
pub enum ReturnState {
    LoggedIn,
    LogoutSent,
    End,
}

#[derive(Debug, Clone, Copy, PartialEq, Eq, Structural)]
pub enum State {
    Start,
    Connected,
    LogonSent,
    LoggedIn,
    ExpectingResends { return_state: ReturnState },
    ExpectingTestResponse,
    LogoutSent,
    End,
    Error,
}

impl ReturnState {
    pub open spec fn spec_state(self) -> State {
        match self {
            ReturnState::LoggedIn => State::LoggedIn,
            ReturnState::LogoutSent => State::LogoutSent,
            ReturnState::End => State::End,
        }
    }

    pub fn state(self) -> (r: State)
        ensures
            r == self.spec_state(),
    {
        match self {
            ReturnState::LoggedIn => State::LoggedIn,
            ReturnState::LogoutSent => State::LogoutSent,
            ReturnState::End => State::End,
        }
    }
}

/// What happened to the session: an inbound message, a timer, or an outbound step.
#[derive(Debug)]
pub enum Event {
    Connect(bool),
    Accept,
    /// MsgSeqNum, HeartBtInt, EncryptMethod, ResetSeqNumFlag=Y, PossDupFlag.
    LogonReceived(u32, u32, Option<u32>, bool, Option<PossDupFlag>),
    LogoutSent,
    LogoutReceived(u32, Option<PossDupFlag>),
    HeartbeatReceived(u32, Option<PossDupFlag>),
    SequenceResetReceived {
        msg_seq_num: u32,
        gap_fill: Option<GapFillFlag>,
        new_seq_no: u32,
        poss_dup: Option<PossDupFlag>,
    },
    TestRequestReceived { msg_seq_num: u32, test_req_id: Vec<u8>, poss_dup: Option<PossDupFlag> },
    SessionErrorReceived { error: SessionError },
    ApplicationMessageReceived(u32, Option<PossDupFlag>),
    SendHeartbeat,
    SendTestRequest(u32),
    /// MsgSeqNum, BeginSeqNo, EndSeqNo, PossDupFlag.
    ResendRequestReceived(u32, u32, u32, Option<PossDupFlag>),
    RejectReceived(u32, Option<PossDupFlag>),
    LogoutExpired,
}

impl Event {
    /// The MsgSeqNum that the sequence check reads: every inbound message but a SequenceReset
    /// without GapFillFlag=Y.
    pub open spec fn spec_msg_seq_num(&self) -> Option<u32> {
        match self {
            Event::LogonReceived(n, ..) => Some(*n),
            Event::LogoutReceived(n, ..) => Some(*n),
            Event::HeartbeatReceived(n, ..) => Some(*n),
            Event::SequenceResetReceived { msg_seq_num, gap_fill, .. } => if *gap_fill == Some(
                GapFillFlag::YES,
            ) {
                Some(*msg_seq_num)
            } else {
                None
            },
            Event::TestRequestReceived { msg_seq_num, .. } => Some(*msg_seq_num),
            Event::ApplicationMessageReceived(n, ..) => Some(*n),
            Event::ResendRequestReceived(n, ..) => Some(*n),
            Event::RejectReceived(n, ..) => Some(*n),
            _ => None,
        }
    }

    pub open spec fn spec_poss_dup_flag(&self) -> Option<PossDupFlag> {
        match self {
            Event::LogonReceived(.., p) => *p,
            Event::LogoutReceived(.., p) => *p,
            Event::HeartbeatReceived(.., p) => *p,
            Event::SequenceResetReceived { poss_dup, .. } => *poss_dup,
            Event::TestRequestReceived { poss_dup, .. } => *poss_dup,
            Event::ApplicationMessageReceived(.., p) => *p,
            Event::ResendRequestReceived(.., p) => *p,
            Event::RejectReceived(.., p) => *p,
            _ => None,
        }
    }

    pub open spec fn spec_is_poss_dup(&self) -> bool {
        self.spec_poss_dup_flag() == Some(PossDupFlag::YES)
    }

    pub fn get_msg_seq_num(&self) -> (r: Option<u32>)
        ensures
            r == self.spec_msg_seq_num(),
    {
        match self {
            Event::LogonReceived(n, ..) => Some(*n),
            Event::LogoutReceived(n, ..) => Some(*n),
            Event::HeartbeatReceived(n, ..) => Some(*n),
            Event::SequenceResetReceived { msg_seq_num, gap_fill, .. } => match gap_fill {
                Some(GapFillFlag::YES) => Some(*msg_seq_num),
                _ => None,
            },
            Event::TestRequestReceived { msg_seq_num, .. } => Some(*msg_seq_num),
            Event::ApplicationMessageReceived(n, ..) => Some(*n),
            Event::ResendRequestReceived(n, ..) => Some(*n),
            Event::RejectReceived(n, ..) => Some(*n),
            _ => None,
        }
    }

    pub fn is_poss_dup(&self) -> (r: bool)
        ensures
            r == self.spec_is_poss_dup(),
    {
        let p = match self {
            Event::LogonReceived(.., p) => *p,
            Event::LogoutReceived(.., p) => *p,
            Event::HeartbeatReceived(.., p) => *p,
            Event::SequenceResetReceived { poss_dup, .. } => *poss_dup,
            Event::TestRequestReceived { poss_dup, .. } => *poss_dup,
            Event::ApplicationMessageReceived(.., p) => *p,
            Event::ResendRequestReceived(.., p) => *p,
            Event::RejectReceived(.., p) => *p,
            _ => None,
        };
        match p {
            Some(PossDupFlag::YES) => true,
            _ => false,
        }
    }

    pub fn is_logout(&self) -> (r: bool)
        ensures
            r == (self is LogoutReceived),
    {
        match self {
            Event::LogoutReceived(..) => true,
            _ => false,
        }
    }

    /// A SequenceReset that resets outright (GapFillFlag absent or N).
    pub fn is_sequence_reset(&self) -> (r: bool)
        ensures
            r == (self matches Event::SequenceResetReceived { gap_fill, .. } && gap_fill != Some(
                GapFillFlag::YES,
            )),
    {
        match self {
            Event::SequenceResetReceived { gap_fill: Some(GapFillFlag::YES), .. } => false,
            Event::SequenceResetReceived { .. } => true,
            _ => false,
        }
    }
}

/// The next outbound and next expected inbound sequence numbers.
#[derive(Debug, Clone, Copy, PartialEq, Eq, Structural)]
pub struct Sequences {
    pub outgoing: u32,
    pub incoming: u32,
}

impl Sequences {
    /// Sequences from `(incoming, outgoing)`, as a store returns them.
    pub fn from_pair(pair: (u32, u32)) -> (r: Sequences)
        ensures
            r.incoming == pair.0 && r.outgoing == pair.1,
    {
        Sequences { outgoing: pair.1, incoming: pair.0 }
    }

    /// Takes the next outbound sequence number and moves past it.
    pub fn next_outgoing(&mut self) -> (r: u32)
        ensures
            r == old(self).outgoing,
            final(self).outgoing == old(self).outgoing.wrapping_add(1),
            final(self).incoming == old(self).incoming,
    {
        let r = self.outgoing;
        self.outgoing = self.outgoing.wrapping_add(1);
        r
    }

    /// Moves the expected inbound sequence number on by one, returning the one it held.
    pub fn incr_incoming(&mut self) -> (r: u32)
        ensures
            r == old(self).incoming,
            final(self).incoming == old(self).incoming.wrapping_add(1),
            final(self).outgoing == old(self).outgoing,
    {
        let r = self.incoming;
        self.incoming = self.incoming.wrapping_add(1);
        r
    }

    pub fn peek_incoming(&self) -> (r: u32)
        ensures
            r == self.incoming,
    {
        self.incoming
    }

    pub fn peek_outgoing(&self) -> (r: u32)
        ensures
            r == self.outgoing,
    {
        self.outgoing
    }

    /// Sets the expected inbound sequence number to `new`; refused when that would move it
    /// back.
    pub fn reset_incoming(&mut self, new: u32) -> (r: Result<(), ()>)
        ensures
            old(self).incoming > new ==> r is Err && *final(self) == *old(self),
            old(self).incoming <= new ==> r is Ok && final(self).incoming == new
                && final(self).outgoing == old(self).outgoing,
    {
        if self.incoming > new {
            Err(())
        } else {
            self.incoming = new;
            Ok(())
        }
    }
}

/// A session-level message the state machine asks to send.
#[derive(Debug)]
pub enum SessionMsg {
    Logon { heart_bt_int: u32, reset_seq_num: bool },
    Logout { text: Option<String> },
    /// A Logout that says which MsgSeqNum was expected and which came.
    LogoutSeqTooLow { expected: u32, received: u32 },
    Heartbeat { test_req_id: Option<Vec<u8>> },
    TestRequest,
    ResendRequest { begin_seq_no: u32 },
    Reject {
        text: String,
        reject_reason: Option<SessionRejectReason>,
        ref_seq_num: u32,
        ref_tag_id: Option<u32>,
        ref_msg_type: Option<char>,
    },
    /// A Reject of a SequenceReset whose NewSeqNo would move the inbound sequence back.
    RejectNewSeqNo { ref_seq_num: u32 },
}

/// What one event does besides the messages it sends: stay, or move to a state.
#[derive(Debug, Clone, Copy, PartialEq, Eq, Structural)]
pub enum Response {
    Handled,
    Transition(State),
}

/// The gap being filled: the next sequence number expected again, and the last one missing.
#[derive(Debug, Clone, Copy, PartialEq, Eq, Structural)]
pub struct RereceiveRange {
    pub next: u32,
    pub end: u32,
}

/// The part of the session that the transitions read and change.
#[derive(Debug, Clone, Copy, PartialEq, Eq, Structural)]
pub struct Core {
    pub state: State,
    pub sequences: Sequences,
    /// The next and last sequence numbers of the gap being filled.
    pub rereceive_range: Option<RereceiveRange>,
}

/// What a transition hands back: the new core, the messages to send, and the logon outcome to
/// report, if any.
pub struct Step {
    pub next_core: Core,
    pub msgs: Vec<SessionMsg>,
    pub logon_response: Option<bool>,
}


pub open spec fn wrap_inc(x: u32) -> u32 {
    if x == u32::MAX {
        0
    } else {
        (x + 1) as u32
    }
}

pub open spec fn with_incoming(c: Core, n: u32) -> Core {
    Core {
        state: c.state,
        sequences: Sequences { outgoing: c.sequences.outgoing, incoming: n },
        rereceive_range: c.rereceive_range,
    }
}

pub open spec fn with_range(c: Core, r: Option<RereceiveRange>) -> Core {
    Core { state: c.state, sequences: c.sequences, rereceive_range: r }
}

pub open spec fn with_reset_sequences(c: Core) -> Core {
    Core { state: c.state, sequences: Sequences { outgoing: 1, incoming: 1 }, rereceive_range: c.rereceive_range }
}

/// Two session messages say the same (texts compared by their characters).
pub open spec fn same_msg(a: SessionMsg, b: SessionMsg) -> bool {
    match a {
        SessionMsg::Logout { text: t1 } => b matches SessionMsg::Logout { text: t2 } && match t1 {
            Some(x) => t2 matches Some(y) && x@ == y@,
            None => t2 is None,
        },
        SessionMsg::Heartbeat { test_req_id: t1 } => b matches SessionMsg::Heartbeat {
            test_req_id: t2,
        } && match t1 {
            Some(x) => t2 matches Some(y) && x@ == y@,
            None => t2 is None,
        },
        SessionMsg::Reject { text, reject_reason, ref_seq_num, ref_tag_id, ref_msg_type } => b matches SessionMsg::Reject {
            text: t2,
            reject_reason: r2,
            ref_seq_num: s2,
            ref_tag_id: g2,
            ref_msg_type: m2,
        } && text@ == t2@ && reject_reason == r2 && ref_seq_num == s2 && ref_tag_id == g2
            && ref_msg_type == m2,
        _ => a == b,
    }
}

pub open spec fn same_msgs(a: Seq<SessionMsg>, b: Seq<SessionMsg>) -> bool {
    a.len() == b.len() && forall|i: int| 0 <= i < a.len() ==> same_msg(#[trigger] a[i], b[i])
}

/// The sequence check on an inbound message: `None` when there is no MsgSeqNum or
/// it is the expected one (which is then passed), else what the session does.
pub open spec fn spec_process_sequence(c: Core, e: Event, ret: ReturnState) -> (
    Core,
    Seq<SessionMsg>,
    Option<Response>,
) {
    match e.spec_msg_seq_num() {
        None => (c, Seq::empty(), None),
        Some(incoming) => {
            let expected = c.sequences.incoming;
            if expected == incoming {
                (with_incoming(c, wrap_inc(expected)), Seq::empty(), None)
            } else if expected < incoming {
                (
                    with_range(c, Some(RereceiveRange { next: expected, end: incoming })),
                    seq![SessionMsg::ResendRequest { begin_seq_no: expected }],
                    Some(Response::Transition(State::ExpectingResends { return_state: ret })),
                )
            } else if !e.spec_is_poss_dup() {
                (
                    c,
                    seq![SessionMsg::LogoutSeqTooLow { expected, received: incoming }],
                    Some(Response::Transition(State::Error)),
                )
            } else {
                (c, Seq::empty(), Some(Response::Handled))
            }
        },
    }
}

/// A SequenceReset to `new_seq_no`: accepted unless it moves the inbound sequence back.
pub open spec fn spec_reset_expected_incoming(c: Core, msg_seq_num: u32, new_seq_no: u32) -> (
    Core,
    Seq<SessionMsg>,
) {
    if c.sequences.incoming > new_seq_no {
        (c, seq![SessionMsg::RejectNewSeqNo { ref_seq_num: msg_seq_num }])
    } else {
        (with_incoming(c, new_seq_no), Seq::empty())
    }
}

/// What every state after logon does with an event it does not handle itself.
pub open spec fn spec_post_logon(c: Core, e: Event) -> (Core, Seq<SessionMsg>, Response) {
    match e {
        Event::SessionErrorReceived { error } => match error {
            SessionError::GarbledMessage { text, garbled_msg_type } => if garbled_msg_type
                == GarbledMessageType::BeginStringIssue {
                (c, seq![SessionMsg::Logout { text: Some(text) }], Response::Transition(State::Error))
            } else {
                (c, Seq::empty(), Response::Handled)
            },
            SessionError::TcpDisconnection => (c, Seq::empty(), Response::Transition(State::Error)),
            _ => (c, Seq::empty(), Response::Handled),
        },
        Event::LogoutReceived(..) => (
            c,
            seq![SessionMsg::Logout { text: None }],
            Response::Transition(State::End),
        ),
        Event::SendTestRequest(_) => (
            c,
            seq![SessionMsg::TestRequest],
            Response::Transition(State::ExpectingTestResponse),
        ),
        Event::SendHeartbeat => (c, seq![SessionMsg::Heartbeat { test_req_id: None }], Response::Handled),
        Event::LogoutSent => (c, Seq::empty(), Response::Transition(State::LogoutSent)),
        Event::LogoutExpired => (c, Seq::empty(), Response::Transition(State::Error)),
        _ => (c, Seq::empty(), Response::Handled),
    }
}

/// While a gap is being filled only PossDup messages move the cursor on; a gap fill that would
/// move it back is rejected.
pub open spec fn spec_expecting_resends(c: Core, e: Event, ret: ReturnState) -> (
    Core,
    Seq<SessionMsg>,
    Response,
) {
    match c.rereceive_range {
        None => (c, Seq::empty(), Response::Transition(State::Error)),
        Some(RereceiveRange { next, end }) => if !e.spec_is_poss_dup() {
            if e is LogoutReceived {
                (c, seq![SessionMsg::Logout { text: None }], Response::Transition(State::End))
            } else {
                spec_post_logon(c, e)
            }
        } else {
            match e {
                Event::SequenceResetReceived { msg_seq_num, gap_fill, new_seq_no, .. } => if gap_fill
                    != Some(GapFillFlag::YES) {
                    let (c2, m) = spec_reset_expected_incoming(c, msg_seq_num, new_seq_no);
                    (with_range(c2, None), m, Response::Transition(ret.spec_state()))
                } else if msg_seq_num != next {
                    (c, Seq::empty(), Response::Handled)
                } else if new_seq_no < next {
                    (c, seq![SessionMsg::RejectNewSeqNo { ref_seq_num: msg_seq_num }], Response::Handled)
                } else {
                    spec_resend_advance(c, new_seq_no as int, end, ret)
                },
                _ => if e.spec_msg_seq_num() != Some(next) {
                    (c, Seq::empty(), Response::Handled)
                } else {
                    spec_resend_advance(c, next + 1, end, ret)
                },
            }
        },
    }
}

/// Moves the resend cursor to `nxt`; past `end` the gap is filled and the session returns.
pub open spec fn spec_resend_advance(c: Core, nxt: int, end: u32, ret: ReturnState) -> (
    Core,
    Seq<SessionMsg>,
    Response,
) {
    if nxt > end {
        (
            with_range(with_incoming(c, wrap_inc(end)), None),
            if ret == ReturnState::End {
                seq![SessionMsg::Logout { text: None }]
            } else {
                Seq::empty()
            },
            Response::Transition(ret.spec_state()),
        )
    } else {
        (with_range(c, Some(RereceiveRange { next: nxt as u32, end })), Seq::empty(), Response::Handled)
    }
}

/// LoggedIn after the sequence check has passed the message.
pub open spec fn spec_logged_in_after(c: Core, e: Event) -> (Core, Seq<SessionMsg>, Response) {
    match e {
        Event::SessionErrorReceived { error } => match error {
            SessionError::MissingMsgSeqNum { text } => (
                c,
                seq![SessionMsg::Logout { text: Some(text) }],
                Response::Transition(State::Error),
            ),
            SessionError::MessageRejected {
                text,
                reject_reason,
                msg_seq_num,
                ref_tag_id,
                ref_msg_type,
            } => {
                let c2 = with_incoming(c, wrap_inc(c.sequences.incoming));
                let reject = SessionMsg::Reject {
                    text,
                    reject_reason,
                    ref_seq_num: msg_seq_num,
                    ref_tag_id,
                    ref_msg_type,
                };
                if reject_reason == Some(SessionRejectReason::COMPID_PROBLEM) || reject_reason
                    == Some(SessionRejectReason::SENDINGTIME_ACCURACY_PROBLEM) {
                    (
                        c2,
                        seq![reject, SessionMsg::Logout { text: Some(text) }],
                        Response::Transition(State::Error),
                    )
                } else {
                    (c2, seq![reject], Response::Handled)
                }
            },
            SessionError::TcpDisconnection => (c, Seq::empty(), Response::Transition(State::Error)),
            _ => spec_post_logon(c, Event::SessionErrorReceived { error }),
        },
        Event::SequenceResetReceived { msg_seq_num, new_seq_no, .. } => {
            let (c2, m) = spec_reset_expected_incoming(c, msg_seq_num, new_seq_no);
            (c2, m, Response::Handled)
        },
        Event::TestRequestReceived { test_req_id, .. } => (
            c,
            seq![SessionMsg::Heartbeat { test_req_id: Some(test_req_id) }],
            Response::Handled,
        ),
        Event::ApplicationMessageReceived(..) => (c, Seq::empty(), Response::Handled),
        _ => spec_post_logon(c, e),
    }
}

pub open spec fn spec_logged_in(c: Core, e: Event) -> (Core, Seq<SessionMsg>, Response) {
    let ret = if e is LogoutReceived {
        ReturnState::End
    } else {
        ReturnState::LoggedIn
    };
    let (c1, m1, r1) = spec_process_sequence(c, e, ret);
    match r1 {
        Some(r) => (c1, m1, r),
        None => spec_logged_in_after(c1, e),
    }
}

pub open spec fn spec_expecting_test_response(c: Core, e: Event) -> (
    Core,
    Seq<SessionMsg>,
    Response,
) {
    match e {
        Event::HeartbeatReceived(..) => {
            let (c1, m1, r1) = spec_process_sequence(c, e, ReturnState::LoggedIn);
            match r1 {
                Some(r) => (c1, m1, r),
                None => (c1, m1, Response::Transition(State::LoggedIn)),
            }
        },
        Event::SendHeartbeat => (c, Seq::empty(), Response::Transition(State::Error)),
        Event::SendTestRequest(_) => (c, Seq::empty(), Response::Transition(State::Error)),
        _ => spec_logged_in(c, e),
    }
}

pub open spec fn spec_start(c: Core, e: Event) -> (Core, Seq<SessionMsg>, Response) {
    match e {
        Event::Connect(reset) => (
            if reset {
                with_reset_sequences(c)
            } else {
                c
            },
            seq![SessionMsg::Logon { heart_bt_int: 30, reset_seq_num: reset }],
            Response::Transition(State::LogonSent),
        ),
        Event::Accept => (c, Seq::empty(), Response::Transition(State::Connected)),
        _ => (c, Seq::empty(), Response::Handled),
    }
}

pub open spec fn spec_connected(c: Core, e: Event) -> (
    Core,
    Seq<SessionMsg>,
    Response,
    Option<bool>,
) {
    match e {
        Event::SessionErrorReceived { error } => match error {
            SessionError::MessageRejected { text, reject_reason, .. } => (
                c,
                if reject_reason != Some(SessionRejectReason::COMPID_PROBLEM) {
                    seq![SessionMsg::Logout { text: Some(text) }]
                } else {
                    Seq::empty()
                },
                Response::Transition(State::Error),
                Some(false),
            ),
            _ => (c, Seq::empty(), Response::Transition(State::Error), Some(false)),
        },
        Event::LogonReceived(_, heart_bt_int, encrypt_method, reset, _) => if encrypt_method
            != Some(0u32) {
            (c, Seq::empty(), Response::Transition(State::Error), Some(false))
        } else {
            let c1 = if reset {
                with_reset_sequences(c)
            } else {
                c
            };
            let (c2, m2, r2) = spec_process_sequence(c1, e, ReturnState::LoggedIn);
            (
                c2,
                seq![SessionMsg::Logon { heart_bt_int, reset_seq_num: reset }] + m2,
                match r2 {
                    Some(r) => r,
                    None => Response::Transition(State::LoggedIn),
                },
                Some(true),
            )
        },
        _ => (c, Seq::empty(), Response::Transition(State::Error), Some(false)),
    }
}

pub open spec fn spec_logon_sent(c: Core, e: Event) -> (
    Core,
    Seq<SessionMsg>,
    Response,
    Option<bool>,
) {
    match e {
        Event::LogonReceived(_, _, encrypt_method, _, _) => if encrypt_method != Some(0u32) {
            (c, Seq::empty(), Response::Transition(State::Error), None)
        } else {
            let (c1, m1, r1) = spec_process_sequence(c, e, ReturnState::LoggedIn);
            (
                c1,
                m1,
                match r1 {
                    Some(r) => r,
                    None => Response::Transition(State::LoggedIn),
                },
                Some(true),
            )
        },
        Event::SessionErrorReceived { error } => (
            c,
            if error matches SessionError::MessageRejected { ref_msg_type, .. } && ref_msg_type
                == Some('A') {
                seq![SessionMsg::Logout { text: None }]
            } else {
                Seq::empty()
            },
            Response::Transition(State::Error),
            Some(false),
        ),
        Event::LogoutSent => (c, Seq::empty(), Response::Transition(State::LogoutSent), Some(false)),
        _ => (c, Seq::empty(), Response::Transition(State::Error), Some(false)),
    }
}

pub open spec fn spec_logout_sent(c: Core, e: Event) -> (Core, Seq<SessionMsg>, Response) {
    let (c1, m1, r1) = spec_process_sequence(c, e, ReturnState::LogoutSent);
    match r1 {
        Some(r) => (c1, m1, r),
        None => (
            c1,
            m1,
            match e {
                Event::LogoutReceived(..) => Response::Transition(State::End),
                Event::LogoutExpired => Response::Transition(State::Error),
                Event::SessionErrorReceived { .. } => Response::Transition(State::Error),
                Event::SendTestRequest(_) => Response::Transition(State::Error),
                Event::SendHeartbeat => Response::Transition(State::Error),
                _ => Response::Handled,
            },
        ),
    }
}

pub open spec fn apply(c: Core, r: Response) -> Core {
    match r {
        Response::Transition(s) => Core { state: s, sequences: c.sequences, rereceive_range: c.rereceive_range },
        Response::Handled => c,
    }
}

/// The transition table: the core after `e`, the session messages to send, and the
/// logon outcome to report.
pub open spec fn spec_step(c: Core, e: Event) -> (Core, Seq<SessionMsg>, Option<bool>) {
    match c.state {
        State::Start => {
            let (c1, m, r) = spec_start(c, e);
            (apply(c1, r), m, None)
        },
        State::Connected => {
            let (c1, m, r, l) = spec_connected(c, e);
            (apply(c1, r), m, l)
        },
        State::LogonSent => {
            let (c1, m, r, l) = spec_logon_sent(c, e);
            (apply(c1, r), m, l)
        },
        State::LoggedIn => {
            let (c1, m, r) = spec_logged_in(c, e);
            (apply(c1, r), m, None)
        },
        State::ExpectingResends { return_state } => {
            let (c1, m, r) = spec_expecting_resends(c, e, return_state);
            (apply(c1, r), m, None)
        },
        State::ExpectingTestResponse => {
            let (c1, m, r) = spec_expecting_test_response(c, e);
            (apply(c1, r), m, None)
        },
        State::LogoutSent => {
            let (c1, m, r) = spec_logout_sent(c, e);
            (apply(c1, r), m, None)
        },
        State::End => (c, Seq::empty(), None),
        State::Error => (c, Seq::empty(), None),
    }
}


fn inc(x: u32) -> (r: u32)
    ensures
        r == wrap_inc(x),
{
    if x == u32::MAX {
        0
    } else {
        x + 1
    }
}

fn set_incoming(c: Core, n: u32) -> (r: Core)
    ensures
        r == with_incoming(c, n),
{
    Core { state: c.state, sequences: Sequences { outgoing: c.sequences.outgoing, incoming: n }, rereceive_range: c.rereceive_range }
}

fn set_range(c: Core, r: Option<RereceiveRange>) -> (o: Core)
    ensures
        o == with_range(c, r),
{
    Core { state: c.state, sequences: c.sequences, rereceive_range: r }
}

fn one(m: SessionMsg) -> (r: Vec<SessionMsg>)
    ensures
        r@ == seq![m],
{
    let mut v: Vec<SessionMsg> = Vec::new();
    v.push(m);
    proof {
        assert(v@ =~= seq![m]);
    }
    v
}

proof fn lemma_same_msgs_refl(a: Seq<SessionMsg>)
    ensures
        same_msgs(a, a),
{
    assert forall|i: int| 0 <= i < a.len() implies same_msg(#[trigger] a[i], a[i]) by {
        match a[i] {
            SessionMsg::Logout { text } => {
                assert(text matches Some(x) ==> x@ == x@);
            },
            _ => {},
        }
    }
}

fn process_sequence(c: Core, e: &Event, ret: ReturnState) -> (r: (Core, Vec<SessionMsg>, Option<Response>))
    ensures
        r.0 == spec_process_sequence(c, *e, ret).0,
        r.1@ == spec_process_sequence(c, *e, ret).1,
        r.2 == spec_process_sequence(c, *e, ret).2,
{
    match e.get_msg_seq_num() {
        None => (c, Vec::new(), None),
        Some(incoming) => {
            let expected = c.sequences.incoming;
            if expected == incoming {
                (set_incoming(c, inc(expected)), Vec::new(), None)
            } else if expected < incoming {
                (
                    set_range(c, Some(RereceiveRange { next: expected, end: incoming })),
                    one(SessionMsg::ResendRequest { begin_seq_no: expected }),
                    Some(Response::Transition(State::ExpectingResends { return_state: ret })),
                )
            } else if !e.is_poss_dup() {
                (
                    c,
                    one(SessionMsg::LogoutSeqTooLow { expected, received: incoming }),
                    Some(Response::Transition(State::Error)),
                )
            } else {
                (c, Vec::new(), Some(Response::Handled))
            }
        },
    }
}

fn reset_expected_incoming(c: Core, msg_seq_num: u32, new_seq_no: u32) -> (r: (Core, Vec<SessionMsg>))
    ensures
        r.0 == spec_reset_expected_incoming(c, msg_seq_num, new_seq_no).0,
        r.1@ == spec_reset_expected_incoming(c, msg_seq_num, new_seq_no).1,
{
    let mut seqs = c.sequences;
    match seqs.reset_incoming(new_seq_no) {
        Ok(()) => (set_incoming(c, new_seq_no), Vec::new()),
        Err(()) => (c, one(SessionMsg::RejectNewSeqNo { ref_seq_num: msg_seq_num })),
    }
}

fn post_logon(c: Core, e: Event) -> (r: (Core, Vec<SessionMsg>, Response))
    ensures
        r.0 == spec_post_logon(c, e).0,
        same_msgs(r.1@, spec_post_logon(c, e).1),
        r.2 == spec_post_logon(c, e).2,
{
    let ghost e0 = e;
    let r = match e {
        Event::SessionErrorReceived { error } => match error {
            SessionError::GarbledMessage { text, garbled_msg_type } => {
                if garbled_msg_type == GarbledMessageType::BeginStringIssue {
                    (c, one(SessionMsg::Logout { text: Some(text) }), Response::Transition(State::Error))
                } else {
                    (c, Vec::new(), Response::Handled)
                }
            },
            SessionError::TcpDisconnection => (c, Vec::new(), Response::Transition(State::Error)),
            _ => (c, Vec::new(), Response::Handled),
        },
        Event::LogoutReceived(..) => (
            c,
            one(SessionMsg::Logout { text: None }),
            Response::Transition(State::End),
        ),
        Event::SendTestRequest(_) => (
            c,
            one(SessionMsg::TestRequest),
            Response::Transition(State::ExpectingTestResponse),
        ),
        Event::SendHeartbeat => (c, one(SessionMsg::Heartbeat { test_req_id: None }), Response::Handled),
        Event::LogoutSent => (c, Vec::new(), Response::Transition(State::LogoutSent)),
        Event::LogoutExpired => (c, Vec::new(), Response::Transition(State::Error)),
        _ => (c, Vec::new(), Response::Handled),
    };
    proof {
        lemma_same_msgs_refl(r.1@);
    }
    r
}

fn resend_advance(c: Core, nxt: u64, end: u32, ret: ReturnState) -> (r: (Core, Vec<SessionMsg>, Response))
    ensures
        r.0 == spec_resend_advance(c, nxt as int, end, ret).0,
        r.1@ == spec_resend_advance(c, nxt as int, end, ret).1,
        r.2 == spec_resend_advance(c, nxt as int, end, ret).2,
{
    if nxt > end as u64 {
        let msgs = if ret == ReturnState::End {
            one(SessionMsg::Logout { text: None })
        } else {
            Vec::new()
        };
        (set_range(set_incoming(c, inc(end)), None), msgs, Response::Transition(ret.state()))
    } else {
        (set_range(c, Some(RereceiveRange { next: nxt as u32, end })), Vec::new(), Response::Handled)
    }
}

fn expecting_resends(c: Core, e: Event, ret: ReturnState) -> (r: (Core, Vec<SessionMsg>, Response))
    ensures
        r.0 == spec_expecting_resends(c, e, ret).0,
        same_msgs(r.1@, spec_expecting_resends(c, e, ret).1),
        r.2 == spec_expecting_resends(c, e, ret).2,
{
    let range = match c.rereceive_range {
        None => {
            return (c, Vec::new(), Response::Transition(State::Error));
        },
        Some(x) => x,
    };
    let next = range.next;
    let end = range.end;
    if !e.is_poss_dup() {
        if e.is_logout() {
            return (c, one(SessionMsg::Logout { text: None }), Response::Transition(State::End));
        } else {
            return post_logon(c, e);
        }
    }
    let seq_num = e.get_msg_seq_num();
    let r = match e {
        Event::SequenceResetReceived { msg_seq_num, gap_fill, new_seq_no, .. } => {
            let is_gap_fill = match gap_fill {
                Some(GapFillFlag::YES) => true,
                _ => false,
            };
            if !is_gap_fill {
                let (c2, m) = reset_expected_incoming(c, msg_seq_num, new_seq_no);
                (set_range(c2, None), m, Response::Transition(ret.state()))
            } else if msg_seq_num != next {
                (c, Vec::new(), Response::Handled)
            } else if new_seq_no < next {
                (c, one(SessionMsg::RejectNewSeqNo { ref_seq_num: msg_seq_num }), Response::Handled)
            } else {
                resend_advance(c, new_seq_no as u64, end, ret)
            }
        },
        _ => {
            let matches_next = match seq_num {
                Some(n) => n == next,
                None => false,
            };
            if !matches_next {
                (c, Vec::new(), Response::Handled)
            } else {
                resend_advance(c, next as u64 + 1, end, ret)
            }
        },
    };
    proof {
        lemma_same_msgs_refl(r.1@);
    }
    r
}

fn logged_in_after(c: Core, e: Event) -> (r: (Core, Vec<SessionMsg>, Response))
    ensures
        r.0 == spec_logged_in_after(c, e).0,
        same_msgs(r.1@, spec_logged_in_after(c, e).1),
        r.2 == spec_logged_in_after(c, e).2,
{
    match e {
        Event::SessionErrorReceived { error } => match error {
            SessionError::MissingMsgSeqNum { text } => {
                let r = (c, one(SessionMsg::Logout { text: Some(text) }), Response::Transition(State::Error));
                proof {
                    lemma_same_msgs_refl(r.1@);
                }
                r
            },
            SessionError::MessageRejected {
                text,
                reject_reason,
                msg_seq_num,
                ref_tag_id,
                ref_msg_type,
            } => {
                let c2 = set_incoming(c, inc(c.sequences.incoming));
                let ghost t0 = text;
                let reject = SessionMsg::Reject {
                    text: text.clone(),
                    reject_reason,
                    ref_seq_num: msg_seq_num,
                    ref_tag_id,
                    ref_msg_type,
                };
                let fatal = match reject_reason {
                    Some(SessionRejectReason::COMPID_PROBLEM) => true,
                    Some(SessionRejectReason::SENDINGTIME_ACCURACY_PROBLEM) => true,
                    _ => false,
                };
                if fatal {
                    let mut v = one(reject);
                    v.push(SessionMsg::Logout { text: Some(text) });
                    proof {
                        let s = spec_logged_in_after(c, Event::SessionErrorReceived { error: SessionError::MessageRejected { text: t0, reject_reason, msg_seq_num, ref_tag_id, ref_msg_type } }).1;
                        assert(same_msg(v@[0], s[0]));
                        assert(same_msg(v@[1], s[1]));
                    }
                    (c2, v, Response::Transition(State::Error))
                } else {
                    let v = one(reject);
                    proof {
                        let s = spec_logged_in_after(c, Event::SessionErrorReceived { error: SessionError::MessageRejected { text: t0, reject_reason, msg_seq_num, ref_tag_id, ref_msg_type } }).1;
                        assert(same_msg(v@[0], s[0]));
                    }
                    (c2, v, Response::Handled)
                }
            },
            SessionError::TcpDisconnection => (c, Vec::new(), Response::Transition(State::Error)),
            other => post_logon(c, Event::SessionErrorReceived { error: other }),
        },
        Event::SequenceResetReceived { msg_seq_num, new_seq_no, .. } => {
            let (c2, m) = reset_expected_incoming(c, msg_seq_num, new_seq_no);
            proof {
                lemma_same_msgs_refl(m@);
            }
            (c2, m, Response::Handled)
        },
        Event::TestRequestReceived { test_req_id, .. } => {
            let r = (c, one(SessionMsg::Heartbeat { test_req_id: Some(test_req_id) }), Response::Handled);
            proof {
                lemma_same_msgs_refl(r.1@);
            }
            r
        },
        Event::ApplicationMessageReceived(..) => (c, Vec::new(), Response::Handled),
        other => post_logon(c, other),
    }
}

fn logged_in(c: Core, e: Event) -> (r: (Core, Vec<SessionMsg>, Response))
    ensures
        r.0 == spec_logged_in(c, e).0,
        same_msgs(r.1@, spec_logged_in(c, e).1),
        r.2 == spec_logged_in(c, e).2,
{
    let ret = if e.is_logout() {
        ReturnState::End
    } else {
        ReturnState::LoggedIn
    };
    let (c1, m1, r1) = process_sequence(c, &e, ret);
    match r1 {
        Some(r) => {
            proof {
                lemma_same_msgs_refl(m1@);
            }
            (c1, m1, r)
        },
        None => logged_in_after(c1, e),
    }
}

fn expecting_test_response(c: Core, e: Event) -> (r: (Core, Vec<SessionMsg>, Response))
    ensures
        r.0 == spec_expecting_test_response(c, e).0,
        same_msgs(r.1@, spec_expecting_test_response(c, e).1),
        r.2 == spec_expecting_test_response(c, e).2,
{
    match e {
        Event::HeartbeatReceived(..) => {
            let (c1, m1, r1) = process_sequence(c, &e, ReturnState::LoggedIn);
            proof {
                lemma_same_msgs_refl(m1@);
            }
            match r1 {
                Some(r) => (c1, m1, r),
                None => (c1, m1, Response::Transition(State::LoggedIn)),
            }
        },
        Event::SendHeartbeat => (c, Vec::new(), Response::Transition(State::Error)),
        Event::SendTestRequest(_) => (c, Vec::new(), Response::Transition(State::Error)),
        other => logged_in(c, other),
    }
}

fn reset_core(c: Core) -> (r: Core)
    ensures
        r == with_reset_sequences(c),
{
    Core { state: c.state, sequences: Sequences { outgoing: 1, incoming: 1 }, rereceive_range: c.rereceive_range }
}

fn start(c: Core, e: Event) -> (r: (Core, Vec<SessionMsg>, Response))
    ensures
        r.0 == spec_start(c, e).0,
        r.1@ == spec_start(c, e).1,
        r.2 == spec_start(c, e).2,
{
    match e {
        Event::Connect(reset) => (
            if reset {
                reset_core(c)
            } else {
                c
            },
            one(SessionMsg::Logon { heart_bt_int: 30, reset_seq_num: reset }),
            Response::Transition(State::LogonSent),
        ),
        Event::Accept => (c, Vec::new(), Response::Transition(State::Connected)),
        _ => (c, Vec::new(), Response::Handled),
    }
}

fn connected(c: Core, e: Event) -> (r: (Core, Vec<SessionMsg>, Response, Option<bool>))
    ensures
        r.0 == spec_connected(c, e).0,
        same_msgs(r.1@, spec_connected(c, e).1),
        r.2 == spec_connected(c, e).2,
        r.3 == spec_connected(c, e).3,
{
    let ghost e0 = e;
    let is_logon = match &e {
        Event::LogonReceived(..) => true,
        _ => false,
    };
    if is_logon {
        let (heart_bt_int, encrypt_method, reset) = match &e {
            Event::LogonReceived(_, h, m, r, _) => (*h, *m, *r),
            _ => (0, None, false),
        };
        if encrypt_method != Some(0u32) {
            return (c, Vec::new(), Response::Transition(State::Error), Some(false));
        }
        let c1 = if reset {
            reset_core(c)
        } else {
            c
        };
        let (c2, mut m2, r2) = process_sequence(c1, &e, ReturnState::LoggedIn);
        let mut v = one(SessionMsg::Logon { heart_bt_int, reset_seq_num: reset });
        let ghost m2v = m2@;
        v.append(&mut m2);
        proof {
            lemma_same_msgs_refl(v@);
            assert(v@ =~= seq![SessionMsg::Logon { heart_bt_int, reset_seq_num: reset }] + m2v);
        }
        let resp = match r2 {
            Some(r) => r,
            None => Response::Transition(State::LoggedIn),
        };
        return (c2, v, resp, Some(true));
    }
    let r = match e {
        Event::SessionErrorReceived { error } => match error {
            SessionError::MessageRejected { text, reject_reason, .. } => {
                let compid = match reject_reason {
                    Some(SessionRejectReason::COMPID_PROBLEM) => true,
                    _ => false,
                };
                (
                    c,
                    if !compid {
                        one(SessionMsg::Logout { text: Some(text) })
                    } else {
                        Vec::new()
                    },
                    Response::Transition(State::Error),
                    Some(false),
                )
            },
            _ => (c, Vec::new(), Response::Transition(State::Error), Some(false)),
        },
        _ => (c, Vec::new(), Response::Transition(State::Error), Some(false)),
    };
    proof {
        lemma_same_msgs_refl(r.1@);
    }
    r
}

fn logon_sent(c: Core, e: Event) -> (r: (Core, Vec<SessionMsg>, Response, Option<bool>))
    ensures
        r.0 == spec_logon_sent(c, e).0,
        r.1@ == spec_logon_sent(c, e).1,
        r.2 == spec_logon_sent(c, e).2,
        r.3 == spec_logon_sent(c, e).3,
{
    match e {
        Event::LogonReceived(_, _, encrypt_method, _, _) => {
            if encrypt_method != Some(0u32) {
                return (c, Vec::new(), Response::Transition(State::Error), None);
            }
            let (c1, m1, r1) = process_sequence(c, &e, ReturnState::LoggedIn);
            let resp = match r1 {
                Some(r) => r,
                None => Response::Transition(State::LoggedIn),
            };
            (c1, m1, resp, Some(true))
        },
        Event::SessionErrorReceived { error } => {
            let logon_rejected = match &error {
                SessionError::MessageRejected { ref_msg_type, .. } => *ref_msg_type == Some('A'),
                _ => false,
            };
            (
                c,
                if logon_rejected {
                    one(SessionMsg::Logout { text: None })
                } else {
                    Vec::new()
                },
                Response::Transition(State::Error),
                Some(false),
            )
        },
        Event::LogoutSent => (c, Vec::new(), Response::Transition(State::LogoutSent), Some(false)),
        _ => (c, Vec::new(), Response::Transition(State::Error), Some(false)),
    }
}

fn logout_sent(c: Core, e: Event) -> (r: (Core, Vec<SessionMsg>, Response))
    ensures
        r.0 == spec_logout_sent(c, e).0,
        r.1@ == spec_logout_sent(c, e).1,
        r.2 == spec_logout_sent(c, e).2,
{
    let (c1, m1, r1) = process_sequence(c, &e, ReturnState::LogoutSent);
    match r1 {
        Some(r) => (c1, m1, r),
        None => {
            let resp = match e {
                Event::LogoutReceived(..) => Response::Transition(State::End),
                Event::LogoutExpired => Response::Transition(State::Error),
                Event::SessionErrorReceived { .. } => Response::Transition(State::Error),
                Event::SendTestRequest(_) => Response::Transition(State::Error),
                Event::SendHeartbeat => Response::Transition(State::Error),
                _ => Response::Handled,
            };
            (c1, m1, resp)
        },
    }
}

fn apply_response(c: Core, r: Response) -> (o: Core)
    ensures
        o == apply(c, r),
{
    match r {
        Response::Transition(s) => Core { state: s, sequences: c.sequences, rereceive_range: c.rereceive_range },
        Response::Handled => c,
    }
}

/// One transition of the table: the core after `e`, the session messages to send, and the
/// logon outcome to report.
pub fn step(c: Core, e: Event) -> (r: Step)
    ensures
        r.next_core == spec_step(c, e).0,
        same_msgs(r.msgs@, spec_step(c, e).1),
        r.logon_response == spec_step(c, e).2,
{
    let (c1, m, resp, l) = match c.state {
        State::Start => {
            let (c1, m, r) = start(c, e);
            proof {
                lemma_same_msgs_refl(m@);
            }
            (c1, m, r, None)
        },
        State::Connected => connected(c, e),
        State::LogonSent => {
            let (c1, m, r, l) = logon_sent(c, e);
            proof {
                lemma_same_msgs_refl(m@);
            }
            (c1, m, r, l)
        },
        State::LoggedIn => {
            let (c1, m, r) = logged_in(c, e);
            (c1, m, r, None)
        },
        State::ExpectingResends { return_state } => {
            let (c1, m, r) = expecting_resends(c, e, return_state);
            (c1, m, r, None)
        },
        State::ExpectingTestResponse => {
            let (c1, m, r) = expecting_test_response(c, e);
            (c1, m, r, None)
        },
        State::LogoutSent => {
            let (c1, m, r) = logout_sent(c, e);
            proof {
                lemma_same_msgs_refl(m@);
            }
            (c1, m, r, None)
        },
        State::End => {
            proof {
                lemma_same_msgs_refl(Seq::<SessionMsg>::empty());
            }
            (c, Vec::new(), Response::Handled, None)
        },
        State::Error => {
            proof {
                lemma_same_msgs_refl(Seq::<SessionMsg>::empty());
            }
            (c, Vec::new(), Response::Handled, None)
        },
    };
    Step { next_core: apply_response(c1, resp), msgs: m, logon_response: l }
}


/// A message waiting in the outbox.
#[derive(Debug)]
pub enum Outgoing {
    /// A session message the state machine asked for.
    Session(SessionMsg),
    /// A message from the client, and whether the client awaits word that it was sent.
    Application(MessageBuilder, bool),
}

/// The session: the state machine's core, the outbox of messages to send in order, and the
/// logon and logout outcomes waiting to be reported to the client.
pub struct MyStateMachine {
    current: Core,
    outbox: VecDeque<Outgoing>,
    begin_string: String,
    logon_resp_pending: bool,
    logon_response: Option<bool>,
    logout_resp_pending: bool,
    logout_response: Option<bool>,
}

impl MyStateMachine {
    pub closed spec fn spec_core(&self) -> Core {
        self.current
    }

    /// The BeginString of outbound messages.
    pub closed spec fn spec_begin_string(&self) -> Seq<char> {
        self.begin_string@
    }

    pub fn begin_string(&self) -> (r: &str)
        ensures
            r@ == self.spec_begin_string(),
    {
        self.begin_string.as_str()
    }

    pub closed spec fn spec_outbox(&self) -> Seq<Outgoing> {
        self.outbox@
    }

    /// Whether a client awaits the logon outcome, and the outcome not yet handed over.
    pub closed spec fn spec_logon(&self) -> (bool, Option<bool>) {
        (self.logon_resp_pending, self.logon_response)
    }

    /// Whether a client awaits the logout outcome, and the outcome not yet handed over.
    pub closed spec fn spec_logout(&self) -> (bool, Option<bool>) {
        (self.logout_resp_pending, self.logout_response)
    }

    /// A session in Start with the sequences `(incoming, outgoing)`.
    pub fn new(begin_string: String, seqs: (u32, u32)) -> (r: Self)
        ensures
            r.spec_core() == (Core {
                state: State::Start,
                sequences: Sequences { outgoing: seqs.1, incoming: seqs.0 },
                rereceive_range: None,
            }),
            r.spec_outbox() == Seq::<Outgoing>::empty(),
            r.spec_begin_string() == begin_string@,
            r.spec_logon() == (false, None::<bool>),
            r.spec_logout() == (false, None::<bool>),
    {
        MyStateMachine {
            current: Core {
                state: State::Start,
                sequences: Sequences::from_pair(seqs),
                rereceive_range: None,
            },
            outbox: VecDeque::new(),
            begin_string,
            logon_resp_pending: false,
            logon_response: None,
            logout_resp_pending: false,
            logout_response: None,
        }
    }

    pub fn state(&self) -> (r: State)
        ensures
            r == self.spec_core().state,
    {
        self.current.state
    }

    pub fn snapshot(&self) -> (r: Core)
        ensures
            r == self.spec_core(),
    {
        self.current
    }

    /// Feeds one event to the state machine: the core moves as the transition table says, the
    /// session messages it asks for join the end of the outbox, and a logon outcome is kept for
    /// the client that awaits one.
    pub fn handle(&mut self, event: Event)
        ensures
            final(self).spec_core() == spec_step(old(self).spec_core(), event).0,
            final(self).spec_outbox().len() == old(self).spec_outbox().len() + spec_step(
                old(self).spec_core(),
                event,
            ).1.len(),
            forall|i: int|
                0 <= i < old(self).spec_outbox().len() ==> #[trigger] final(self).spec_outbox()[i]
                    == old(self).spec_outbox()[i],
            forall|i: int|
                0 <= i < spec_step(old(self).spec_core(), event).1.len() ==> (
                #[trigger] final(self).spec_outbox()[old(self).spec_outbox().len() + i]
                matches Outgoing::Session(m) && same_msg(m, spec_step(old(self).spec_core(), event).1[i])),
            final(self).spec_logon() == match spec_step(old(self).spec_core(), event).2 {
                Some(b) => if old(self).spec_logon().0 {
                    (false, Some(b))
                } else {
                    old(self).spec_logon()
                },
                None => old(self).spec_logon(),
            },
            final(self).spec_logout() == old(self).spec_logout(),
            final(self).spec_begin_string() == old(self).spec_begin_string(),
    {
        let ghost old_outbox = self.outbox@;
        let s = step(self.current, event);
        self.current = s.next_core;
        let mut msgs = s.msgs;
        let ghost ms = msgs@;
        let ghost n0 = old_outbox.len();
        let ghost cur = self.current;
        while msgs.len() > 0
            invariant
                self.current == cur,
                self.begin_string == old(self).begin_string,
                self.logon_resp_pending == old(self).logon_resp_pending,
                self.logon_response == old(self).logon_response,
                self.logout_resp_pending == old(self).logout_resp_pending,
                self.logout_response == old(self).logout_response,
                msgs@.len() <= ms.len(),
                msgs@ == ms.subrange(ms.len() - msgs@.len(), ms.len() as int),
                self.outbox@.len() == n0 + (ms.len() - msgs@.len()),
                forall|j: int| 0 <= j < n0 ==> #[trigger] self.outbox@[j] == old_outbox[j],
                forall|j: int|
                    0 <= j < ms.len() - msgs@.len() ==> #[trigger] self.outbox@[n0 + j]
                        == Outgoing::Session(ms[j]),
            decreases msgs.len(),
        {
            let ghost k = ms.len() - msgs@.len();
            let m = msgs.remove(0);
            proof {
                assert(m == ms[k]);
            }
            self.outbox.push_back(Outgoing::Session(m));
            proof {
                assert(msgs@ =~= ms.subrange(ms.len() - msgs@.len(), ms.len() as int));
                assert forall|j: int| 0 <= j < ms.len() - msgs@.len() implies #[trigger] self.outbox@[n0 + j]
                    == Outgoing::Session(ms[j]) by {
                    if j < k {
                        assert(self.outbox@[n0 + j] == Outgoing::Session(ms[j]));
                    }
                }
            }
        }
        proof {
            assert forall|i: int|
                0 <= i < ms.len() implies (#[trigger] self.outbox@[n0 + i] matches Outgoing::Session(m)
                    && same_msg(m, spec_step(old(self).current, event).1[i])) by {
                assert(same_msg(ms[i], spec_step(old(self).current, event).1[i]));
            }
        }
        match s.logon_response {
            Some(b) => self.send_logon_response(b),
            None => {},
        }
    }

    fn send_logon_response(&mut self, logon_status: bool)
        ensures
            final(self).spec_logon() == if old(self).spec_logon().0 {
                (false, Some(logon_status))
            } else {
                old(self).spec_logon()
            },
            final(self).current == old(self).current,
            final(self).outbox == old(self).outbox,
            final(self).spec_begin_string() == old(self).spec_begin_string(),
            final(self).spec_logout() == old(self).spec_logout(),
    {
        if self.logon_resp_pending {
            self.logon_resp_pending = false;
            self.logon_response = Some(logon_status);
        }
    }
}


/// A Logout with no text.
pub fn build_logout_message(begin_string: &str) -> (r: MessageBuilder)
    ensures
        r.wf(),
        r.begin_string() == begin_string.spec_bytes(),
        r.spec_msg_type() == '5',
        r.body() == Seq::<u8>::empty(),
{
    MessageBuilder::new(begin_string, '5')
}

/// A Logout whose Text(58) is `text`.
pub fn build_logout_message_with_text(begin_string: &str, text: &[u8]) -> (r: MessageBuilder)
    ensures
        r.wf(),
        r.begin_string() == begin_string.spec_bytes(),
        r.spec_msg_type() == '5',
        r.body() == field_bytes(58, text@),
{
    let r = MessageBuilder::new(begin_string, '5').push(58, text);
    proof {
        assert(Seq::<u8>::empty() + field_bytes(58, text@) =~= field_bytes(58, text@));
    }
    r
}

/// The one-byte encoding of an ASCII character, empty for any other.
pub open spec fn ascii_byte(c: char) -> Seq<u8> {
    if (c as u32) < 128 {
        seq![c as u8]
    } else {
        Seq::empty()
    }
}

/// The body of a Reject(3): RefSeqNum, Text, then RefTagID, RefMsgType (not for `0`) and
/// SessionRejectReason when given.
pub open spec fn reject_body(
    text: Seq<u8>,
    reject_reason: Option<SessionRejectReason>,
    msg_seq_num: u32,
    ref_tag_id: Option<u32>,
    ref_msg_type: Option<char>,
) -> Seq<u8> {
    field_bytes(45, spec_digits(msg_seq_num as nat)) + field_bytes(58, text) + match ref_tag_id {
        Some(t) => field_bytes(371, spec_digits(t as nat)),
        None => Seq::empty(),
    } + match ref_msg_type {
        Some(c) => if c != '0' && (c as u32) < 128 {
            field_bytes(372, ascii_byte(c))
        } else {
            Seq::empty()
        },
        None => Seq::empty(),
    } + match reject_reason {
        Some(x) => field_bytes(373, spec_digits(x.spec_num() as nat)),
        None => Seq::empty(),
    }
}

/// A Reject(3) of the message `msg_seq_num`.
pub fn build_message_reject(
    begin_string: &str,
    text: &[u8],
    reject_reason: Option<SessionRejectReason>,
    msg_seq_num: u32,
    ref_tag_id: Option<u32>,
    ref_msg_type: Option<char>,
) -> (r: MessageBuilder)
    ensures
        r.wf(),
        r.begin_string() == begin_string.spec_bytes(),
        r.spec_msg_type() == '3',
        r.body() == reject_body(text@, reject_reason, msg_seq_num, ref_tag_id, ref_msg_type),
{
    let seq = SerializedInt::from_u32(msg_seq_num);
    let mut b = MessageBuilder::new(begin_string, '3').push(45, seq.as_bytes()).push(58, text);
    let ghost b1 = b.body();
    match ref_tag_id {
        Some(t) => {
            let tag = SerializedInt::from_u32(t);
            b = b.push(371, tag.as_bytes());
        },
        None => {},
    }
    let ghost b2 = b.body();
    match ref_msg_type {
        Some(c) => {
            if c != '0' && (c as u32) < 128 {
                let v: Vec<u8> = vec![c as u8];
                b = b.push(372, v.as_slice());
                proof {
                    assert(v@ =~= ascii_byte(c));
                }
            }
        },
        None => {},
    }
    let ghost b3 = b.body();
    match reject_reason {
        Some(x) => {
            let n = SerializedInt::from_u32(x.as_u8() as u32);
            b = b.push(373, n.as_bytes());
        },
        None => {},
    }
    proof {
        let rb = reject_body(text@, reject_reason, msg_seq_num, ref_tag_id, ref_msg_type);
        assert(b1 =~= field_bytes(45, spec_digits(msg_seq_num as nat)) + field_bytes(58, text@));
        assert(b.body() =~= rb);
    }
    b
}

/// The bytes of `MsgSeqNum too low, expecting <e> but received <r>`.
pub open spec fn seq_too_low_text(expected: u32, received: u32) -> Seq<u8> {
    "MsgSeqNum too low, expecting ".spec_bytes() + spec_digits(expected as nat)
        + " but received ".spec_bytes() + spec_digits(received as nat)
}

impl SessionMsg {
    /// The message type of the message on the wire.
    pub open spec fn spec_msg_type(&self) -> char {
        match self {
            SessionMsg::Logon { .. } => 'A',
            SessionMsg::Logout { .. } => '5',
            SessionMsg::LogoutSeqTooLow { .. } => '5',
            SessionMsg::Heartbeat { .. } => '0',
            SessionMsg::TestRequest => '1',
            SessionMsg::ResendRequest { .. } => '2',
            SessionMsg::Reject { .. } => '3',
            SessionMsg::RejectNewSeqNo { .. } => '3',
        }
    }

    /// The body fields of the message on the wire.
    pub open spec fn spec_body(&self) -> Seq<u8> {
        match self {
            SessionMsg::Logon { heart_bt_int, reset_seq_num } => field_bytes(98, seq![48u8])
                + field_bytes(108, spec_digits(*heart_bt_int as nat)) + if *reset_seq_num {
                field_bytes(141, seq![89u8])
            } else {
                Seq::empty()
            },
            SessionMsg::Logout { text } => match text {
                Some(t) => field_bytes(58, encode_utf8(t@)),
                None => Seq::empty(),
            },
            SessionMsg::LogoutSeqTooLow { expected, received } => field_bytes(
                58,
                seq_too_low_text(*expected, *received),
            ),
            SessionMsg::Heartbeat { test_req_id } => match test_req_id {
                Some(t) => field_bytes(112, t@),
                None => Seq::empty(),
            },
            SessionMsg::TestRequest => field_bytes(112, seq![84u8, 69, 83, 84]),
            SessionMsg::ResendRequest { begin_seq_no } => field_bytes(
                7,
                spec_digits(*begin_seq_no as nat),
            ) + field_bytes(16, seq![48u8]),
            SessionMsg::Reject { text, reject_reason, ref_seq_num, ref_tag_id, ref_msg_type } => reject_body(
                encode_utf8(text@),
                *reject_reason,
                *ref_seq_num,
                *ref_tag_id,
                *ref_msg_type,
            ),
            SessionMsg::RejectNewSeqNo { ref_seq_num } => reject_body(
                "Value is incorrect (out of range) for this tag".spec_bytes(),
                Some(SessionRejectReason::VALUE_IS_INCORRECT),
                *ref_seq_num,
                None,
                Some('4'),
            ),
        }
    }

    /// The message ready to be written, under `begin_string`.
    pub fn to_builder(&self, begin_string: &str) -> (r: MessageBuilder)
        ensures
            r.wf(),
            r.begin_string() == begin_string.spec_bytes(),
            r.spec_msg_type() == self.spec_msg_type(),
            r.body() == self.spec_body(),
    {
        let r = match self {
            SessionMsg::Logon { heart_bt_int, reset_seq_num } => {
                let zero: Vec<u8> = vec![48u8];
                let hb = SerializedInt::from_u32(*heart_bt_int);
                let mut b = MessageBuilder::new(begin_string, 'A').push(98, zero.as_slice()).push(
                    108,
                    hb.as_bytes(),
                );
                let ghost b1 = b.body();
                if *reset_seq_num {
                    let y: Vec<u8> = vec![89u8];
                    b = b.push(141, y.as_slice());
                    proof {
                        assert(y@ =~= seq![89u8]);
                    }
                }
                proof {
                    assert(zero@ =~= seq![48u8]);
                    assert(b.body() =~= self.spec_body());
                }
                b
            },
            SessionMsg::Logout { text } => match text {
                Some(t) => build_logout_message_with_text(begin_string, t.as_str().as_bytes()),
                None => build_logout_message(begin_string),
            },
            SessionMsg::LogoutSeqTooLow { expected, received } => {
                let mut t: Vec<u8> = Vec::new();
                t.extend_from_slice("MsgSeqNum too low, expecting ".as_bytes());
                let e = SerializedInt::from_u32(*expected);
                t.extend_from_slice(e.as_bytes());
                t.extend_from_slice(" but received ".as_bytes());
                let g = SerializedInt::from_u32(*received);
                t.extend_from_slice(g.as_bytes());
                proof {
                    assert(t@ =~= seq_too_low_text(*expected, *received));
                }
                build_logout_message_with_text(begin_string, t.as_slice())
            },
            SessionMsg::Heartbeat { test_req_id } => match test_req_id {
                Some(t) => {
                    let b = MessageBuilder::new(begin_string, '0').push(112, t.as_slice());
                    proof {
                        assert(b.body() =~= self.spec_body());
                    }
                    b
                },
                None => MessageBuilder::new(begin_string, '0'),
            },
            SessionMsg::TestRequest => {
                let t: Vec<u8> = vec![84u8, 69, 83, 84];
                let b = MessageBuilder::new(begin_string, '1').push(112, t.as_slice());
                proof {
                    assert(b.body() =~= self.spec_body());
                }
                b
            },
            SessionMsg::ResendRequest { begin_seq_no } => {
                let n = SerializedInt::from_u32(*begin_seq_no);
                let zero: Vec<u8> = vec![48u8];
                let b = MessageBuilder::new(begin_string, '2').push(7, n.as_bytes()).push(16, zero.as_slice());
                proof {
                    assert(zero@ =~= seq![48u8]);
                    assert(b.body() =~= self.spec_body());
                }
                b
            },
            SessionMsg::Reject { text, reject_reason, ref_seq_num, ref_tag_id, ref_msg_type } => build_message_reject(
                begin_string,
                text.as_str().as_bytes(),
                *reject_reason,
                *ref_seq_num,
                *ref_tag_id,
                *ref_msg_type,
            ),
            SessionMsg::RejectNewSeqNo { ref_seq_num } => build_message_reject(
                begin_string,
                "Value is incorrect (out of range) for this tag".as_bytes(),
                Some(SessionRejectReason::VALUE_IS_INCORRECT),
                *ref_seq_num,
                None,
                Some('4'),
            ),
        };
        r
    }
}

impl MyStateMachine {
    /// An outbound Logout has been written: what was still queued is dropped, the client that
    /// asked for the logout (if any) awaits its outcome, and the machine takes `LogoutSent`.
    pub fn logout_drained(&mut self, has_sender: bool)
        ensures
            final(self).spec_outbox() == Seq::<Outgoing>::empty(),
            final(self).spec_core() == spec_step(old(self).spec_core(), Event::LogoutSent).0,
            spec_step(old(self).spec_core(), Event::LogoutSent).1.len() == 0,
            final(self).spec_logout() == (has_sender, old(self).spec_logout().1),
            final(self).spec_logon() == match spec_step(old(self).spec_core(), Event::LogoutSent).2 {
                Some(b) => if old(self).spec_logon().0 {
                    (false, Some(b))
                } else {
                    old(self).spec_logon()
                },
                None => old(self).spec_logon(),
            },
            final(self).spec_begin_string() == old(self).spec_begin_string(),
    {
        self.outbox_clear();
        self.set_logout_resp_sender(has_sender);
        self.handle(Event::LogoutSent);
    }

    /// Queues a client message; `has_sender` says whether the client awaits word that it was
    /// sent.
    pub fn outbox_push_with_sender(&mut self, builder: MessageBuilder, has_sender: bool)
        ensures
            final(self).spec_outbox() == old(self).spec_outbox().push(
                Outgoing::Application(builder, has_sender),
            ),
            final(self).spec_core() == old(self).spec_core(),
            final(self).spec_logon() == old(self).spec_logon(),
            final(self).spec_logout() == old(self).spec_logout(),
            final(self).spec_begin_string() == old(self).spec_begin_string(),
    {
        self.outbox.push_back(Outgoing::Application(builder, has_sender));
    }

    /// Takes the oldest message of the outbox.
    pub fn outbox_pop(&mut self) -> (r: Option<Outgoing>)
        ensures
            old(self).spec_outbox().len() == 0 ==> r is None && final(self).spec_outbox()
                == old(self).spec_outbox(),
            old(self).spec_outbox().len() > 0 ==> r == Some(old(self).spec_outbox()[0])
                && final(self).spec_outbox() == old(self).spec_outbox().drop_first(),
            final(self).spec_core() == old(self).spec_core(),
            final(self).spec_logon() == old(self).spec_logon(),
            final(self).spec_logout() == old(self).spec_logout(),
            final(self).spec_begin_string() == old(self).spec_begin_string(),
    {
        self.outbox.pop_front()
    }

    pub fn outbox_clear(&mut self)
        ensures
            final(self).spec_outbox() == Seq::<Outgoing>::empty(),
            final(self).spec_core() == old(self).spec_core(),
            final(self).spec_logon() == old(self).spec_logon(),
            final(self).spec_logout() == old(self).spec_logout(),
            final(self).spec_begin_string() == old(self).spec_begin_string(),
    {
        self.outbox.clear();
    }

    pub fn outbox_is_empty(&self) -> (r: bool)
        ensures
            r == (self.spec_outbox().len() == 0),
    {
        self.outbox.len() == 0
    }

    /// Records whether a client awaits the logon outcome.
    pub fn set_logon_resp_sender(&mut self, has_sender: bool)
        ensures
            final(self).spec_logon() == (has_sender, old(self).spec_logon().1),
            final(self).spec_core() == old(self).spec_core(),
            final(self).spec_outbox() == old(self).spec_outbox(),
            final(self).spec_logout() == old(self).spec_logout(),
            final(self).spec_begin_string() == old(self).spec_begin_string(),
    {
        self.logon_resp_pending = has_sender;
    }

    /// Records whether a client awaits the logout outcome.
    pub fn set_logout_resp_sender(&mut self, has_sender: bool)
        ensures
            final(self).spec_logout() == (has_sender, old(self).spec_logout().1),
            final(self).spec_core() == old(self).spec_core(),
            final(self).spec_outbox() == old(self).spec_outbox(),
            final(self).spec_logon() == old(self).spec_logon(),
            final(self).spec_begin_string() == old(self).spec_begin_string(),
    {
        self.logout_resp_pending = has_sender;
    }

    /// Keeps the logout outcome for the client that awaits it, if one does.
    pub fn send_logout_response(&mut self, logout_status: bool)
        ensures
            final(self).spec_logout() == if old(self).spec_logout().0 {
                (false, Some(logout_status))
            } else {
                old(self).spec_logout()
            },
            final(self).spec_core() == old(self).spec_core(),
            final(self).spec_outbox() == old(self).spec_outbox(),
            final(self).spec_logon() == old(self).spec_logon(),
            final(self).spec_begin_string() == old(self).spec_begin_string(),
    {
        if self.logout_resp_pending {
            self.logout_resp_pending = false;
            self.logout_response = Some(logout_status);
        }
    }

    /// Hands over the logon outcome kept for the client, if any.
    pub fn take_logon_response(&mut self) -> (r: Option<bool>)
        ensures
            r == old(self).spec_logon().1,
            final(self).spec_logon() == (old(self).spec_logon().0, None::<bool>),
            final(self).spec_core() == old(self).spec_core(),
            final(self).spec_outbox() == old(self).spec_outbox(),
            final(self).spec_logout() == old(self).spec_logout(),
            final(self).spec_begin_string() == old(self).spec_begin_string(),
    {
        let r = self.logon_response;
        self.logon_response = None;
        r
    }

    /// Hands over the logout outcome kept for the client, if any.
    pub fn take_logout_response(&mut self) -> (r: Option<bool>)
        ensures
            r == old(self).spec_logout().1,
            final(self).spec_logout() == (old(self).spec_logout().0, None::<bool>),
            final(self).spec_core() == old(self).spec_core(),
            final(self).spec_outbox() == old(self).spec_outbox(),
            final(self).spec_logon() == old(self).spec_logon(),
            final(self).spec_begin_string() == old(self).spec_begin_string(),
    {
        let r = self.logout_response;
        self.logout_response = None;
        r
    }

    /// Takes the sequence number for the next outbound message and moves past it.
    pub fn next_outgoing(&mut self) -> (r: u32)
        ensures
            r == old(self).spec_core().sequences.outgoing,
            final(self).spec_core() == (Core {
                sequences: Sequences {
                    outgoing: wrap_inc(old(self).spec_core().sequences.outgoing),
                    incoming: old(self).spec_core().sequences.incoming,
                },
                ..old(self).spec_core()
            }),
            final(self).spec_outbox() == old(self).spec_outbox(),
            final(self).spec_logon() == old(self).spec_logon(),
            final(self).spec_logout() == old(self).spec_logout(),
            final(self).spec_begin_string() == old(self).spec_begin_string(),
    {
        let r = self.current.sequences.outgoing;
        self.current.sequences.outgoing = inc(r);
        r
    }
}

/// Whether an inbound application message with `msg_seq_num` goes to the client: during a gap
/// fill only the one the cursor expects; otherwise the expected one, once logged on.
pub open spec fn spec_should_pass_app_message(c: Core, msg_seq_num: u32) -> bool {
    match c.rereceive_range {
        Some(r) => msg_seq_num == r.next,
        None => msg_seq_num == c.sequences.incoming && !(c.state is Start || c.state is End
            || c.state is Error || c.state is Connected || c.state is LogonSent),
    }
}

pub fn should_pass_app_message(state_machine: &MyStateMachine, msg_seq_num: u32) -> (r: bool)
    ensures
        r == spec_should_pass_app_message(state_machine.spec_core(), msg_seq_num),
{
    let c = state_machine.current;
    match c.rereceive_range {
        Some(r) => msg_seq_num == r.next,
        None => msg_seq_num == c.sequences.incoming && match c.state {
            State::Start | State::End | State::Error | State::Connected | State::LogonSent => false,
            _ => true,
        },
    }
}

/// Whether a ResendRequest is served: only once logged on and before the end.
pub fn should_resend(state_machine: &MyStateMachine) -> (r: bool)
    ensures
        r == (state_machine.spec_core().state is LoggedIn || state_machine.spec_core().state is ExpectingResends
            || state_machine.spec_core().state is LogoutSent),
{
    match state_machine.current.state {
        State::LoggedIn | State::ExpectingResends { .. } | State::LogoutSent => true,
        _ => false,
    }
}

/// Whether the session is over and the connection is to be closed.
pub fn should_disconnect(state_machine: &MyStateMachine) -> (r: bool)
    ensures
        r == (state_machine.spec_core().state is End || state_machine.spec_core().state is Error),
{
    match state_machine.current.state {
        State::End | State::Error => true,
        _ => false,
    }
}

pub fn in_error_state(state_machine: &MyStateMachine) -> (r: bool)
    ensures
        r == (state_machine.spec_core().state is Error),
{
    match state_machine.current.state {
        State::Error => true,
        _ => false,
    }
}

} // verus!
