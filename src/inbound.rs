//! Reading the session fields of an inbound message and turning it into a state-machine event.

use vstd::prelude::*;
use crate::decode::{parse, parse_field, parse_runs, spec_fields, spec_parse_u32, MessageParseError, ParserCallback};
use crate::error::{GarbledMessageType, SessionError};
use crate::fields::{is_session_message, spec_is_session_message, GapFillFlag, MsgType, PossDupFlag, SessionRejectReason, Tags};
use crate::session::Event;
use vstd::string::StringSliceAdditionalSpecFns;

verus! {

/// The seconds since the Unix epoch of a UTC date and time written `%Y%m%d-%H:%M:%S`, as
/// `chrono::NaiveDateTime::parse_from_str` reads the bytes with that format, or `None`.
pub uninterp spec fn short_timestamp_of(b: Seq<u8>) -> Option<i64>;

/// The seconds since the Unix epoch of a UTC date and time written `%Y%m%d-%H:%M:%S%.3f`, as
/// `chrono::NaiveDateTime::parse_from_str` reads the bytes with that format, or `None`.
pub uninterp spec fn long_timestamp_of(b: Seq<u8>) -> Option<i64>;

/// Relies on `std::str::from_utf8`, `chrono::NaiveDateTime::parse_from_str` with the format
/// `%Y%m%d-%H:%M:%S`, and `and_utc().timestamp()`: the result depends on the bytes alone.
#[verifier::external_body]
fn parse_short_timestamp(value: &[u8]) -> (r: Option<i64>)
    ensures
        r == short_timestamp_of(value@),
{
    let s = match std::str::from_utf8(value) {
        Ok(s) => s,
        Err(_) => return None,
    };
    match chrono::NaiveDateTime::parse_from_str(s, "%Y%m%d-%H:%M:%S") {
        Ok(t) => Some(t.and_utc().timestamp()),
        Err(_) => None,
    }
}

/// Relies on `std::str::from_utf8`, `chrono::NaiveDateTime::parse_from_str` with the format
/// `%Y%m%d-%H:%M:%S%.3f`, and `and_utc().timestamp()`: the result depends on the bytes alone.
#[verifier::external_body]
fn parse_long_timestamp(value: &[u8]) -> (r: Option<i64>)
    ensures
        r == long_timestamp_of(value@),
{
    let s = match std::str::from_utf8(value) {
        Ok(s) => s,
        Err(_) => return None,
    };
    match chrono::NaiveDateTime::parse_from_str(s, "%Y%m%d-%H:%M:%S%.3f") {
        Ok(t) => Some(t.and_utc().timestamp()),
        Err(_) => None,
    }
}

/// A SendingTime value as the session reads it: `%Y%m%d-%H:%M:%S`, else with milliseconds.
pub open spec fn timestamp_of(b: Seq<u8>) -> Option<i64> {
    match short_timestamp_of(b) {
        Some(t) => Some(t),
        None => long_timestamp_of(b),
    }
}

/// Reads a SendingTime or OrigSendingTime value (see [`timestamp_of`]).
pub fn parse_timestamp(value: &[u8]) -> (r: Option<i64>)
    ensures
        r == timestamp_of(value@),
{
    match parse_short_timestamp(value) {
        Some(t) => Some(t),
        None => parse_long_timestamp(value),
    }
}

/// The session fields of an inbound message, filled in as [`parse`] hands them over.
#[derive(Debug)]
pub struct SessionParserCallback {
    pub msg_type: char,
    pub msg_seq_num: u32,
    pub sender_comp_id: Option<Vec<u8>>,
    pub target_comp_id: Option<Vec<u8>>,
    pub poss_dup_flag: Option<char>,
    pub gap_fill: Option<char>,
    pub new_seq_no: Option<u32>,
    pub test_req_id: Option<Vec<u8>>,
    pub begin_seq_no: Option<u32>,
    pub end_seq_no: Option<u32>,
    pub heart_bt_int: Option<u32>,
    pub sending_time: Option<i64>,
    pub orig_sending_time: Option<i64>,
    pub encrypt_method: Option<u32>,
    pub reset_seq_num_flag: Option<char>,
}

impl Default for SessionParserCallback {
    fn default() -> (r: Self)
        ensures
            r.msg_type == '\0' && r.msg_seq_num == 0 && r.sender_comp_id is None && r.target_comp_id is None
                && r.poss_dup_flag is None && r.gap_fill is None && r.new_seq_no is None && r.test_req_id is None
                && r.begin_seq_no is None && r.end_seq_no is None && r.heart_bt_int is None
                && r.sending_time is None && r.orig_sending_time is None && r.encrypt_method is None
                && r.reset_seq_num_flag is None,
    {
        SessionParserCallback {
            msg_type: '\0',
            msg_seq_num: 0,
            sender_comp_id: None,
            target_comp_id: None,
            poss_dup_flag: None,
            gap_fill: None,
            new_seq_no: None,
            test_req_id: None,
            begin_seq_no: None,
            end_seq_no: None,
            heart_bt_int: None,
            sending_time: None,
            orig_sending_time: None,
            encrypt_method: None,
            reset_seq_num_flag: None,
        }
    }
}

/// A rejection of the message being read, naming `tag`.
pub open spec fn is_reject(r: SessionError, reason: SessionRejectReason, seq: u32, tag: u32, msg_type: char) -> bool {
    r matches SessionError::MessageRejected { reject_reason, msg_seq_num, ref_tag_id, ref_msg_type, .. }
        && reject_reason == Some(reason) && msg_seq_num == seq && ref_tag_id == Some(tag)
        && ref_msg_type == Some(msg_type)
}

/// A rejection result of the message being read, naming `tag`.
pub open spec fn rejects<T>(r: Result<T, SessionError>, reason: SessionRejectReason, c: SessionParserCallback, tag: u32) -> bool {
    r matches Err(e) && is_reject(e, reason, c.msg_seq_num, tag, c.msg_type)
}

/// What `on_header` does with the header field `key=value`: the callback `o` becomes `n` and
/// the result is `r`.
pub open spec fn spec_on_header(
    o: SessionParserCallback,
    key: u32,
    value: Seq<u8>,
    n: SessionParserCallback,
    r: Result<bool, SessionError>,
) -> bool {
    if key == 35 {
        if value.len() == 1 {
            n == (SessionParserCallback { msg_type: value[0] as char, ..o }) && r == Ok::<bool, SessionError>(true)
        } else {
            n == o && rejects(r, SessionRejectReason::INVALID_MSGTYPE, o, 35)
        }
    } else if key == 34 {
        match spec_parse_u32(value) {
            Some(v) => n == (SessionParserCallback { msg_seq_num: v, ..o }) && r == Ok::<bool, SessionError>(true),
            None => n == o && r matches Err(SessionError::MissingMsgSeqNum { .. }),
        }
    } else if key == 56 {
        n == (SessionParserCallback { target_comp_id: n.target_comp_id, ..o }) && (n.target_comp_id matches Some(v)
            && v@ == value) && r == Ok::<bool, SessionError>(true)
    } else if key == 49 {
        n == (SessionParserCallback { sender_comp_id: n.sender_comp_id, ..o }) && (n.sender_comp_id matches Some(v)
            && v@ == value) && r == Ok::<bool, SessionError>(true)
    } else if key == 43 {
        if value.len() == 1 {
            n == (SessionParserCallback { poss_dup_flag: Some(value[0] as char), ..o }) && r == Ok::<bool, SessionError>(true)
        } else {
            n == o && rejects(r, SessionRejectReason::VALUE_IS_INCORRECT, o, 43)
        }
    } else if key == 52 || key == 122 {
        match timestamp_of(value) {
            Some(t) => r == Ok::<bool, SessionError>(true) && if key == 52 {
                n == (SessionParserCallback { sending_time: Some(t), ..o })
            } else {
                n == (SessionParserCallback { orig_sending_time: Some(t), ..o })
            },
            None => n == o && rejects(r, SessionRejectReason::INCORRECT_DATA_FORMAT_FOR_VALUE, o, key),
        }
    } else {
        n == o && r == Ok::<bool, SessionError>(true)
    }
}

/// A numeric body field: kept by `set` when it reads as a number, else rejected naming `key`.
pub open spec fn spec_number_field(
    o: SessionParserCallback,
    key: u32,
    value: Seq<u8>,
    n: SessionParserCallback,
    r: Result<bool, SessionError>,
) -> bool {
    match spec_parse_u32(value) {
        Some(v) => r == Ok::<bool, SessionError>(true) && n == if key == 36 {
            SessionParserCallback { new_seq_no: Some(v), ..o }
        } else if key == 7 {
            SessionParserCallback { begin_seq_no: Some(v), ..o }
        } else if key == 16 {
            SessionParserCallback { end_seq_no: Some(v), ..o }
        } else if key == 108 {
            SessionParserCallback { heart_bt_int: Some(v), ..o }
        } else {
            SessionParserCallback { encrypt_method: Some(v), ..o }
        },
        None => n == o && rejects(r, SessionRejectReason::INCORRECT_DATA_FORMAT_FOR_VALUE, o, key),
    }
}

/// What `on_body` does with the body field `key=value`: nothing but stop for an application
/// message; for a session message the fields it acts on are kept and a malformed one rejected.
pub open spec fn spec_on_body(
    o: SessionParserCallback,
    key: u32,
    value: Seq<u8>,
    n: SessionParserCallback,
    r: Result<bool, SessionError>,
) -> bool {
    if !spec_is_session_message(o.msg_type) {
        n == o && r == Ok::<bool, SessionError>(false)
    } else if key == 123 {
        if value.len() == 1 {
            n == (SessionParserCallback { gap_fill: Some(value[0] as char), ..o }) && r == Ok::<bool, SessionError>(true)
        } else {
            n == o && rejects(r, SessionRejectReason::VALUE_IS_INCORRECT, o, 123)
        }
    } else if key == 36 || key == 7 || key == 16 || key == 108 || key == 98 {
        spec_number_field(o, key, value, n, r)
    } else if key == 112 {
        n == (SessionParserCallback { test_req_id: n.test_req_id, ..o }) && (n.test_req_id matches Some(v) && v@
            == value) && r == Ok::<bool, SessionError>(true)
    } else if key == 141 {
        if value.len() == 1 {
            n == (SessionParserCallback { reset_seq_num_flag: Some(value[0] as char), ..o }) && r == Ok::<bool, SessionError>(true)
        } else {
            n == o && rejects(r, SessionRejectReason::VALUE_IS_INCORRECT, o, 141)
        }
    } else {
        n == o && r == Ok::<bool, SessionError>(true)
    }
}

/// What `on_parse_error` does: a bad length field is rejected naming its tag, anything else
/// makes the message garbled.
pub open spec fn spec_on_parse_error(
    o: SessionParserCallback,
    err: MessageParseError,
    n: SessionParserCallback,
    r: Result<(), SessionError>,
) -> bool {
    n == o && match err {
        MessageParseError::BadLengthField(tag, _) => r matches Err(SessionError::MessageRejected {
            reject_reason,
            msg_seq_num,
            ref_tag_id,
            ref_msg_type,
            ..
        }) && reject_reason == Some(SessionRejectReason::INCORRECT_DATA_FORMAT_FOR_VALUE) && msg_seq_num
            == o.msg_seq_num && ref_tag_id == Some(tag) && ref_msg_type is None,
        MessageParseError::UnexpectedByte(..) => r matches Err(SessionError::GarbledMessage {
            garbled_msg_type,
            ..
        }) && garbled_msg_type == GarbledMessageType::Other,
    }
}

/// The callback before any field is read.
pub open spec fn spec_default_callback() -> SessionParserCallback {
    SessionParserCallback {
        msg_type: '\0',
        msg_seq_num: 0,
        sender_comp_id: None,
        target_comp_id: None,
        poss_dup_flag: None,
        gap_fill: None,
        new_seq_no: None,
        test_req_id: None,
        begin_seq_no: None,
        end_seq_no: None,
        heart_bt_int: None,
        sending_time: None,
        orig_sending_time: None,
        encrypt_method: None,
        reset_seq_num_flag: None,
    }
}

impl SessionParserCallback {
    pub fn create_message_reject(&self, reason: SessionRejectReason, reg_tag: Tags) -> (r: SessionError)
        ensures
            is_reject(r, reason, self.msg_seq_num, reg_tag.spec_num(), self.msg_type),
    {
        SessionError::new_message_rejected(Some(reason), self.msg_seq_num, Some(reg_tag.as_u32()), Some(self.msg_type))
    }

    /// A header field: MsgType, MsgSeqNum, the CompIDs, PossDupFlag and the sending times are
    /// kept; a malformed one is rejected.
    pub fn on_header(&mut self, key: u32, value: &[u8]) -> (r: Result<bool, SessionError>)
        ensures
            spec_on_header(*old(self), key, value@, *final(self), r),
    {
        if key == 35 {
            if value.len() == 1 {
                self.msg_type = value[0] as char;
            } else {
                return Err(self.create_message_reject(SessionRejectReason::INVALID_MSGTYPE, Tags::MsgType));
            }
        } else if key == 34 {
            match parse_field(value) {
                Ok(n) => {
                    self.msg_seq_num = n;
                },
                Err(_) => {
                    return Err(SessionError::MissingMsgSeqNum { text: "Missing MsgSeqNum".to_owned() });
                },
            }
        } else if key == 56 {
            self.target_comp_id = Some(vstd::slice::slice_to_vec(value));
        } else if key == 49 {
            self.sender_comp_id = Some(vstd::slice::slice_to_vec(value));
        } else if key == 43 {
            if value.len() == 1 {
                self.poss_dup_flag = Some(value[0] as char);
            } else {
                return Err(self.create_message_reject(SessionRejectReason::VALUE_IS_INCORRECT, Tags::PossDupFlag));
            }
        } else if key == 52 || key == 122 {
            match parse_timestamp(value) {
                Some(t) => {
                    if key == 52 {
                        self.sending_time = Some(t);
                    } else {
                        self.orig_sending_time = Some(t);
                    }
                },
                None => {
                    let tag = if key == 52 {
                        Tags::SendingTime
                    } else {
                        Tags::OrigSendingTime
                    };
                    return Err(self.create_message_reject(SessionRejectReason::INCORRECT_DATA_FORMAT_FOR_VALUE, tag));
                },
            }
        }
        Ok(true)
    }

    /// Reads `value` as a number for `tag`, rejecting it when it is none.
    fn number(&self, value: &[u8], tag: Tags) -> (r: Result<u32, SessionError>)
        ensures
            match spec_parse_u32(value@) {
                Some(n) => r == Ok::<u32, SessionError>(n),
                None => rejects(r, SessionRejectReason::INCORRECT_DATA_FORMAT_FOR_VALUE, *self, tag.spec_num()),
            },
    {
        match parse_field(value) {
            Ok(n) => Ok(n),
            Err(_) => Err(self.create_message_reject(SessionRejectReason::INCORRECT_DATA_FORMAT_FOR_VALUE, tag)),
        }
    }

    /// A body field: read only for session messages (for others the reading stops); the
    /// fields the session acts on are kept, a malformed one is rejected.
    pub fn on_body(&mut self, key: u32, value: &[u8]) -> (r: Result<bool, SessionError>)
        ensures
            spec_on_body(*old(self), key, value@, *final(self), r),
    {
        if !is_session_message(self.msg_type) {
            return Ok(false);
        }
        if key == 123 {
            if value.len() == 1 {
                self.gap_fill = Some(value[0] as char);
            } else {
                return Err(self.create_message_reject(SessionRejectReason::VALUE_IS_INCORRECT, Tags::GapFillFlag));
            }
        } else if key == 36 {
            let n = self.number(value, Tags::NewSeqNo)?;
            self.new_seq_no = Some(n);
        } else if key == 112 {
            self.test_req_id = Some(vstd::slice::slice_to_vec(value));
        } else if key == 7 {
            let n = self.number(value, Tags::BeginSeqNo)?;
            self.begin_seq_no = Some(n);
        } else if key == 16 {
            let n = self.number(value, Tags::EndSeqNo)?;
            self.end_seq_no = Some(n);
        } else if key == 108 {
            let n = self.number(value, Tags::HeartBtInt)?;
            self.heart_bt_int = Some(n);
        } else if key == 98 {
            let n = self.number(value, Tags::EncryptMethod)?;
            self.encrypt_method = Some(n);
        } else if key == 141 {
            if value.len() == 1 {
                self.reset_seq_num_flag = Some(value[0] as char);
            } else {
                return Err(self.create_message_reject(SessionRejectReason::VALUE_IS_INCORRECT, Tags::ResetSeqNumFlag));
            }
        }
        Ok(true)
    }

    /// A fault met while splitting the message: a bad length field is rejected, anything else
    /// makes the message garbled.
    pub fn on_parse_error(&mut self, err: MessageParseError) -> (r: Result<(), SessionError>)
        ensures
            spec_on_parse_error(*old(self), err, *final(self), r),
    {
        match err {
            MessageParseError::BadLengthField(tag, _) => Err(SessionError::new_message_rejected(
                Some(SessionRejectReason::INCORRECT_DATA_FORMAT_FOR_VALUE),
                self.msg_seq_num,
                Some(tag),
                None,
            )),
            MessageParseError::UnexpectedByte(..) => Err(SessionError::new_garbled_message(
                "invalid character in message".to_owned(),
                GarbledMessageType::Other,
            )),
        }
    }
}

impl ParserCallback for SessionParserCallback {
    type Err = SessionError;

    open spec fn header_post(self, key: u32, value: Seq<u8>, next: Self, r: Result<bool, SessionError>) -> bool {
        spec_on_header(self, key, value, next, r)
    }

    open spec fn body_post(self, key: u32, value: Seq<u8>, next: Self, r: Result<bool, SessionError>) -> bool {
        spec_on_body(self, key, value, next, r)
    }

    open spec fn trailer_post(self, key: u32, value: Seq<u8>, next: Self, r: Result<bool, SessionError>) -> bool {
        next == self && r == Ok::<bool, SessionError>(false)
    }

    open spec fn parse_error_post(self, err: MessageParseError, next: Self, r: Result<(), SessionError>) -> bool {
        spec_on_parse_error(self, err, next, r)
    }

    fn header(&mut self, key: u32, value: &[u8]) -> (r: Result<bool, SessionError>) {
        self.on_header(key, value)
    }

    fn body(&mut self, key: u32, value: &[u8]) -> (r: Result<bool, SessionError>) {
        self.on_body(key, value)
    }

    fn trailer(&mut self, _key: u32, _value: &[u8]) -> (r: Result<bool, SessionError>) {
        Ok(false)
    }

    fn parse_error(&mut self, err: MessageParseError) -> (r: Result<(), SessionError>) {
        self.on_parse_error(err)
    }
}

/// Reads the session fields of `msg`: every field goes in order to `on_header`, `on_body` or
/// the trailer (which stops the reading), starting from the empty callback; the reading stops
/// at the first field that answers `Ok(false)` or an error, and a fault in the message is
/// turned into an error as `on_parse_error` does.
pub fn read_session_fields(msg: &[u8]) -> (r: Result<SessionParserCallback, SessionError>)
    ensures
        match r {
            Ok(cb) => exists|x: Result<(), <SessionParserCallback as ParserCallback>::Err>|
                x is Ok && #[trigger] parse_runs(msg@, spec_fields(msg@).0, spec_fields(msg@).1, 0, spec_default_callback(), cb, x),
            Err(e) => exists|cf: SessionParserCallback|
                parse_runs(msg@, spec_fields(msg@).0, spec_fields(msg@).1, 0, spec_default_callback(), cf,
                    Err::<(), <SessionParserCallback as ParserCallback>::Err>(e)),
        },
{
    let mut cb = SessionParserCallback::default();
    proof {
        assert(cb == spec_default_callback());
    }
    let r = parse(msg, &mut cb);
    proof {
        assert(parse_runs(msg@, spec_fields(msg@).0, spec_fields(msg@).1, 0, spec_default_callback(), cb, r));
    }
    match r {
        Ok(()) => {
            Ok(cb)
        },
        Err(e) => Err(e),
    }
}

/// A PossDupFlag value: `Y` and `N` as themselves, any other character as `N`.
pub open spec fn spec_to_poss_dup_flag(maybe_flag: Option<char>) -> Option<PossDupFlag> {
    match maybe_flag {
        Some(f) => Some(if f == 'Y' {
            PossDupFlag::YES
        } else {
            PossDupFlag::NO
        }),
        None => None,
    }
}

pub fn to_poss_dup_flag(maybe_flag: Option<char>) -> (r: Option<PossDupFlag>)
    ensures
        r == spec_to_poss_dup_flag(maybe_flag),
{
    match maybe_flag {
        Some(f) => match PossDupFlag::from_char(f) {
            Ok(p) => Some(p),
            Err(_) => Some(PossDupFlag::NO),
        },
        None => None,
    }
}

/// The test-request timeout for a heartbeat interval: 1.7 times it (in milliseconds).
pub fn test_request_duration(timeout_ms: u64) -> (r: u64)
    requires
        timeout_ms <= u64::MAX / 17,
    ensures
        r == timeout_ms * 17 / 10,
{
    timeout_ms * 17 / 10
}

/// The logout timeout for a heartbeat interval: twice it (in milliseconds).
pub fn logout_duration(timeout_ms: u64) -> (r: u64)
    requires
        timeout_ms <= u64::MAX / 2,
    ensures
        r == timeout_ms * 2,
{
    timeout_ms * 2
}

/// The event an inbound message that passed its checks stands for, given the heartbeat
/// interval the session was configured with; `Err` for a SequenceReset whose GapFillFlag is
/// neither `Y` nor `N`, `None` for a SequenceReset without NewSeqNo or a TestRequest without
/// TestReqID. A ResendRequest's range is completed from `next_outgoing`.
pub fn message_event(cb: SessionParserCallback, default_heart_bt_int: u32, next_outgoing: u32) -> (r: Result<Option<Event>, DecodeErrorKind>)
    ensures
        cb.msg_type == 'A' ==> (r matches Ok(Some(Event::LogonReceived(n, h, m, reset, p))) && n == cb.msg_seq_num
            && h == (match cb.heart_bt_int { Some(i) => i, None => default_heart_bt_int })
            && m == cb.encrypt_method && reset == (cb.reset_seq_num_flag == Some('Y'))
            && p == spec_to_poss_dup_flag(cb.poss_dup_flag)),
        cb.msg_type == '5' ==> r == Ok::<Option<Event>, DecodeErrorKind>(Some(Event::LogoutReceived(cb.msg_seq_num, spec_to_poss_dup_flag(cb.poss_dup_flag)))),
        cb.msg_type == '0' ==> r == Ok::<Option<Event>, DecodeErrorKind>(Some(Event::HeartbeatReceived(cb.msg_seq_num, spec_to_poss_dup_flag(cb.poss_dup_flag)))),
        cb.msg_type == '3' ==> r == Ok::<Option<Event>, DecodeErrorKind>(Some(Event::RejectReceived(cb.msg_seq_num, spec_to_poss_dup_flag(cb.poss_dup_flag)))),
        cb.msg_type == '4' ==> match cb.new_seq_no {
            None => r == Ok::<Option<Event>, DecodeErrorKind>(None),
            Some(nsn) => match cb.gap_fill {
                None => r matches Ok(Some(Event::SequenceResetReceived { msg_seq_num, gap_fill, new_seq_no, poss_dup }))
                    && msg_seq_num == cb.msg_seq_num && gap_fill is None && new_seq_no == nsn
                    && poss_dup == spec_to_poss_dup_flag(cb.poss_dup_flag),
                Some(g) => match GapFillFlag::spec_from(g) {
                    Some(f) => r matches Ok(Some(Event::SequenceResetReceived { msg_seq_num, gap_fill, new_seq_no, poss_dup }))
                        && msg_seq_num == cb.msg_seq_num && gap_fill == Some(f) && new_seq_no == nsn
                        && poss_dup == spec_to_poss_dup_flag(cb.poss_dup_flag),
                    None => r is Err,
                },
            },
        },
        cb.msg_type == '1' ==> match cb.test_req_id {
            None => r == Ok::<Option<Event>, DecodeErrorKind>(None),
            Some(id) => r matches Ok(Some(Event::TestRequestReceived { msg_seq_num, test_req_id, poss_dup }))
                && msg_seq_num == cb.msg_seq_num && test_req_id == id && poss_dup == spec_to_poss_dup_flag(cb.poss_dup_flag),
        },
        cb.msg_type == '2' ==> (r matches Ok(Some(Event::ResendRequestReceived(n, b, e, p))) && n == cb.msg_seq_num
            && (b, e) == crate::resend::spec_resend_range(cb.begin_seq_no, cb.end_seq_no, next_outgoing)
            && p == spec_to_poss_dup_flag(cb.poss_dup_flag)),
        MsgType::spec_from(cb.msg_type) matches Some(t) && !spec_is_session_message(cb.msg_type) ==> r == Ok::<Option<Event>, DecodeErrorKind>(Some(
            Event::ApplicationMessageReceived(cb.msg_seq_num, spec_to_poss_dup_flag(cb.poss_dup_flag)),
        )),
        MsgType::spec_from(cb.msg_type) is None ==> (r matches Ok(Some(Event::SessionErrorReceived { error }))
            && (error matches SessionError::MessageRejected { reject_reason, msg_seq_num, ref_tag_id, ref_msg_type, .. }
            && reject_reason == Some(SessionRejectReason::INVALID_MSGTYPE) && msg_seq_num == cb.msg_seq_num
            && ref_tag_id is None && ref_msg_type is None)),
{
    let pd = to_poss_dup_flag(cb.poss_dup_flag);
    let n = cb.msg_seq_num;
    match MsgType::from_char(cb.msg_type) {
        Err(_) => Ok(Some(Event::SessionErrorReceived {
            error: SessionError::new_message_rejected(Some(SessionRejectReason::INVALID_MSGTYPE), n, None, None),
        })),
        Ok(t) => {
            if cb.msg_type == 'A' {
                let h = match cb.heart_bt_int {
                    Some(i) => i,
                    None => default_heart_bt_int,
                };
                Ok(Some(Event::LogonReceived(n, h, cb.encrypt_method, cb.reset_seq_num_flag == Some('Y'), pd)))
            } else if cb.msg_type == '5' {
                Ok(Some(Event::LogoutReceived(n, pd)))
            } else if cb.msg_type == '0' {
                Ok(Some(Event::HeartbeatReceived(n, pd)))
            } else if cb.msg_type == '3' {
                Ok(Some(Event::RejectReceived(n, pd)))
            } else if cb.msg_type == '4' {
                match cb.new_seq_no {
                    None => Ok(None),
                    Some(nsn) => {
                        let gap_fill = match cb.gap_fill {
                            None => None,
                            Some(g) => match GapFillFlag::from_char(g) {
                                Ok(f) => Some(f),
                                Err(_) => {
                                    return Err(DecodeErrorKind::BadGapFillFlag);
                                },
                            },
                        };
                        Ok(Some(Event::SequenceResetReceived { msg_seq_num: n, gap_fill, new_seq_no: nsn, poss_dup: pd }))
                    },
                }
            } else if cb.msg_type == '1' {
                match cb.test_req_id {
                    None => Ok(None),
                    Some(id) => Ok(Some(Event::TestRequestReceived { msg_seq_num: n, test_req_id: id, poss_dup: pd })),
                }
            } else if cb.msg_type == '2' {
                let (b, e) = crate::resend::resend_range(cb.begin_seq_no, cb.end_seq_no, next_outgoing);
                Ok(Some(Event::ResendRequestReceived(n, b, e, pd)))
            } else {
                Ok(Some(Event::ApplicationMessageReceived(n, pd)))
            }
        },
    }
}

/// Why an inbound message stops the session outright.
#[derive(Debug, Clone, Copy, PartialEq, Eq, Structural)]
pub enum DecodeErrorKind {
    /// A SequenceReset carried a GapFillFlag that is neither `Y` nor `N`.
    BadGapFillFlag,
}

/// An initiator starts a new session (and resets the sequence numbers) when nothing was sent
/// since today's start time; both are seconds since the Unix epoch.
pub fn is_new_session(is_initiator: bool, last_send_time: Option<i64>, start_time: i64) -> (r: bool)
    ensures
        r == (is_initiator && match last_send_time {
            Some(t) => t < start_time,
            None => true,
        }),
{
    if !is_initiator {
        return false;
    }
    match last_send_time {
        Some(t) => t < start_time,
        None => true,
    }
}

/// Checks the session fields of an inbound message against the expected CompIDs and the clock
/// now (see [`crate::validate::validate_msg`]).
pub fn check_inbound(
    cb: &SessionParserCallback,
    expected_sender_comp_id: &str,
    expected_target_comp_id: &str,
) -> (r: Result<(), SessionError>)
    ensures
        exists|now: i64| match #[trigger] crate::validate::spec_validate(
            expected_sender_comp_id.spec_bytes(),
            expected_target_comp_id.spec_bytes(),
            cb.msg_type,
            opt_vec_view(&cb.target_comp_id),
            opt_vec_view(&cb.sender_comp_id),
            cb.sending_time,
            cb.poss_dup_flag,
            cb.orig_sending_time,
            cb.begin_seq_no,
            cb.end_seq_no,
            now,
        ) {
            None => r is Ok,
            Some((reason, tag)) => r matches Err(SessionError::MessageRejected { reject_reason, ref_tag_id, .. })
                && reject_reason == Some(reason) && ref_tag_id == tag,
        },
{
    let now = crate::outbound::now_timestamp();
    let target = match &cb.target_comp_id {
        Some(v) => Some(v.as_slice()),
        None => None,
    };
    let sender = match &cb.sender_comp_id {
        Some(v) => Some(v.as_slice()),
        None => None,
    };
    let r = crate::validate::validate_msg(
        expected_sender_comp_id,
        expected_target_comp_id,
        cb.msg_type,
        cb.msg_seq_num,
        target,
        sender,
        cb.sending_time,
        cb.poss_dup_flag,
        cb.orig_sending_time,
        cb.begin_seq_no,
        cb.end_seq_no,
        now,
    );
    proof {
        assert(crate::validate::opt_view(target) == opt_vec_view(&cb.target_comp_id));
        assert(crate::validate::opt_view(sender) == opt_vec_view(&cb.sender_comp_id));
    }
    r
}

pub open spec fn opt_vec_view(o: &Option<Vec<u8>>) -> Option<Seq<u8>> {
    match o {
        Some(v) => Some(v@),
        None => None,
    }
}

} // verus!
