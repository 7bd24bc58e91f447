//! The checks an inbound message must pass before the session acts on it.

use vstd::prelude::*;
use crate::checksum::{checksum_is_valid, spec_checksum_is_valid};
use crate::error::{GarbledMessageType, SessionError};
use crate::fields::{MsgType, SessionRejectReason};
use crate::mem::MsgBuf;
use vstd::string::StringSliceAdditionalSpecFns;

verus! {

/// How far SendingTime may stand from the local clock, in seconds.
pub const SENDING_TIME_THRESHOLD: i64 = 10;

/// Do two byte strings hold the same bytes?
pub fn bytes_eq(a: &[u8], b: &[u8]) -> (r: bool)
    ensures
        r == (a@ == b@),
{
    if a.len() != b.len() {
        return false;
    }
    let mut i: usize = 0;
    while i < a.len()
        invariant
            i <= a@.len(),
            a@.len() == b@.len(),
            forall|j: int| 0 <= j < i ==> a@[j] == b@[j],
        decreases a.len() - i,
    {
        if a[i] != b[i] {
            return false;
        }
        i = i + 1;
    }
    proof {
        assert(a@ =~= b@);
    }
    true
}

fn opt_bytes_eq(expected: &str, got: Option<&[u8]>) -> (r: bool)
    ensures
        r == (got matches Some(g) && g@ == expected.spec_bytes()),
{
    match got {
        Some(g) => bytes_eq(expected.as_bytes(), g),
        None => false,
    }
}

/// Is SendingTime within the threshold of `now`, both in seconds?
pub open spec fn spec_valid_sending_time(sending_time: i64, now: i64) -> bool {
    now - sending_time < SENDING_TIME_THRESHOLD && sending_time - now < SENDING_TIME_THRESHOLD
}

pub fn valid_sending_time(sending_time: i64, now: i64) -> (r: bool)
    ensures
        r == spec_valid_sending_time(sending_time, now),
{
    let d = now as i128 - sending_time as i128;
    d < SENDING_TIME_THRESHOLD as i128 && -d < SENDING_TIME_THRESHOLD as i128
}

/// The first check an inbound message fails, as the reject reason and the tag it names, or
/// `None` when it passes them all.
pub open spec fn spec_validate(
    expected_sender_comp_id: Seq<u8>,
    expected_target_comp_id: Seq<u8>,
    msg_type: char,
    target_comp_id: Option<Seq<u8>>,
    sender_comp_id: Option<Seq<u8>>,
    sending_time: Option<i64>,
    poss_dup_flag: Option<char>,
    orig_sending_time: Option<i64>,
    begin_seq_no: Option<u32>,
    end_seq_no: Option<u32>,
    now: i64,
) -> Option<(SessionRejectReason, Option<u32>)> {
    if MsgType::spec_from(msg_type) is None {
        Some((SessionRejectReason::INVALID_MSGTYPE, Some(35u32)))
    } else if target_comp_id != Some(expected_target_comp_id) {
        Some((SessionRejectReason::COMPID_PROBLEM, Some(56u32)))
    } else if sender_comp_id != Some(expected_sender_comp_id) {
        Some((SessionRejectReason::COMPID_PROBLEM, Some(49u32)))
    } else if sending_time is None {
        Some((SessionRejectReason::REQUIRED_TAG_MISSING, Some(52u32)))
    } else if !spec_valid_sending_time(sending_time->Some_0, now) {
        Some((SessionRejectReason::SENDINGTIME_ACCURACY_PROBLEM, Some(52u32)))
    } else if poss_dup_flag == Some('Y') && orig_sending_time is None {
        Some((SessionRejectReason::REQUIRED_TAG_MISSING, Some(122u32)))
    } else if poss_dup_flag == Some('Y') && orig_sending_time->Some_0 > sending_time->Some_0 {
        Some((SessionRejectReason::SENDINGTIME_ACCURACY_PROBLEM, None))
    } else if poss_dup_flag is Some && poss_dup_flag != Some('Y') && poss_dup_flag != Some('N') {
        Some((SessionRejectReason::VALUE_IS_INCORRECT, Some(43u32)))
    } else if msg_type == '2' && (begin_seq_no is None || end_seq_no is None) {
        Some((SessionRejectReason::REQUIRED_TAG_MISSING, None))
    } else {
        None
    }
}

pub open spec fn opt_view(o: Option<&[u8]>) -> Option<Seq<u8>> {
    match o {
        Some(s) => Some(s@),
        None => None,
    }
}

fn reject(reason: SessionRejectReason, msg_seq_num: u32, tag: Option<u32>, msg_type: char) -> (r: Result<(), SessionError>)
    ensures
        r matches Err(SessionError::MessageRejected { reject_reason, msg_seq_num: n, ref_tag_id, ref_msg_type, .. })
            && reject_reason == Some(reason) && n == msg_seq_num && ref_tag_id == tag && ref_msg_type == Some(msg_type),
{
    Err(SessionError::new_message_rejected(Some(reason), msg_seq_num, tag, Some(msg_type)))
}

/// Checks an inbound message's MsgType, CompIDs, SendingTime (against the clock reading
/// `now`, in seconds), PossDup fields and, for a ResendRequest, its range; the first check
/// that fails gives the rejection.
pub fn validate_msg(
    expected_sender_comp_id: &str,
    expected_target_comp_id: &str,
    msg_type: char,
    msg_seq_num: u32,
    target_comp_id: Option<&[u8]>,
    sender_comp_id: Option<&[u8]>,
    sending_time: Option<i64>,
    poss_dup_flag: Option<char>,
    orig_sending_time: Option<i64>,
    begin_seq_no: Option<u32>,
    end_seq_no: Option<u32>,
    now: i64,
) -> (r: Result<(), SessionError>)
    ensures
        match spec_validate(
            expected_sender_comp_id.spec_bytes(),
            expected_target_comp_id.spec_bytes(),
            msg_type,
            opt_view(target_comp_id),
            opt_view(sender_comp_id),
            sending_time,
            poss_dup_flag,
            orig_sending_time,
            begin_seq_no,
            end_seq_no,
            now,
        ) {
            None => r is Ok,
            Some((reason, tag)) => r matches Err(SessionError::MessageRejected {
                reject_reason,
                msg_seq_num: n,
                ref_tag_id,
                ref_msg_type,
                ..
            }) && reject_reason == Some(reason) && n == msg_seq_num && ref_tag_id == tag
                && ref_msg_type == Some(msg_type),
        },
{
    if MsgType::from_char(msg_type).is_err() {
        return reject(SessionRejectReason::INVALID_MSGTYPE, msg_seq_num, Some(35), msg_type);
    }
    if !opt_bytes_eq(expected_target_comp_id, target_comp_id) {
        return reject(SessionRejectReason::COMPID_PROBLEM, msg_seq_num, Some(56), msg_type);
    }
    if !opt_bytes_eq(expected_sender_comp_id, sender_comp_id) {
        return reject(SessionRejectReason::COMPID_PROBLEM, msg_seq_num, Some(49), msg_type);
    }
    let st = match sending_time {
        Some(t) => t,
        None => {
            return reject(SessionRejectReason::REQUIRED_TAG_MISSING, msg_seq_num, Some(52), msg_type);
        },
    };
    if !valid_sending_time(st, now) {
        return reject(SessionRejectReason::SENDINGTIME_ACCURACY_PROBLEM, msg_seq_num, Some(52), msg_type);
    }
    match poss_dup_flag {
        Some('Y') => {
            validate_duplicate(msg_seq_num, msg_type, st, orig_sending_time)?;
        },
        Some('N') | None => {},
        Some(_) => {
            return reject(SessionRejectReason::VALUE_IS_INCORRECT, msg_seq_num, Some(43), msg_type);
        },
    }
    if msg_type == '2' && !valid_resend_request(begin_seq_no, end_seq_no) {
        return reject(SessionRejectReason::REQUIRED_TAG_MISSING, msg_seq_num, None, msg_type);
    }
    Ok(())
}

fn valid_resend_request(begin_seq_no: Option<u32>, end_seq_no: Option<u32>) -> (r: bool)
    ensures
        r == (begin_seq_no is Some && end_seq_no is Some),
{
    begin_seq_no.is_some() && end_seq_no.is_some()
}

/// A PossDup message must carry OrigSendingTime, no later than its SendingTime.
fn validate_duplicate(
    msg_seq_num: u32,
    msg_type: char,
    sending_time: i64,
    orig_sending_time: Option<i64>,
) -> (r: Result<(), SessionError>)
    ensures
        orig_sending_time is None ==> (r matches Err(SessionError::MessageRejected {
            reject_reason,
            msg_seq_num: n,
            ref_tag_id,
            ref_msg_type,
            ..
        }) && reject_reason == Some(SessionRejectReason::REQUIRED_TAG_MISSING) && n == msg_seq_num
            && ref_tag_id == Some(122u32) && ref_msg_type == Some(msg_type)),
        orig_sending_time matches Some(o) && o > sending_time ==> (r matches Err(SessionError::MessageRejected {
            reject_reason,
            msg_seq_num: n,
            ref_tag_id,
            ref_msg_type,
            ..
        }) && reject_reason == Some(SessionRejectReason::SENDINGTIME_ACCURACY_PROBLEM) && n
            == msg_seq_num && ref_tag_id is None && ref_msg_type == Some(msg_type)),
        orig_sending_time matches Some(o) && o <= sending_time ==> r is Ok,
{
    match orig_sending_time {
        None => reject(SessionRejectReason::REQUIRED_TAG_MISSING, msg_seq_num, Some(122), msg_type),
        Some(o) => if o > sending_time {
            reject(SessionRejectReason::SENDINGTIME_ACCURACY_PROBLEM, msg_seq_num, None, msg_type)
        } else {
            Ok(())
        },
    }
}

/// A message whose checksum field does not hold the checksum of the bytes before it is
/// garbled.
pub fn validate_checksum(msg_buf: &MsgBuf) -> (r: Result<(), SessionError>)
    ensures
        spec_checksum_is_valid(msg_buf.0@) ==> r is Ok,
        !spec_checksum_is_valid(msg_buf.0@) ==> (r matches Err(SessionError::GarbledMessage { garbled_msg_type, .. })
            && garbled_msg_type == GarbledMessageType::ChecksumIssue),
{
    if !checksum_is_valid(msg_buf.as_slice()) {
        return Err(SessionError::new_garbled_message("Checksum invalid".to_owned(), GarbledMessageType::ChecksumIssue));
    }
    Ok(())
}

/// The seven bytes before `msg_length` must open the checksum field, `10=`; otherwise
/// BodyLength was wrong.
pub fn validate_msg_length(msg_buf: &[u8], msg_length: usize) -> (r: Result<(), SessionError>)
    requires
        msg_length <= msg_buf@.len(),
    ensures
        (msg_length >= 7 && msg_buf@[msg_length - 7] == 49 && msg_buf@[msg_length - 6] == 48
            && msg_buf@[msg_length - 5] == 61) ==> r is Ok,
        !(msg_length >= 7 && msg_buf@[msg_length - 7] == 49 && msg_buf@[msg_length - 6] == 48
            && msg_buf@[msg_length - 5] == 61) ==> (r matches Err(SessionError::GarbledMessage { garbled_msg_type, .. })
            && garbled_msg_type == GarbledMessageType::BodyLengthIssue),
{
    if msg_length < 7 || msg_buf[msg_length - 7] != 49 || msg_buf[msg_length - 6] != 48
        || msg_buf[msg_length - 5] != 61 {
        return Err(SessionError::new_garbled_message("BodyLength(9) was incorrect".to_owned(), GarbledMessageType::BodyLengthIssue));
    }
    Ok(())
}

} // verus!
