//! The faults a session meets while it reads and checks inbound messages.

use vstd::prelude::*;
use crate::fields::SessionRejectReason;

verus! {

/// What was wrong with a message that could not be framed.
#[derive(Debug, Clone, Copy, PartialEq, Eq, Structural)]
pub enum GarbledMessageType {
    BeginStringIssue,
    BodyLengthIssue,
    MsgTypeIssue,
    ChecksumIssue,
    Other,
}

/// A fault met by the session while it reads an inbound message.
#[derive(Debug, Clone, PartialEq, Eq)]
pub enum SessionError {
    /// The bytes could not be framed as a message; they are discarded.
    GarbledMessage { text: String, garbled_msg_type: GarbledMessageType },
    /// The message had no readable MsgSeqNum.
    MissingMsgSeqNum { text: String },
    /// The message is rejected with a Reject(3) message.
    MessageRejected {
        text: String,
        reject_reason: Option<SessionRejectReason>,
        msg_seq_num: u32,
        ref_tag_id: Option<u32>,
        ref_msg_type: Option<char>,
    },
    /// A stored message could not be rewritten for retransmission.
    ResendError,
    /// The peer closed the connection.
    TcpDisconnection,
}

impl SessionRejectReason {
    /// The text that describes the reason.
    pub open spec fn spec_text(self) -> Seq<char> {
        match self {
            SessionRejectReason::INVALID_TAG_NUMBER => "Invalid tag number"@,
            SessionRejectReason::REQUIRED_TAG_MISSING => "Required tag missing"@,
            SessionRejectReason::SENDINGTIME_ACCURACY_PROBLEM => "SendingTime accuracy problem"@,
            SessionRejectReason::INVALID_MSGTYPE => "Invalid MsgType"@,
            SessionRejectReason::TAG_NOT_DEFINED_FOR_THIS_MESSAGE_TYPE => "Tag not defined for this message type"@,
            SessionRejectReason::UNDEFINED_TAG => "Undefined tag"@,
            SessionRejectReason::TAG_SPECIFIED_WITHOUT_A_VALUE => "Tag specified without a value"@,
            SessionRejectReason::VALUE_IS_INCORRECT => "Value is incorrect"@,
            SessionRejectReason::INCORRECT_DATA_FORMAT_FOR_VALUE => "Incorrect data format for value"@,
            SessionRejectReason::DECRYPTION_PROBLEM => "Decryption problem"@,
            SessionRejectReason::SIGNATURE_PROBLEM => "Signature problem"@,
            SessionRejectReason::COMPID_PROBLEM => "CompID problem"@,
        }
    }

    pub fn text(&self) -> (r: String)
        ensures
            r@ == self.spec_text(),
    {
        match self {
            SessionRejectReason::INVALID_TAG_NUMBER => "Invalid tag number".to_owned(),
            SessionRejectReason::REQUIRED_TAG_MISSING => "Required tag missing".to_owned(),
            SessionRejectReason::SENDINGTIME_ACCURACY_PROBLEM => "SendingTime accuracy problem".to_owned(),
            SessionRejectReason::INVALID_MSGTYPE => "Invalid MsgType".to_owned(),
            SessionRejectReason::TAG_NOT_DEFINED_FOR_THIS_MESSAGE_TYPE => "Tag not defined for this message type".to_owned(),
            SessionRejectReason::UNDEFINED_TAG => "Undefined tag".to_owned(),
            SessionRejectReason::TAG_SPECIFIED_WITHOUT_A_VALUE => "Tag specified without a value".to_owned(),
            SessionRejectReason::VALUE_IS_INCORRECT => "Value is incorrect".to_owned(),
            SessionRejectReason::INCORRECT_DATA_FORMAT_FOR_VALUE => "Incorrect data format for value".to_owned(),
            SessionRejectReason::DECRYPTION_PROBLEM => "Decryption problem".to_owned(),
            SessionRejectReason::SIGNATURE_PROBLEM => "Signature problem".to_owned(),
            SessionRejectReason::COMPID_PROBLEM => "CompID problem".to_owned(),
        }
    }
}

impl SessionError {
    /// A rejection whose text describes `reason` (empty when there is none).
    pub fn new_message_rejected(
        reason: Option<SessionRejectReason>,
        seq_num: u32,
        tag_id: Option<u32>,
        msg_type: Option<char>,
    ) -> (r: SessionError)
        ensures
            r matches SessionError::MessageRejected {
                text,
                reject_reason,
                msg_seq_num,
                ref_tag_id,
                ref_msg_type,
            } && reject_reason == reason && msg_seq_num == seq_num && ref_tag_id == tag_id
                && ref_msg_type == msg_type && text@ == match reason {
                Some(x) => x.spec_text(),
                None => Seq::<char>::empty(),
            },
    {
        let text = match &reason {
            Some(x) => x.text(),
            None => String::new(),
        };
        SessionError::MessageRejected {
            text,
            reject_reason: reason,
            msg_seq_num: seq_num,
            ref_tag_id: tag_id,
            ref_msg_type: msg_type,
        }
    }

    pub fn new_garbled_message(text: String, t: GarbledMessageType) -> (r: SessionError)
        ensures
            r == (SessionError::GarbledMessage { text, garbled_msg_type: t }),
    {
        SessionError::GarbledMessage { text, garbled_msg_type: t }
    }
}

} // verus!
