use forgefix::checksum::checksum_is_valid;
use forgefix::decode::{parse_field, parse_header, parse_peeked_prefix, DecodeError, FieldIter, MessageParseError};
use forgefix::encode::{comp_id_headers, AdditionalHeaders, MessageBuilder};
use forgefix::error::{GarbledMessageType, SessionError};
use forgefix::fields::{GapFillFlag, PossDupFlag, SessionRejectReason};
use forgefix::inbound::{logout_duration, message_event, read_session_fields, test_request_duration, to_poss_dup_flag, SessionParserCallback};
use forgefix::mem::MsgBuf;
use forgefix::resend::{plan_resend, resend_range, ResendAction};
use forgefix::session::{should_disconnect, should_pass_app_message, should_resend, Event, MyStateMachine, Outgoing, ReturnState, SessionMsg, State};
use forgefix::stream::{frame_next, FrameStep, HeaderBuf};
use forgefix::validate::{validate_checksum, validate_msg};

fn logged_in(next_incoming: u32) -> MyStateMachine {
    let mut sm = MyStateMachine::new(String::from("FIX.4.2"), (next_incoming, 1));
    sm.handle(Event::Accept);
    let mut sm2 = MyStateMachine::new(String::from("FIX.4.2"), (next_incoming, 1));
    sm2.handle(Event::Connect(false));
    sm2.handle(Event::LogonReceived(next_incoming, 30, Some(0), false, None));
    assert_eq!(sm2.state(), State::LoggedIn);
    drain(&mut sm2);
    sm2
}

fn drain(sm: &mut MyStateMachine) -> Vec<Outgoing> {
    let mut v = Vec::new();
    while let Some(o) = sm.outbox_pop() {
        v.push(o);
    }
    v
}

fn app(n: u32) -> Event {
    Event::ApplicationMessageReceived(n, None)
}

#[test]
fn length_prefixed_data_field_keeps_soh() {
    let msg = b"93=6\x018=A\x0189=12\x01456\x0110=123\x01";
    let mut it = FieldIter::new(msg);
    let mut tags = Vec::new();
    let mut values: Vec<Vec<u8>> = Vec::new();
    while let Some(r) = it.next() {
        let (t, v) = r.unwrap();
        tags.push(t);
        values.push(v.to_vec());
    }
    assert_eq!(tags, vec![93, 8, 89, 10]);
    assert_eq!(values, vec![b"6".to_vec(), b"A".to_vec(), b"12\x01456".to_vec(), b"123".to_vec()]);
}

#[test]
fn bad_length_field_stops_decoding() {
    let msg = b"93=6A\x018=A\x0189=12\x01456\x0110=123\x01";
    let mut it = FieldIter::new(msg);
    match it.next() {
        Some(Err(MessageParseError::BadLengthField(93, v))) => assert_eq!(v, b"6A".to_vec()),
        other => panic!("unexpected {:?}", other),
    }
    assert!(it.next().is_none());
}

#[test]
fn unexpected_byte_is_reported() {
    let msg = b"8\x01=FIX.4.2";
    let mut it = FieldIter::new(msg);
    match it.next() {
        Some(Err(MessageParseError::UnexpectedByte(1, m))) => assert_eq!(m, msg.to_vec()),
        other => panic!("unexpected {:?}", other),
    }
}

#[test]
fn in_order_sequence_numbers_advance() {
    let mut sm = logged_in(1);
    assert_eq!(sm.snapshot().sequences.incoming, 2);
    sm.handle(app(2));
    sm.handle(app(3));
    assert_eq!(sm.snapshot().sequences.incoming, 4);
    assert!(drain(&mut sm).is_empty());
    assert_eq!(sm.state(), State::LoggedIn);
}

#[test]
fn gap_sends_one_resend_request() {
    let mut sm = logged_in(1);
    sm.handle(app(5));
    let out = drain(&mut sm);
    assert_eq!(out.len(), 1);
    match &out[0] {
        Outgoing::Session(SessionMsg::ResendRequest { begin_seq_no: 2 }) => {}
        o => panic!("unexpected {:?}", o),
    }
    assert_eq!(sm.state(), State::ExpectingResends { return_state: ReturnState::LoggedIn });
    let b = SessionMsg::ResendRequest { begin_seq_no: 2 }.to_builder("FIX.4.2");
    assert_eq!(b.msg_type(), '2');
    let bytes = b.build(2, &AdditionalHeaders::default(), b"20240101-00:00:00.000").unwrap();
    let text = String::from_utf8(bytes).unwrap();
    assert!(text.contains("\x0134=2\x01"));
    assert!(text.contains("\x017=2\x0116=0\x01"));
}

#[test]
fn low_sequence_number_without_poss_dup_logs_out() {
    let mut sm = logged_in(4);
    sm.handle(app(5));
    sm.handle(app(6));
    assert_eq!(sm.snapshot().sequences.incoming, 7);
    drain(&mut sm);
    let mut sm = MyStateMachine::new(String::from("FIX.4.2"), (4, 1));
    sm.handle(Event::Connect(false));
    sm.handle(Event::LogonReceived(4, 30, Some(0), false, None));
    drain(&mut sm);
    assert_eq!(sm.snapshot().sequences.incoming, 5);
    sm.handle(app(3));
    let out = drain(&mut sm);
    assert_eq!(out.len(), 1);
    match &out[0] {
        Outgoing::Session(m @ SessionMsg::LogoutSeqTooLow { expected: 5, received: 3 }) => {
            let b = m.to_builder("FIX.4.2");
            let bytes = b.build(9, &AdditionalHeaders::default(), b"20240101-00:00:00.000").unwrap();
            let text = String::from_utf8(bytes).unwrap();
            assert!(text.contains("58=MsgSeqNum too low, expecting 5 but received 3\x01"));
        }
        o => panic!("unexpected {:?}", o),
    }
    assert_eq!(sm.state(), State::Error);
    assert!(should_disconnect(&sm));
}

#[test]
fn low_sequence_number_with_poss_dup_is_ignored() {
    let mut sm = logged_in(5);
    sm.handle(Event::ApplicationMessageReceived(3, Some(PossDupFlag::YES)));
    assert!(drain(&mut sm).is_empty());
    assert_eq!(sm.state(), State::LoggedIn);
    assert_eq!(sm.snapshot().sequences.incoming, 6);
}

#[test]
fn replay_coalesces_session_messages() {
    let stored = vec![(2, false), (3, false), (4, true), (5, false)];
    let plan = plan_resend(&stored, 5);
    assert_eq!(
        plan,
        vec![
            ResendAction::Retransmit(0),
            ResendAction::Retransmit(1),
            ResendAction::GapFill { msg_seq_num: 4, new_seq_no: 5 },
            ResendAction::Retransmit(3),
        ]
    );
    let stored = vec![(1, true), (2, false), (3, true), (4, true)];
    assert_eq!(
        plan_resend(&stored, 4),
        vec![
            ResendAction::GapFill { msg_seq_num: 1, new_seq_no: 2 },
            ResendAction::Retransmit(1),
            ResendAction::GapFill { msg_seq_num: 3, new_seq_no: 5 },
        ]
    );
    assert_eq!(resend_range(Some(2), Some(0), 6), (2, 5));
    assert_eq!(resend_range(None, Some(4), 6), (4, 4));
}

#[test]
fn timers_emit_heartbeat_then_test_request() {
    assert_eq!(test_request_duration(1000), 1700);
    assert_eq!(logout_duration(1000), 2000);
    assert_eq!(test_request_duration(30_000), 51_000);
    let mut sm = logged_in(1);
    sm.handle(Event::SendHeartbeat);
    let out = drain(&mut sm);
    assert_eq!(out.len(), 1);
    assert!(matches!(out[0], Outgoing::Session(SessionMsg::Heartbeat { test_req_id: None })));
    assert_eq!(sm.state(), State::LoggedIn);
    sm.handle(Event::SendTestRequest(1));
    let out = drain(&mut sm);
    assert_eq!(out.len(), 1);
    assert!(matches!(out[0], Outgoing::Session(SessionMsg::TestRequest)));
    assert_eq!(sm.state(), State::ExpectingTestResponse);
}

#[test]
fn heartbeat_answers_test_request() {
    let mut sm = logged_in(1);
    sm.handle(Event::SendTestRequest(1));
    drain(&mut sm);
    sm.handle(Event::HeartbeatReceived(2, None));
    assert_eq!(sm.state(), State::LoggedIn);
    assert_eq!(sm.snapshot().sequences.incoming, 3);
}

#[test]
fn missed_test_request_is_an_error() {
    let mut sm = logged_in(1);
    sm.handle(Event::SendTestRequest(1));
    sm.handle(Event::SendHeartbeat);
    assert_eq!(sm.state(), State::Error);
}

#[test]
fn initiator_reset_logon_and_logout() {
    let mut sm = MyStateMachine::new(String::from("FIX.4.2"), (7, 9));
    sm.set_logon_resp_sender(true);
    sm.handle(Event::Connect(true));
    assert_eq!(sm.snapshot().sequences.incoming, 1);
    assert_eq!(sm.snapshot().sequences.outgoing, 1);
    let out = drain(&mut sm);
    match &out[0] {
        Outgoing::Session(m @ SessionMsg::Logon { heart_bt_int: 30, reset_seq_num: true }) => {
            let bytes = m.to_builder("FIX.4.2").build(1, &AdditionalHeaders::default(), b"20240101-00:00:00.000").unwrap();
            let text = String::from_utf8(bytes).unwrap();
            assert!(text.contains("35=A\x0134=1\x0152=20240101-00:00:00.000\x0198=0\x01108=30\x01141=Y\x01"));
        }
        o => panic!("unexpected {:?}", o),
    }
    assert_eq!(sm.state(), State::LogonSent);
    sm.handle(Event::LogonReceived(1, 30, Some(0), true, None));
    assert_eq!(sm.state(), State::LoggedIn);
    assert_eq!(sm.take_logon_response(), Some(true));
    sm.set_logout_resp_sender(true);
    sm.handle(Event::LogoutSent);
    assert_eq!(sm.state(), State::LogoutSent);
    sm.handle(Event::LogoutReceived(2, None));
    assert_eq!(sm.state(), State::End);
    sm.send_logout_response(true);
    assert_eq!(sm.take_logout_response(), Some(true));
}

#[test]
fn acceptor_answers_logon_and_passes_application_message() {
    let mut sm = MyStateMachine::new(String::from("FIX.4.2"), (1, 1));
    sm.handle(Event::Accept);
    assert_eq!(sm.state(), State::Connected);
    sm.handle(Event::LogonReceived(1, 30, Some(0), false, None));
    let out = drain(&mut sm);
    assert!(matches!(out[0], Outgoing::Session(SessionMsg::Logon { heart_bt_int: 30, reset_seq_num: false })));
    assert_eq!(sm.state(), State::LoggedIn);
    assert!(should_pass_app_message(&sm, 2));
    sm.handle(app(2));
    assert_eq!(sm.snapshot().sequences.incoming, 3);
}

#[test]
fn acceptor_refuses_encryption() {
    let mut sm = MyStateMachine::new(String::from("FIX.4.2"), (1, 1));
    sm.set_logon_resp_sender(true);
    sm.handle(Event::Accept);
    sm.handle(Event::LogonReceived(1, 30, Some(1), false, None));
    assert_eq!(sm.state(), State::Error);
    assert_eq!(sm.take_logon_response(), Some(false));
}

#[test]
fn gap_then_poss_dup_resends_fill_it() {
    let mut sm = logged_in(1);
    sm.handle(app(3));
    let out = drain(&mut sm);
    assert!(matches!(out[0], Outgoing::Session(SessionMsg::ResendRequest { begin_seq_no: 2 })));
    assert!(should_resend(&sm));
    assert!(should_pass_app_message(&sm, 2));
    assert!(!should_pass_app_message(&sm, 3));
    sm.handle(Event::ApplicationMessageReceived(2, Some(PossDupFlag::YES)));
    assert_eq!(sm.state(), State::ExpectingResends { return_state: ReturnState::LoggedIn });
    assert!(should_pass_app_message(&sm, 3));
    sm.handle(Event::ApplicationMessageReceived(3, Some(PossDupFlag::YES)));
    assert_eq!(sm.state(), State::LoggedIn);
    assert_eq!(sm.snapshot().sequences.incoming, 4);
    assert!(sm.snapshot().rereceive_range.is_none());
}

#[test]
fn gap_fill_sequence_reset_jumps_the_cursor() {
    let mut sm = logged_in(1);
    sm.handle(app(5));
    drain(&mut sm);
    sm.handle(Event::SequenceResetReceived {
        msg_seq_num: 2,
        gap_fill: Some(GapFillFlag::YES),
        new_seq_no: 6,
        poss_dup: Some(PossDupFlag::YES),
    });
    assert_eq!(sm.state(), State::LoggedIn);
    assert_eq!(sm.snapshot().sequences.incoming, 6);
}

#[test]
fn backward_sequence_reset_is_rejected() {
    let mut sm = logged_in(5);
    sm.handle(Event::SequenceResetReceived { msg_seq_num: 6, gap_fill: None, new_seq_no: 3, poss_dup: None });
    let out = drain(&mut sm);
    match &out[0] {
        Outgoing::Session(m @ SessionMsg::RejectNewSeqNo { ref_seq_num: 6 }) => {
            let bytes = m.to_builder("FIX.4.2").build(2, &AdditionalHeaders::default(), b"20240101-00:00:00.000").unwrap();
            let text = String::from_utf8(bytes).unwrap();
            assert!(text.contains("45=6\x0158=Value is incorrect (out of range) for this tag\x01372=4\x01373=5\x01"));
        }
        o => panic!("unexpected {:?}", o),
    }
    assert_eq!(sm.snapshot().sequences.incoming, 6);
    sm.handle(Event::SequenceResetReceived { msg_seq_num: 9, gap_fill: None, new_seq_no: 20, poss_dup: None });
    assert_eq!(sm.snapshot().sequences.incoming, 20);
}

#[test]
fn bad_checksum_is_garbled_and_changes_nothing() {
    let msg = MsgBuf(b"8=FIX.4.2\x019=5\x0135=0\x0110=000\x01".to_vec());
    match validate_checksum(&msg) {
        Err(SessionError::GarbledMessage { garbled_msg_type: GarbledMessageType::ChecksumIssue, .. }) => {}
        other => panic!("unexpected {:?}", other),
    }
    let mut sm = logged_in(1);
    sm.handle(Event::SessionErrorReceived {
        error: SessionError::GarbledMessage { text: String::from("Checksum invalid"), garbled_msg_type: GarbledMessageType::ChecksumIssue },
    });
    assert!(drain(&mut sm).is_empty());
    assert_eq!(sm.snapshot().sequences.incoming, 2);
    assert_eq!(sm.state(), State::LoggedIn);
}

#[test]
fn logout_after_pending_application_messages() {
    let mut sm = logged_in(1);
    sm.outbox_push_with_sender(MessageBuilder::new("FIX.4.2", 'D'), true);
    sm.handle(Event::LogoutReceived(2, None));
    let out = drain(&mut sm);
    assert_eq!(out.len(), 2);
    assert!(matches!(out[0], Outgoing::Application(_, true)));
    assert!(matches!(out[1], Outgoing::Session(SessionMsg::Logout { text: None })));
    assert_eq!(sm.state(), State::End);
}

#[test]
fn rejected_message_advances_and_rejects() {
    let mut sm = logged_in(1);
    sm.handle(Event::SessionErrorReceived {
        error: SessionError::new_message_rejected(Some(SessionRejectReason::COMPID_PROBLEM), 2, Some(56), Some('D')),
    });
    let out = drain(&mut sm);
    assert_eq!(out.len(), 2);
    match &out[0] {
        Outgoing::Session(m @ SessionMsg::Reject { .. }) => {
            let bytes = m.to_builder("FIX.4.2").build(2, &AdditionalHeaders::default(), b"20240101-00:00:00.000").unwrap();
            let text = String::from_utf8(bytes).unwrap();
            assert!(text.contains("35=3\x01"));
            assert!(text.contains("45=2\x0158=CompID problem\x01371=56\x01372=D\x01373=9\x01"));
        }
        o => panic!("unexpected {:?}", o),
    }
    assert!(matches!(out[1], Outgoing::Session(SessionMsg::Logout { text: Some(_) })));
    assert_eq!(sm.state(), State::Error);
    assert_eq!(sm.snapshot().sequences.incoming, 3);
}

#[test]
fn garbled_begin_string_after_logon_logs_out() {
    let mut sm = logged_in(1);
    sm.handle(Event::SessionErrorReceived {
        error: SessionError::GarbledMessage { text: String::from("Incorrect BeginString"), garbled_msg_type: GarbledMessageType::BeginStringIssue },
    });
    let out = drain(&mut sm);
    assert!(matches!(&out[0], Outgoing::Session(SessionMsg::Logout { text: Some(t) }) if t == "Incorrect BeginString"));
    assert_eq!(sm.state(), State::Error);
}

#[test]
fn encoded_message_frames_and_checks() {
    let headers = AdditionalHeaders::new(comp_id_headers("TW", "ISLD"));
    let b = MessageBuilder::new("FIX.4.2", 'D').push(11, b"order-1").push(55, b"IBM");
    let bytes = b.build(7, &headers, b"20240506-13:59:15.021").unwrap();
    let text = String::from_utf8(bytes.clone()).unwrap();
    assert!(text.starts_with("8=FIX.4.2\x019="));
    assert!(text.contains("\x0135=D\x0134=7\x0149=TW\x0152=20240506-13:59:15.021\x0156=ISLD\x0111=order-1\x0155=IBM\x0110="));
    assert!(checksum_is_valid(&bytes));
    let p = parse_peeked_prefix(&bytes).unwrap();
    assert_eq!(p.msg_length, bytes.len());
    assert_eq!(p.msg_type, 'D');
    assert_eq!(parse_header(&bytes[..32]).unwrap(), bytes.len() - 32);
}

#[test]
fn prefix_errors_name_the_garble() {
    let kind = |h: &[u8]| match parse_peeked_prefix(h) {
        Err(SessionError::GarbledMessage { garbled_msg_type, .. }) => garbled_msg_type,
        other => panic!("unexpected {:?}", other),
    };
    assert_eq!(kind(b"8=FIX.5.2\x019=5\x0135=0\x01xxxxxxxxxxxxxxx"), GarbledMessageType::BeginStringIssue);
    assert_eq!(kind(b"9=FIX.4.2\x019=5\x0135=0\x01xxxxxxxxxxxxxxx"), GarbledMessageType::Other);
    assert_eq!(kind(b"8=FIX.4.2\x019=5a\x0135=0\x01xxxxxxxxxxxxxx"), GarbledMessageType::BodyLengthIssue);
    assert_eq!(kind(b"8=FIX.4.2\x019=5\x0136=0\x01xxxxxxxxxxxxxxx"), GarbledMessageType::MsgTypeIssue);
}

#[test]
fn resync_keeps_the_next_message_start() {
    let mut h = HeaderBuf::<32>::new();
    let data = b"8=FIX.5.2\x01xxxxxxxxxxxxxxxxxxx8=F";
    h.unfilled_mut()[..data.len()].copy_from_slice(data);
    h.advance(data.len());
    let mut junk = h.take(1);
    junk.extend(h.skip_junk());
    assert_eq!(h.filled(), b"8=F");
    assert_eq!(junk, data[..data.len() - 3].to_vec());
    assert!(h.starts_with_message_beginning());
    let mut h = HeaderBuf::<32>::new();
    let data = b"xxxxxxxx8=";
    h.unfilled_mut()[..data.len()].copy_from_slice(data);
    h.advance(data.len());
    assert_eq!(h.skip_junk(), b"xxxxxxxx".to_vec());
    assert_eq!(h.filled(), b"8=");
}

#[test]
fn session_fields_and_events() {
    let mut cb = SessionParserCallback::default();
    assert!(cb.on_header(35, b"A").unwrap());
    assert!(cb.on_header(34, b"12").unwrap());
    assert!(cb.on_body(108, b"45").unwrap());
    assert!(cb.on_body(98, b"0").unwrap());
    assert!(cb.on_body(141, b"Y").unwrap());
    assert_eq!(cb.msg_seq_num, 12);
    match message_event(cb, 30, 1) {
        Ok(Some(Event::LogonReceived(12, 45, Some(0), true, None))) => {}
        other => panic!("unexpected {:?}", other),
    }
    assert!(matches!(SessionParserCallback::default().on_header(34, b"x"), Err(SessionError::MissingMsgSeqNum { .. })));
    let mut cb = SessionParserCallback::default();
    cb.on_header(35, b"4").unwrap();
    cb.on_body(36, b"9").unwrap();
    cb.on_body(123, b"Q").unwrap();
    assert!(message_event(cb, 30, 1).is_err());
    let mut cb = SessionParserCallback::default();
    cb.on_header(35, b"D").unwrap();
    assert!(!cb.on_body(11, b"x").unwrap());
    assert_eq!(to_poss_dup_flag(Some('Y')), Some(PossDupFlag::YES));
    assert_eq!(to_poss_dup_flag(Some('Z')), Some(PossDupFlag::NO));
}

#[test]
fn sending_time_is_read_through_the_date_parser() {
    let mut cb = SessionParserCallback::default();
    assert!(cb.on_header(52, b"20220101-12:13:14.000").unwrap());
    assert_eq!(cb.sending_time, Some(1641039194));
    assert!(cb.on_header(122, b"20220101-12:13:10").unwrap());
    assert_eq!(cb.orig_sending_time, Some(1641039190));
    match SessionParserCallback::default().on_header(52, b"not a time") {
        Err(SessionError::MessageRejected { reject_reason: Some(SessionRejectReason::INCORRECT_DATA_FORMAT_FOR_VALUE), ref_tag_id: Some(52), .. }) => {}
        other => panic!("unexpected {:?}", other),
    }
}

#[test]
fn validation_names_the_first_fault() {
    let ok = validate_msg("ISLD", "TW", 'D', 3, Some(b"TW"), Some(b"ISLD"), Some(1000), None, None, None, None, 1005);
    assert!(ok.is_ok());
    let reason = |r: Result<(), SessionError>| match r {
        Err(SessionError::MessageRejected { reject_reason, ref_tag_id, .. }) => (reject_reason.unwrap(), ref_tag_id),
        other => panic!("unexpected {:?}", other),
    };
    assert_eq!(reason(validate_msg("ISLD", "TW", '~', 3, Some(b"TW"), Some(b"ISLD"), Some(1000), None, None, None, None, 1000)), (SessionRejectReason::INVALID_MSGTYPE, Some(35)));
    assert_eq!(reason(validate_msg("ISLD", "TW", 'D', 3, Some(b"XX"), Some(b"ISLD"), Some(1000), None, None, None, None, 1000)), (SessionRejectReason::COMPID_PROBLEM, Some(56)));
    assert_eq!(reason(validate_msg("ISLD", "TW", 'D', 3, Some(b"TW"), None, Some(1000), None, None, None, None, 1000)), (SessionRejectReason::COMPID_PROBLEM, Some(49)));
    assert_eq!(reason(validate_msg("ISLD", "TW", 'D', 3, Some(b"TW"), Some(b"ISLD"), None, None, None, None, None, 1000)), (SessionRejectReason::REQUIRED_TAG_MISSING, Some(52)));
    assert_eq!(reason(validate_msg("ISLD", "TW", 'D', 3, Some(b"TW"), Some(b"ISLD"), Some(1000), None, None, None, None, 1010)), (SessionRejectReason::SENDINGTIME_ACCURACY_PROBLEM, Some(52)));
    assert_eq!(reason(validate_msg("ISLD", "TW", 'D', 3, Some(b"TW"), Some(b"ISLD"), Some(1000), Some('Y'), None, None, None, 1000)), (SessionRejectReason::REQUIRED_TAG_MISSING, Some(122)));
    assert_eq!(reason(validate_msg("ISLD", "TW", 'D', 3, Some(b"TW"), Some(b"ISLD"), Some(1000), Some('Y'), Some(1001), None, None, 1000)), (SessionRejectReason::SENDINGTIME_ACCURACY_PROBLEM, None));
    assert_eq!(reason(validate_msg("ISLD", "TW", 'D', 3, Some(b"TW"), Some(b"ISLD"), Some(1000), Some('X'), None, None, None, 1000)), (SessionRejectReason::VALUE_IS_INCORRECT, Some(43)));
    assert_eq!(reason(validate_msg("ISLD", "TW", '2', 3, Some(b"TW"), Some(b"ISLD"), Some(1000), None, None, Some(1), None, 1000)), (SessionRejectReason::REQUIRED_TAG_MISSING, None));
}

#[test]
fn read_session_fields_of_a_heartbeat() {
    let msg = b"8=FIX.4.2\x019=30\x0135=1\x0134=4\x0149=ISLD\x0156=TW\x01112=ping\x0110=000\x01";
    let cb = read_session_fields(msg).unwrap();
    assert_eq!(cb.msg_type, '1');
    assert_eq!(cb.msg_seq_num, 4);
    assert_eq!(cb.test_req_id, Some(b"ping".to_vec()));
    assert_eq!(cb.sender_comp_id, Some(b"ISLD".to_vec()));
}

fn encoded(seq: u32, body: &[(u32, &[u8])]) -> Vec<u8> {
    let headers = AdditionalHeaders::new(comp_id_headers("TW", "ISLD"));
    let mut b = MessageBuilder::new("FIX.4.2", 'D');
    for (t, v) in body {
        b = b.push(*t, v);
    }
    b.build(seq, &headers, b"20240506-13:59:15.021").unwrap()
}

/// Frames a whole in-memory stream, handing the framer the bytes in small reads.
fn frame(stream: &[u8]) -> Vec<Result<Vec<u8>, Vec<u8>>> {
    let mut out = Vec::new();
    let mut buf: Vec<u8> = Vec::new();
    let mut pos = 0;
    loop {
        match frame_next(&buf) {
            FrameStep::Message(n) => out.push(Ok(buf.drain(..n).collect())),
            FrameStep::Garbled(n, _) => out.push(Err(buf.drain(..n).collect())),
            FrameStep::NeedMore => {
                if pos == stream.len() {
                    return out;
                }
                let k = 7.min(stream.len() - pos);
                buf.extend_from_slice(&stream[pos..pos + k]);
                pos += k;
            }
        }
    }
}

#[test]
fn framer_yields_messages_and_garble_in_order() {
    let m1 = encoded(1, &[(11, b"a")]);
    let m2 = encoded(2, &[(11, b"bb"), (55, b"IBM")]);
    let junk = b"xxxx 8= 9=FIX garbage".to_vec();
    let mut stream = m1.clone();
    stream.extend_from_slice(&junk);
    stream.extend_from_slice(&m2);
    assert_eq!(frame(&stream), vec![Ok(m1), Err(junk), Ok(m2)]);
}

#[test]
fn decoding_an_encoded_message_gives_its_fields() {
    let bytes = encoded(7, &[(11, b"order-1"), (55, b"IBM")]);
    let mut it = FieldIter::new(&bytes);
    let mut tags = Vec::new();
    let mut values: Vec<Vec<u8>> = Vec::new();
    while let Some(r) = it.next() {
        let (t, v) = r.unwrap();
        tags.push(t);
        values.push(v.to_vec());
    }
    assert_eq!(tags, vec![8, 9, 35, 34, 49, 52, 56, 11, 55, 10]);
    assert_eq!(values[0], b"FIX.4.2".to_vec());
    assert_eq!(values[3], b"7".to_vec());
    assert_eq!(values[5], b"20240506-13:59:15.021".to_vec());
    assert_eq!(values[7], b"order-1".to_vec());
    let body_length: usize = String::from_utf8(values[1].clone()).unwrap().parse().unwrap();
    let after_len = bytes.iter().position(|b| *b == 1).unwrap() + 1;
    let after_len = after_len + bytes[after_len..].iter().position(|b| *b == 1).unwrap() + 1;
    assert_eq!(body_length, bytes.len() - after_len - 7);
    let sum: u32 = bytes[..bytes.len() - 7].iter().map(|b| *b as u32).sum();
    let stated: u32 = String::from_utf8(values[9].clone()).unwrap().parse().unwrap();
    assert_eq!(sum % 256, stated);
}

#[test]
fn replay_on_the_wire() {
    let headers = AdditionalHeaders::new(comp_id_headers("TW", "ISLD"));
    let t = b"20240506-13:59:15.021";
    let stored: Vec<(u32, Vec<u8>)> = vec![
        (3, MessageBuilder::new("FIX.4.2", 'D').push(11, b"b").build(3, &headers, t).unwrap()),
        (2, MessageBuilder::new("FIX.4.2", 'D').push(11, b"a").build(2, &headers, t).unwrap()),
        (4, MessageBuilder::new("FIX.4.2", '0').build(4, &headers, t).unwrap()),
        (5, MessageBuilder::new("FIX.4.2", 'D').push(11, b"c").build(5, &headers, t).unwrap()),
    ];
    let out = forgefix::outbound::resend_messages("FIX.4.2", stored, 5, &headers).unwrap();
    assert_eq!(out.len(), 4);
    let text: Vec<String> = out.iter().map(|m| String::from_utf8(m.clone()).unwrap()).collect();
    assert!(text[0].contains("\x0135=D\x0134=2\x0143=Y\x01"));
    assert!(text[0].contains("\x01122=20240506-13:59:15.021\x01"));
    assert!(text[0].contains("\x0111=a\x01"));
    assert!(text[1].contains("\x0134=3\x01") && text[1].contains("\x0111=b\x01"));
    assert!(text[2].contains("\x0135=4\x0134=4\x0143=Y\x01"));
    assert!(text[2].contains("\x0136=5\x01123=Y\x01"));
    assert!(text[3].contains("\x0134=5\x01") && text[3].contains("\x0111=c\x01"));
    for m in &out {
        assert!(checksum_is_valid(m));
        let p = parse_peeked_prefix(m).unwrap();
        assert_eq!(p.msg_length, m.len());
    }
}

#[test]
fn framer_keeps_a_split_message_start() {
    let m = encoded(3, &[(11, b"x")]);
    let mut buf = b"garbage garbage garbage garbage 8=".to_vec();
    match frame_next(&buf) {
        FrameStep::Garbled(n, SessionError::GarbledMessage { garbled_msg_type: GarbledMessageType::Other, .. }) => {
            assert_eq!(n, buf.len() - 2);
            buf.drain(..n);
        }
        other => panic!("unexpected {:?}", other),
    }
    assert!(matches!(frame_next(&buf), FrameStep::NeedMore));
    buf.extend_from_slice(&m[2..]);
    assert!(matches!(frame_next(&buf), FrameStep::Message(n) if n == m.len()));
}

#[test]
fn framer_reports_wrong_body_length() {
    let mut m = encoded(3, &[(11, b"x")]);
    let len = m.len();
    m[len - 7] = b'x';
    match frame_next(&m) {
        FrameStep::Garbled(n, SessionError::GarbledMessage { garbled_msg_type: GarbledMessageType::BodyLengthIssue, .. }) => assert_eq!(n, len),
        other => panic!("unexpected {:?}", other),
    }
}

#[test]
fn numeric_fields_need_a_digit() {
    assert_eq!(parse_field(b"12").unwrap(), 12);
    assert_eq!(parse_field(b"+5").unwrap(), 5);
    assert!(matches!(parse_field(b""), Err(DecodeError::BadValue(v)) if v.is_empty()));
    assert!(matches!(parse_field(b"+"), Err(DecodeError::BadValue(_))));
    assert!(matches!(parse_field(b"\xff1"), Err(DecodeError::Utf8Error)));
    assert!(matches!(SessionParserCallback::default().on_header(34, b""), Err(SessionError::MissingMsgSeqNum { .. })));
    let mut cb = SessionParserCallback::default();
    cb.on_header(35, b"2").unwrap();
    cb.on_header(34, b"9").unwrap();
    for tag in [7u32, 16, 108, 98, 36] {
        match cb.on_body(tag, b"") {
            Err(SessionError::MessageRejected {
                reject_reason: Some(SessionRejectReason::INCORRECT_DATA_FORMAT_FOR_VALUE),
                msg_seq_num: 9,
                ref_tag_id: Some(t),
                ref_msg_type: Some('2'),
                ..
            }) => assert_eq!(t, tag),
            other => panic!("unexpected {:?}", other),
        }
    }
}

#[test]
fn gap_fill_message_content() {
    let headers = AdditionalHeaders::new(comp_id_headers("TW", "ISLD"));
    let m = forgefix::outbound::build_gap_fill_msg("FIX.4.2", 4, 5, &headers).unwrap();
    let text = String::from_utf8(m.clone()).unwrap();
    assert!(text.contains("\x0135=4\x0134=4\x0143=Y\x0149=TW\x0152="));
    assert!(text.contains("\x0156=ISLD\x0136=5\x01123=Y\x0110="));
    assert!(checksum_is_valid(&m));
    assert!(forgefix::outbound::resend_messages("FIX.4.2", Vec::new(), 5, &headers).unwrap().is_empty());
    assert!(matches!(
        forgefix::outbound::resend_messages("FIX.4.2", vec![(2, b"not a message".to_vec())], 5, &headers),
        Err(SessionError::ResendError)
    ));
}

#[test]
fn inbound_application_message_becomes_an_event() {
    let headers = AdditionalHeaders::new(comp_id_headers("ISLD", "TW"));
    let now = forgefix::outbound::formatted_time();
    let bytes = MessageBuilder::new("FIX.4.2", 'D')
        .push(11, b"o-1")
        .build(2, &headers, now.as_bytes())
        .unwrap();
    let msg = MsgBuf(bytes);
    let cb = read_session_fields(msg.as_slice()).unwrap();
    assert_eq!(cb.msg_type, 'D');
    assert_eq!(cb.msg_seq_num, 2);
    assert!(cb.sending_time.is_some());
    assert!(forgefix::inbound::check_inbound(&cb, "ISLD", "TW").is_ok());
    assert!(validate_checksum(&msg).is_ok());
    let mut sm = logged_in(1);
    assert!(should_pass_app_message(&sm, 2));
    match message_event(cb, 30, 1) {
        Ok(Some(e @ Event::ApplicationMessageReceived(2, None))) => sm.handle(e),
        other => panic!("unexpected {:?}", other),
    }
    assert_eq!(sm.snapshot().sequences.incoming, 3);
    assert!(drain(&mut sm).is_empty());
}

#[test]
fn timer_deadlines_follow_the_heartbeat_interval() {
    let mut t = forgefix::timers::FixTimeouts::new(1000, 0);
    assert_eq!(t.next_expiring(), (forgefix::timers::Timer::Heartbeat, 1000));
    t.reset(forgefix::timers::Timer::Heartbeat, 1000);
    assert_eq!(t.next_expiring(), (forgefix::timers::Timer::TestRequest, 1700));
    t.set_durations(30_000, 2000);
    assert_eq!(t.next_expiring(), (forgefix::timers::Timer::Heartbeat, 32_000));
    assert_eq!(t.next_test_request, 53_000);
    t.start_logout(2500);
    assert_eq!(t.next_expiring(), (forgefix::timers::Timer::Logout, 62_500));
    assert!(matches!(forgefix::timers::timer_event(forgefix::timers::Timer::TestRequest), Event::SendTestRequest(_)));
}

#[test]
fn backward_gap_fill_is_rejected() {
    let mut sm = logged_in(1);
    sm.handle(app(6));
    drain(&mut sm);
    sm.handle(Event::SequenceResetReceived { msg_seq_num: 2, gap_fill: Some(GapFillFlag::YES), new_seq_no: 1, poss_dup: Some(PossDupFlag::YES) });
    let out = drain(&mut sm);
    assert!(matches!(out[0], Outgoing::Session(SessionMsg::RejectNewSeqNo { ref_seq_num: 2 })));
    assert_eq!(sm.state(), State::ExpectingResends { return_state: ReturnState::LoggedIn });
    assert_eq!(sm.snapshot().rereceive_range.unwrap().next, 2);
}

#[test]
fn bad_orig_sending_time_names_its_tag() {
    match SessionParserCallback::default().on_header(122, b"yesterday") {
        Err(SessionError::MessageRejected { ref_tag_id: Some(122), .. }) => {}
        other => panic!("unexpected {:?}", other),
    }
    let t = forgefix::outbound::formatted_time();
    assert_eq!(t.len(), 21);
    let v = forgefix::outbound::sending_time_now();
    assert_eq!(v.len(), 21);
    assert!(!v.contains(&1));
}
