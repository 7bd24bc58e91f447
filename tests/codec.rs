use forgefix::checksum::{calc_checksum, checksum_matches, parse_checksum, ChecksumWriter};
use forgefix::decode::{bytes_to_u32, parse, parse_peeked_prefix, FieldIter};
use forgefix::encode::{format_fields, AdditionalHeaders, MessageBuilder, SerializedInt};
use forgefix::fields::{Tags, TimeInForce};
use forgefix::inbound::SessionParserCallback;
use forgefix::resend::{poss_dup_flag_field, Transformer};
use forgefix::stream::{partial_match_in_suffix, position_or_partial_match, HeaderBuf};
use forgefix::validate::validate_msg_length;

#[test]
fn test_validate_msg_length() {
    let correct = &b"8=FIX.4.2\x019=21\x0134=0\x0149=send\x0156=rec\x0110=000\x01"[..];
    let short = &b"8=FIX.4.2\x019=14\x0134=0\x0149=send\x0156=rec\x01"[..];
    let long = &b"8=FIX.4.2\x019=23\x0134=0\x0149=send\x0156=rec\x0110=000\x018="[..];

    assert_eq!(validate_msg_length(correct, correct.len()).is_ok(), true);
    assert_eq!(validate_msg_length(short, short.len()).is_err(), true);
    assert_eq!(validate_msg_length(long, long.len()).is_err(), true);
}

#[test]
fn test_parser_callback() {
    let mut cb: SessionParserCallback = Default::default();
    assert_eq!(
        parse(&b"8=FIX.4.2\x019=21\x0195=10\x0196=123\x01456789\x0110=000\x01"[..], &mut cb).is_err(),
        false
    );
    let mut cb: SessionParserCallback = Default::default();
    assert_eq!(
        parse(&b"8=FIX.4.2\x019=21\x0195=1a\x0196=123\x01456789\x0110=000\x01"[..], &mut cb).is_err(),
        true
    );
    let mut cb: SessionParserCallback = Default::default();
    assert_eq!(
        parse(&b"8=FIX.4.2\x019=21\x0195=10\x0196=123\x0145678910\x0110=000\x01"[..], &mut cb).is_err(),
        false
    );
    let mut cb: SessionParserCallback = Default::default();
    assert_eq!(
        parse(&b"8=FIX.4.2\x019=21\x0195=10\x0134=1\x0196=123\x01456789\x0110=000\x01"[..], &mut cb).is_err(),
        false
    );
}

#[test]
fn test_checksum_matches() {
    let tests: Vec<(&[u8], i32, bool)> = vec![
        (b"8=FIX.4.2\x019=98\x0135=5\x0134=2\x0149=ISLD5\x012=20230803-14:13:08.157\x0156=TW\x0158=MsgSeqNum too low, expecting 3 but received 2\x01", 81, true),
        (b"8=FIX.4.2\x019=98\x0135=5\x0134=2\x0149=ISLD5\x012=20230803-14:13:08.157\x0156=TW\x0158=MsgSeqNum too low, expecting 3 but received 2\x01", 0, false),
        (b"8=FIX.4.2\x019=57\x0135=A\x0134=1\x0149=TW\x0152=20230803-15:42:57\x0156=ISLD\x0198=0\x01108=30\x01", 19, true),
    ];
    for t in tests {
        assert_eq!(checksum_matches(t.0, t.1), t.2);
    }
}

#[test]
fn test_parse_checksum() {
    let tests: Vec<(&[u8], bool)> = vec![
        (b"aaaaaaaaaaaaaaaa10=123\x01", true),
        (b"aaaaaaaa10=43\x01", false),
        (b"aaaaaaaa10=123", false),
        (b"aaaaaaaa11=123\x01", false),
    ];
    for t in tests {
        assert_eq!(parse_checksum(t.0).is_some(), t.1, "{:?} {}", parse_checksum(t.0), t.1);
    }
}

#[test]
fn test_body_length_too_long() {
    if let Ok(_) = parse_peeked_prefix(b"8=FIX.4.2\x019=33333333333333333333333") {
        assert!(false, "Expected error");
    };
}

#[test]
fn test_bytes_to_u32() {
    assert_eq!(bytes_to_u32(b"234").unwrap(), 234);
    assert_eq!(bytes_to_u32(b"0").unwrap(), 0);
    assert_eq!(bytes_to_u32(b"11111111111111111111111111111111111111").is_none(), true);
    assert_eq!(bytes_to_u32(b"a").is_none(), true);
}

#[test]
fn test_field_iter() {
    let messages: Vec<&[u8]> = vec![
        b"8=FIX.4.2\x019=44\x018=A\x0110=123\x01",
        b"8\x01=FIX.4.2",
        b"93=6\x018=A\x0189=12\x01456\x0110=123\x01",
        b"93=6A\x018=A\x0189=12\x01456\x0110=123\x01",
    ];

    let expected: Vec<Vec<Result<(u32, &[u8]), ()>>> = vec![
        vec![Ok((8, b"FIX.4.2")), Ok((9, b"44")), Ok((8, b"A")), Ok((10, b"123"))],
        vec![Err(())],
        vec![Ok((93, b"6")), Ok((8, b"A")), Ok((89, b"12\x01456")), Ok((10, b"123"))],
        vec![Err(())],
    ];

    for (msg, ex) in messages.iter().zip(expected.iter()) {
        let mut field_iter = FieldIter::new(&msg[..]);
        for exp in ex.iter() {
            let got = match field_iter.next() {
                Some(g) => g,
                None => break,
            };
            if exp.is_err() {
                assert!(got.is_err(), "Expected error");
            } else {
                assert_eq!(got.unwrap(), *exp.as_ref().unwrap());
            }
        }
    }
}

#[test]
fn test_serialized_int() {
    let tests = vec![(1u32, "1"), (1918230917, "1918230917"), (0, "0")];
    for (num, s) in tests.into_iter() {
        let si: SerializedInt = num.into();
        assert_eq!(si.as_bytes(), s.as_bytes());
    }
}

#[test]
fn test_direct_push() {
    let b: MessageBuilder = MessageBuilder::new("FIX.4.2", 'Q');
    b.push(44u32, &TimeInForce::GOOD_TILL_CANCEL.as_bytes());
}

#[test]
fn test_format_fields() {
    let fs = vec![(1, b"asdf".to_vec()), (2, b"qwer".to_vec())];
    assert_eq!(format_fields(&fs[..]), b"1=asdf\x012=qwer\x01");
}

#[test]
fn test_additional_headers() {
    let fs = vec![
        (u32::from(Tags::SenderCompID), b"asdf".to_vec()),
        (u32::from(Tags::TargetCompID), b"qwer".to_vec()),
    ];
    let ah = AdditionalHeaders::new(fs);
    assert_eq!(b"49=asdf\x01", ah.prefix_bytes());
    assert_eq!(b"56=qwer\x01", ah.suffix_bytes());
}

#[test]
fn test_poss_dup_flag_const() {
    let sum: i32 = poss_dup_flag_field().iter().map(|c| *c as i32).sum();
    assert_eq!(sum, 254);
}

#[test]
fn test_header_buf() {
    let mut buf = HeaderBuf::<5>::new();
    assert_eq!(buf.unfilled_mut(), vec![0; 5].as_slice());
    assert_eq!(buf.filled(), vec![].as_slice());

    buf.unfilled_mut()[..3].copy_from_slice(vec![1, 2, 3].as_slice());
    assert_eq!(buf.filled(), vec![].as_slice());
    buf.advance(3);
    assert_eq!(buf.unfilled_mut(), vec![0; 2].as_slice());
    assert_eq!(buf.filled(), vec![1, 2, 3].as_slice());

    assert_eq!(buf.take(1), vec![1]);
    assert_eq!(buf.unfilled_mut().len(), 3);
    assert_eq!(buf.filled(), vec![2, 3]);

    assert_eq!(buf.take(2), vec![2, 3]);
    assert_eq!(buf.unfilled_mut().len(), 5);
    assert_eq!(buf.filled(), vec![].as_slice());

    buf.unfilled_mut()[..3].copy_from_slice(vec![4, 5, 6].as_slice());
    buf.advance(3);
    assert_eq!(buf.take(100), vec![4, 5, 6]);
    assert_eq!(buf.filled().len(), 0);
    assert_eq!(buf.unfilled_mut().len(), 5);

    buf.advance(100);
    assert_eq!(buf.filled().len(), 5);
    assert_eq!(buf.unfilled_mut().len(), 0);
}

#[test]
fn test_partial_match() {
    let partial_match_in_suffix_fields: Vec<(&[u8], &[u8], Option<usize>)> = vec![
        (b"xxx8", b"8=F", Some(3)),
        (b"xxx8=", b"8=F", Some(3)),
        (b"xxx8=F", b"8=F", Some(3)),
        (b"xxxxx", b"8=F", None),
        (b"xxx8=x", b"8=F", None),
        (b"xx8", b"8=F", Some(2)),
        (b"x8=", b"8=F", Some(1)),
        (b"x8", b"8=F", Some(1)),
        (b"8", b"8=F", Some(0)),
        (b"", b"8=F", None),
    ];
    for (buf, target, expected) in partial_match_in_suffix_fields {
        assert_eq!(partial_match_in_suffix(buf, target), expected);
    }

    let position_or_partial_match_fields: Vec<(&[u8], &[u8], Option<usize>)> = vec![
        (b"8=F", b"8=F", Some(0)),
        (b"xx8=Fxxx", b"8=F", Some(2)),
        (b"xx8=xxx", b"8=F", None),
        (b"x8", b"8=F", Some(1)),
        (b"x", b"8=F", None),
        (b"", b"8=F", None),
    ];
    for (buf, target, expected) in position_or_partial_match_fields {
        assert_eq!(position_or_partial_match(buf, target), expected);
    }
}

#[test]
fn my_test() {
    let message_bytes = vec![
        &b"8=FIX.4.2\x019=77\x0135=A\x0134=1\x0149=GSLLDMAUAT\x0152=20220920-17:01:58.896\x0156=AMLRLLDMAUAT\x0198=0\x01108=30\x0110=126\x01"[..],
        &b"8=FIX.4.2\x019=77\x0135=A\x0134=2\x0149=AMLRLLDMAUAT\x0152=20220920-17:11:00.860\x0156=GSLLDMAUAT\x0198=0\x01108=30\x0110=106\x01"[..],
    ];
    for data in message_bytes.iter() {
        let p = parse_peeked_prefix(&data[..32]).unwrap();
        assert_eq!(p.len_start, 12);
        let total = 32 + (p.body_length - (32 - (p.len_end + 1)) + 7);
        assert_eq!(total, data.len(), "expected no error");
    }
}

fn create_message_builder() -> MessageBuilder {
    let b: MessageBuilder = MessageBuilder::new("FIX.4.2", 'Q');
    let data = b"asdfqwer12343456";
    b.push(44u32, &data[3..7]).push(88u32, &data[11..13])
}

#[test]
fn test_builder() {
    let additional_headers: AdditionalHeaders = Default::default();
    let buf = create_message_builder()
        .build(1, &additional_headers, b"19700101-00:00:00.000")
        .expect("building");
    assert_eq!(
        String::from_utf8(buf).unwrap(),
        "8=FIX.4.2\x019=49\x0135=Q\x0134=1\x0152=19700101-00:00:00.000\x0144=fqwe\x0188=43\x0110=245\x01"
    );
}

#[test]
fn test_checksum() {
    let datas = vec![
        (179, b"8=FIX.4.2\x019=206\x0135=D\x0134=296\x0149=AMLRLLDMAUAT\x0152=20230126-14:30:45.444\x0156=GSLLDMAUAT\x011=AVFT1209\x0111=the-01GQQ7SXY4KBTRXCPSG1VRHJXE\x0122=J\x0138=25\x0140=2\x0144=1.25\x0148=MBB   230217P00097000\x0154=1\x0159=3\x0160=20230126-14:30:45\x0177=O\x01100=EMLD\x01")
    ];
    for (checksum, d) in datas {
        let mut cb = ChecksumWriter::new(Vec::new());
        cb.write(d);
        assert_eq!(cb.checksum(), checksum);
        assert_eq!(calc_checksum(d), checksum as i32);
    }
}

#[test]
fn test_transformer() {
    let data = vec![(
        b"8=FIX.4.2\x019=25\x0135=Q\x0152=20230808-13:19:54.537\x0134=0\x0144=fqwe\x0188=43\x0110=055\x01",
        b"8=FIX.4.2\x019=56\x0135=Q\x0143=Y\x0152=00000000-00:00:00.000\x01122=20230808-13:19:54.537\x0134=0\x0144=fqwe\x0188=43\x0110=049\x01",
    )];
    for (orig, expected) in data {
        let t: Transformer = Transformer::try_from_vec(orig.to_vec()).unwrap();
        let buf = t.build(b"00000000-00:00:00.000").expect("building");
        assert_eq!(
            std::str::from_utf8(&buf[..buf.len() - 7]).unwrap()[..25],
            std::str::from_utf8(&expected[..expected.len() - 7]).unwrap()[0..25]
        );
        assert_eq!(
            std::str::from_utf8(&buf[..buf.len() - 7]).unwrap()[49..],
            std::str::from_utf8(&expected[..buf.len() - 7]).unwrap()[49..],
        );
    }
}
