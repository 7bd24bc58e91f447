//! Writing outbound messages with the current time, and replaying stored messages.

use vstd::prelude::*;
use crate::encode::{field_bytes, spec_digits, spec_encode, AdditionalHeaders, MessageBuilder, SerializedInt};
use vstd::string::StringSliceAdditionalSpecFns;
use crate::error::SessionError;
use crate::fields::{is_session_message, spec_is_session_message, MsgType};
use crate::resend::{plan_resend, spec_plan_resend, spec_transform, spec_transformable, ResendAction, Transformer};
use crate::decode::{spec_bytes_to_u32, spec_peek};
use crate::checksum::spec_checksum_is_valid;

verus! {

broadcast use vstd::seq_lib::group_to_multiset_ensures;

/// The SendingTime format, in chrono's strftime syntax.
pub const TIME_FORMAT: &'static str = "%Y%m%d-%H:%M:%S%.3f";

/// A character chrono writes for [`TIME_FORMAT`]: a digit, a year sign, `-`, `:` or `.`.
pub open spec fn is_time_char(c: char) -> bool {
    ('0' <= c && c <= '9') || c == '-' || c == ':' || c == '.' || c == '+'
}

/// A SendingTime value as the clock gives it: at most 24 bytes, each a digit, a sign, `-`,
/// `:` or `.` (so no SOH).
pub open spec fn time_bytes(b: Seq<u8>) -> bool {
    &&& b.len() <= 24
    &&& forall|i: int| 0 <= i < b.len() ==> is_time_char(#[trigger] b[i] as char)
}

/// Relies on `chrono::Utc::now` and `DateTime::format`: the current UTC time written in
/// [`TIME_FORMAT`]. Whatever the clock, chrono writes a year of 4 digits, or up to 6 with a
/// sign outside 0..=9999 (years stay within ±262143), then `MMDD-HH:MM:SS.mmm`: at most 24
/// characters, all digits, signs, `-`, `:` or `.`.
#[verifier::external_body]
pub fn formatted_time() -> (r: String)
    ensures
        r@.len() <= 24,
        forall|i: int| 0 <= i < r@.len() ==> is_time_char(#[trigger] r@[i]),
{
    format!("{}", chrono::Utc::now().format(TIME_FORMAT))
}

/// The current SendingTime value as bytes.
pub fn sending_time_now() -> (r: Vec<u8>)
    ensures
        time_bytes(r@),
{
    let t = formatted_time();
    let s = t.as_str();
    let b = s.as_bytes();
    proof {
        assert(vstd::utf8::is_ascii_chars(s@)) by {
            assert forall|i: int| 0 <= i < s@.len() implies '\0' <= #[trigger] s@[i] <= '\u{7f}' by {
                assert(is_time_char(t@[i]));
            }
        }
        vstd::utf8::is_ascii_chars_encode_utf8(s@);
        assert forall|i: int| 0 <= i < b@.len() implies is_time_char(#[trigger] b@[i] as char) by {
            assert(is_time_char(s@[i]));
            assert(s@[i] as u8 == b@[i]);
        }
    }
    vstd::slice::slice_to_vec(b)
}

/// Relies on `chrono::Utc::now` and `DateTime::timestamp`: the seconds since the Unix epoch
/// now. The result depends on the clock; nothing is promised of it.
#[verifier::external_body]
pub(crate) fn now_timestamp() -> (r: i64) {
    chrono::Utc::now().timestamp()
}

/// Writes `msg` as MsgSeqNum `msg_seq_num`, sent now; `None` when it would not fit in memory.
pub fn build_message_with_headers(
    msg: &MessageBuilder,
    msg_seq_num: u32,
    additional_headers: &AdditionalHeaders,
) -> (r: Option<Vec<u8>>)
    requires
        msg.wf(),
    ensures
        r matches Some(v) ==> exists|t: Seq<u8>| time_bytes(t) && v@ == spec_encode(*msg, msg_seq_num, *additional_headers, t),
        r matches Some(v) ==> spec_checksum_is_valid(v@),
        msg.begin_string().len() + additional_headers.prefix().len() + additional_headers.suffix().len()
            + msg.body().len() + 124 <= usize::MAX && msg.begin_string().len() + additional_headers.prefix().len()
            + additional_headers.suffix().len() + msg.body().len() + 124 <= u64::MAX ==> r is Some,
{
    let tv = sending_time_now();
    let tb = tv.as_slice();
    proof {
        crate::laws::lemma_encoded_checksum_valid(*msg, msg_seq_num, *additional_headers, tb@);
    }
    msg.build(msg_seq_num, additional_headers, tb)
}

/// The messages of `v` ordered by sequence number, earlier ones first among equals.
pub open spec fn sorted_by_seq(v: Seq<(u32, Vec<u8>)>) -> bool {
    forall|i: int, j: int| 0 <= i < j < v.len() ==> v[i].0 <= v[j].0
}

/// Sorts stored messages by sequence number.
pub fn sort_by_seq(v: Vec<(u32, Vec<u8>)>) -> (r: Vec<(u32, Vec<u8>)>)
    ensures
        sorted_by_seq(r@),
        r@.to_multiset() == v@.to_multiset(),
{
    let mut rest = v;
    let mut out: Vec<(u32, Vec<u8>)> = Vec::new();
    let ghost orig = rest@;
    while rest.len() > 0
        invariant
            sorted_by_seq(out@),
            out@.to_multiset().add(rest@.to_multiset()) == orig.to_multiset(),
        decreases rest.len(),
    {
        let ghost rest0 = rest@;
        let x = rest.remove(0);
        proof {
            assert(rest0 =~= seq![x] + rest@);
            vstd::seq_lib::lemma_multiset_commutative(seq![x], rest@);
            assert(seq![x].to_multiset() =~= vstd::multiset::Multiset::singleton(x)) by {
                assert(seq![x] =~= Seq::<(u32, Vec<u8>)>::empty().push(x));
            }
        }
        let mut j: usize = 0;
        while j < out.len() && out[j].0 <= x.0
            invariant
                j <= out@.len(),
                forall|k: int| 0 <= k < j ==> #[trigger] out@[k].0 <= x.0,
            decreases out.len() - j,
        {
            j = j + 1;
        }
        let ghost out0 = out@;
        out.insert(j, x);
        proof {
            assert(out@ == out0.insert(j as int, x));
            vstd::seq_lib::to_multiset_insert(out0, j as int, x);
            assert forall|a: int, b: int| 0 <= a < b < out@.len() implies out@[a].0 <= out@[b].0 by {
                if b < j {
                } else if a < j && b == j {
                } else if a < j {
                    assert(out@[b] == out0[b - 1]);
                    if j < out0.len() {
                        assert(out0[j as int].0 <= out0[b - 1].0 || b - 1 == j);
                    }
                } else if a == j {
                    assert(out@[b] == out0[b - 1]);
                } else {
                    assert(out@[a] == out0[a - 1]);
                    assert(out@[b] == out0[b - 1]);
                }
            }
        }
    }
    proof {
        assert(rest@.to_multiset() =~= vstd::multiset::Multiset::empty());
    }
    out
}


/// A stored message whose BodyLength reads as a number that leaves room for the fields a
/// retransmission adds (at most 34 bytes with a SendingTime from the clock).
pub open spec fn transform_fits(msg: Seq<u8>) -> bool {
    let p = spec_peek(msg)->Ok_0;
    spec_bytes_to_u32(msg.subrange(p.len_start as int, p.len_end as int)) matches Some(n) && n + 34 <= u32::MAX
}

/// The retransmission of a stored message, sent now.
pub fn transform_message(transformer: &Transformer) -> (r: Result<Vec<u8>, SessionError>)
    requires
        transformer.wf(),
    ensures
        r matches Ok(v) ==> exists|t: Seq<u8>| time_bytes(t) && spec_transform(transformer.message(), t) == Some(v@),
        r matches Ok(v) ==> spec_checksum_is_valid(v@),
        r is Err ==> r == Err::<Vec<u8>, SessionError>(SessionError::ResendError),
        transform_fits(transformer.message()) ==> r is Ok,
{
    let tv = sending_time_now();
    let tb = tv.as_slice();
    let r = transformer.build(tb);
    proof {
        crate::laws::lemma_retransmission_checksum_valid(transformer.message(), tb@);
    }
    r
}

/// A builder of a SequenceReset(4) under `begin_string` whose body is
/// `36=<new_seq_no><SOH>123=Y<SOH>`.
pub open spec fn gap_fill_builder(b: MessageBuilder, begin_string: Seq<u8>, new_seq_no: u32) -> bool {
    &&& b.wf()
    &&& b.begin_string() == begin_string
    &&& b.spec_msg_type() == '4'
    &&& b.body() == field_bytes(36, spec_digits(new_seq_no as nat)) + field_bytes(123, seq![89u8])
}

/// `v` is a gap fill sent as `msg_seq_num` that moves the peer to `new_seq_no`: the
/// retransmission (PossDupFlag, OrigSendingTime) of that SequenceReset written with the
/// additional headers `h`, for some sending times.
pub open spec fn is_gap_fill(
    v: Seq<u8>,
    begin_string: Seq<u8>,
    msg_seq_num: u32,
    new_seq_no: u32,
    h: AdditionalHeaders,
) -> bool {
    exists|b: MessageBuilder, t1: Seq<u8>, t2: Seq<u8>|
        gap_fill_builder(b, begin_string, new_seq_no) && #[trigger] spec_transform(
            spec_encode(b, msg_seq_num, h, t1),
            t2,
        ) == Some(v)
}

/// The gap fill sent as `msg_seq_num` and moving the peer to `new_seq_no` can be written and
/// rewritten whatever the clock reads: the SequenceReset fits in memory and, for every
/// SendingTime the clock can give, its encoding can be taken apart and its BodyLength leaves
/// room for the retransmission fields.
pub open spec fn gap_fill_fits(
    begin_string: Seq<u8>,
    msg_seq_num: u32,
    new_seq_no: u32,
    h: AdditionalHeaders,
) -> bool {
    forall|b: MessageBuilder, t: Seq<u8>|
        #![trigger spec_encode(b, msg_seq_num, h, t)]
        gap_fill_builder(b, begin_string, new_seq_no) && time_bytes(t) ==> {
            &&& b.begin_string().len() + h.prefix().len() + h.suffix().len() + b.body().len() + 124 <= usize::MAX
            &&& b.begin_string().len() + h.prefix().len() + h.suffix().len() + b.body().len() + 124 <= u64::MAX
            &&& spec_transformable(spec_encode(b, msg_seq_num, h, t))
            &&& transform_fits(spec_encode(b, msg_seq_num, h, t))
        }
}

/// A SequenceReset with GapFillFlag=Y sent as `msg_seq_num` and moving the peer to
/// `new_seq_num`, flagged as a PossDup like every replayed message.
pub fn build_gap_fill_msg(
    begin_string: &str,
    msg_seq_num: u32,
    new_seq_num: u32,
    additional_headers: &AdditionalHeaders,
) -> (r: Result<Vec<u8>, SessionError>)
    ensures
        r matches Ok(v) ==> spec_checksum_is_valid(v@) && is_gap_fill(
            v@,
            begin_string.spec_bytes(),
            msg_seq_num,
            new_seq_num,
            *additional_headers,
        ),
        r is Err ==> r == Err::<Vec<u8>, SessionError>(SessionError::ResendError),
        gap_fill_fits(begin_string.spec_bytes(), msg_seq_num, new_seq_num, *additional_headers) ==> r is Ok,
{
    let n = SerializedInt::from_u32(new_seq_num);
    let y: Vec<u8> = vec![89u8];
    let builder = MessageBuilder::new(begin_string, '4').push(36, n.as_bytes()).push(123, y.as_slice());
    proof {
        assert(y@ =~= seq![89u8]);
        assert(builder.body() =~= field_bytes(36, spec_digits(new_seq_num as nat)) + field_bytes(123, seq![89u8]));
        assert(gap_fill_builder(builder, begin_string.spec_bytes(), new_seq_num));
        if gap_fill_fits(begin_string.spec_bytes(), msg_seq_num, new_seq_num, *additional_headers) {
            assert(time_bytes(Seq::<u8>::empty()));
            let e = spec_encode(builder, msg_seq_num, *additional_headers, Seq::<u8>::empty());
        }
    }
    let msg = match build_message_with_headers(&builder, msg_seq_num, additional_headers) {
        Some(m) => m,
        None => {
            return Err(SessionError::ResendError);
        },
    };
    let ghost t1 = choose|t: Seq<u8>| time_bytes(t) && msg@ == spec_encode(builder, msg_seq_num, *additional_headers, t);
    proof {
        if gap_fill_fits(begin_string.spec_bytes(), msg_seq_num, new_seq_num, *additional_headers) {
            let e = spec_encode(builder, msg_seq_num, *additional_headers, t1);
        }
    }
    let transformer = match Transformer::try_from_vec(msg) {
        Ok(t) => t,
        Err(_) => {
            return Err(SessionError::ResendError);
        },
    };
    let r = transform_message(&transformer);
    proof {
        if r is Ok {
            let v = r->Ok_0;
            let t2 = choose|t: Seq<u8>| spec_transform(transformer.message(), t) == Some(v@);
            assert(gap_fill_builder(builder, begin_string.spec_bytes(), new_seq_num));
            assert(spec_transform(spec_encode(builder, msg_seq_num, *additional_headers, t1), t2) == Some(v@));
        }
    }
    r
}

/// Each stored message as its sequence number and whether its MsgType is a session type.
pub open spec fn stored_flags(msgs: Seq<(u32, Vec<u8>)>) -> Seq<(u32, bool)> {
    msgs.map_values(|m: (u32, Vec<u8>)| (m.0, spec_is_session_message(spec_peek(m.1@)->Ok_0.msg_type)))
}

/// What a replay sends for a plan over `sorted`: retransmissions of the stored messages the plan
/// names, and for each gap fill a message with a valid checksum.
pub open spec fn replay_matches(
    sorted: Seq<(u32, Vec<u8>)>,
    end: u32,
    begin_string: Seq<u8>,
    h: AdditionalHeaders,
    v: Seq<Vec<u8>>,
) -> bool {
    let plan = spec_plan_resend(stored_flags(sorted), end);
    &&& v.len() == plan.len()
    &&& forall|k: int|
        0 <= k < v.len() ==> match #[trigger] plan[k] {
            ResendAction::Retransmit(i) => exists|t: Seq<u8>| spec_transform(sorted[i as int].1@, t) == Some(v[k]@),
            ResendAction::GapFill { msg_seq_num, new_seq_no } => is_gap_fill(v[k]@, begin_string, msg_seq_num, new_seq_no, h),
        }
    &&& forall|k: int| 0 <= k < v.len() ==> spec_checksum_is_valid(#[trigger] v[k]@)
}

/// Every stored message can be replayed and retransmitted whatever the clock reads, and every
/// gap fill under `begin_string` and the headers `h` can be written and rewritten.
pub open spec fn replay_fits(messages: Seq<(u32, Vec<u8>)>, begin_string: Seq<u8>, h: AdditionalHeaders) -> bool {
    &&& forall|i: int| 0 <= i < messages.len() ==> !unusable(#[trigger] messages[i]) && transform_fits(messages[i].1@)
    &&& forall|seq: u32, new: u32| #[trigger] gap_fill_fits(begin_string, seq, new, h)
}

/// A stored message that cannot be replayed: it cannot be taken apart, or its MsgType is
/// unknown.
pub open spec fn unusable(m: (u32, Vec<u8>)) -> bool {
    !spec_transformable(m.1@) || MsgType::spec_from(spec_peek(m.1@)->Ok_0.msg_type) is None
}

/// Replays the stored messages `messages` for a ResendRequest whose range ends at `end`:
/// sorted by sequence number, runs of session messages become gap fills and application
/// messages are retransmitted as PossDups. A stored message that cannot be taken apart, or
/// whose MsgType is unknown, fails the whole replay.
pub fn resend_messages(
    begin_string: &str,
    messages: Vec<(u32, Vec<u8>)>,
    end: u32,
    additional_headers: &AdditionalHeaders,
) -> (r: Result<Vec<Vec<u8>>, SessionError>)
    ensures
        r matches Ok(v) ==> exists|sorted: Seq<(u32, Vec<u8>)>|
            #[trigger] sorted.to_multiset() == messages@.to_multiset() && sorted_by_seq(sorted)
                && replay_matches(sorted, end, begin_string.spec_bytes(), *additional_headers, v@),
        messages@.len() == 0 ==> (r matches Ok(v) && v@.len() == 0),
        (exists|i: int| 0 <= i < messages@.len() && #[trigger] unusable(messages@[i]))
            ==> r == Err::<Vec<Vec<u8>>, SessionError>(SessionError::ResendError),
        r is Err ==> r == Err::<Vec<Vec<u8>>, SessionError>(SessionError::ResendError),
        replay_fits(messages@, begin_string.spec_bytes(), *additional_headers) ==> r is Ok,
{
    let ghost m0 = messages@;
    let ghost good = replay_fits(m0, begin_string.spec_bytes(), *additional_headers);
    let sorted = sort_by_seq(messages);
    let ghost s0 = sorted@;
    proof {
        assert(m0.len() == 0 ==> s0.len() == 0) by {
            assert(m0.to_multiset().len() == m0.len());
            assert(s0.to_multiset().len() == s0.len());
        }
        if good {
            assert forall|k: int| 0 <= k < s0.len() implies !unusable(#[trigger] s0[k]) && transform_fits(s0[k].1@) by {
                assert(s0.to_multiset().count(s0[k]) > 0);
                assert(m0.contains(s0[k]));
                let i = choose|i: int| 0 <= i < m0.len() && m0[i] == s0[k];
                assert(!unusable(m0[i]) && transform_fits(m0[i].1@));
            }
        }
    }
    let mut transformers: Vec<Transformer> = Vec::new();
    let mut flags: Vec<(u32, bool)> = Vec::new();
    let mut rest = sorted;
    while rest.len() > 0
        invariant
            transformers@.len() == flags@.len(),
            flags@.len() + rest@.len() == s0.len(),
            rest@ == s0.skip(flags@.len() as int),
            forall|k: int| 0 <= k < flags@.len() ==> !unusable(#[trigger] s0[k]),
            m0.len() == 0 ==> s0.len() == 0,
            m0 == messages@,
            good == replay_fits(m0, begin_string.spec_bytes(), *additional_headers),
            good ==> forall|k: int| 0 <= k < s0.len() ==> !unusable(#[trigger] s0[k]) && transform_fits(s0[k].1@),
            flags@ == stored_flags(s0.take(flags@.len() as int)),
            forall|k: int| 0 <= k < transformers@.len() ==> (#[trigger] transformers@[k]).wf()
                && transformers@[k].message() == s0[k].1@,
        decreases rest.len(),
    {
        let ghost k = flags@.len() as int;
        let ghost rest0 = rest@;
        let (seq, msg) = rest.remove(0);
        proof {
            assert(rest0[0] == s0[k]);
            assert(rest@ =~= s0.skip(k + 1));
        }
        let t = match Transformer::try_from_vec(msg) {
            Ok(t) => t,
            Err(_) => {
                return Err(SessionError::ResendError);
            },
        };
        if MsgType::from_char(t.msg_type()).is_err() {
            return Err(SessionError::ResendError);
        }
        proof {
            assert(!unusable(s0[k]));
        }
        flags.push((seq, is_session_message(t.msg_type())));
        transformers.push(t);
        proof {
            assert(s0.take(k + 1) =~= s0.take(k).push(s0[k]));
            assert(stored_flags(s0.take(k + 1)) =~= stored_flags(s0.take(k)).push(
                (s0[k].0, spec_is_session_message(spec_peek(s0[k].1@)->Ok_0.msg_type)),
            ));
        }
    }
    proof {
        assert(s0.take(s0.len() as int) =~= s0);
        assert forall|i: int| 0 <= i < m0.len() implies !#[trigger] unusable(m0[i]) by {
            assert(m0.to_multiset().count(m0[i]) > 0);
            assert(s0.contains(m0[i]));
            let j = choose|j: int| 0 <= j < s0.len() && s0[j] == m0[i];
            assert(!unusable(s0[j]));
        }
    }
    let plan = plan_resend(flags.as_slice(), end);
    let mut out: Vec<Vec<u8>> = Vec::new();
    let mut k: usize = 0;
    proof {
        lemma_plan_indices(flags@, end);
    }
    proof {
        if m0.len() == 0 {
            assert(flags@.len() == 0);
            assert(spec_plan_resend(flags@, end).len() == 0);
        }
    }
    while k < plan.len()
        invariant
            m0.len() == 0 ==> plan@.len() == 0,
            m0 == messages@,
            good == replay_fits(m0, begin_string.spec_bytes(), *additional_headers),
            good ==> forall|k: int| 0 <= k < s0.len() ==> !unusable(#[trigger] s0[k]) && transform_fits(s0[k].1@),
            k <= plan@.len(),
            out@.len() == k,
            transformers@.len() == flags@.len(),
            transformers@.len() == s0.len(),
            forall|j: int| 0 <= j < transformers@.len() ==> (#[trigger] transformers@[j]).wf()
                && transformers@[j].message() == s0[j].1@,
            plan@ == spec_plan_resend(flags@, end),
            flags@ == stored_flags(s0),
            forall|i: int| 0 <= i < out@.len() ==> spec_checksum_is_valid(#[trigger] out@[i]@),
            forall|j: int|
                0 <= j < out@.len() ==> match #[trigger] plan@[j] {
                    ResendAction::Retransmit(i) => exists|t: Seq<u8>| spec_transform(s0[i as int].1@, t) == Some(out@[j]@),
                    ResendAction::GapFill { msg_seq_num, new_seq_no } => is_gap_fill(
                        out@[j]@,
                        begin_string.spec_bytes(),
                        msg_seq_num,
                        new_seq_no,
                        *additional_headers,
                    ),
                },
            forall|j: int|
                0 <= j < plan@.len() ==> (#[trigger] plan@[j] matches ResendAction::Retransmit(i) ==> i < flags@.len()),
        decreases plan.len() - k,
    {
        match plan[k] {
            ResendAction::GapFill { msg_seq_num, new_seq_no } => {
                let m = match build_gap_fill_msg(begin_string, msg_seq_num, new_seq_no, additional_headers) {
                    Ok(m) => m,
                    Err(_) => {
                        return Err(SessionError::ResendError);
                    },
                };
                out.push(m);
            },
            ResendAction::Retransmit(i) => {
                let m = match transform_message(&transformers[i]) {
                    Ok(m) => m,
                    Err(_) => {
                        return Err(SessionError::ResendError);
                    },
                };
                out.push(m);
            },
        }
        k = k + 1;
    }
    proof {
        assert(replay_matches(s0, end, begin_string.spec_bytes(), *additional_headers, out@));
    }
    Ok(out)
}

proof fn lemma_plan_indices_from(msgs: Seq<(u32, bool)>, i: int, run: Option<u32>, end: u32)
    requires
        0 <= i,
    ensures
        forall|k: int|
            0 <= k < crate::resend::spec_plan_from(msgs, i, run, end).len()
                ==> (#[trigger] crate::resend::spec_plan_from(msgs, i, run, end)[k] matches ResendAction::Retransmit(j)
                ==> j < msgs.len()),
    decreases msgs.len() - i,
{
    if i < msgs.len() {
        if msgs[i].1 {
            lemma_plan_indices_from(msgs, i + 1, match run { Some(f) => Some(f), None => Some(msgs[i].0) }, end);
        } else {
            lemma_plan_indices_from(msgs, i + 1, None, end);
        }
    }
}
proof fn lemma_plan_indices(msgs: Seq<(u32, bool)>, end: u32)
    ensures
        forall|k: int|
            0 <= k < spec_plan_resend(msgs, end).len() ==> (#[trigger] spec_plan_resend(msgs, end)[k] matches ResendAction::Retransmit(j)
                ==> j < msgs.len()),
{
    lemma_plan_indices_from(msgs, 0, None, end);
}

} // verus!
