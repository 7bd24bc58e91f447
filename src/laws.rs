//! Properties that relate the encoder, the framer and the decoder.

use vstd::prelude::*;
use crate::checksum::{is_digit, spec_checksum, spec_checksum_is_valid, spec_parse_checksum};
use crate::decode::{
    all_digits, decimal, digit_run_end, expected_prefix, field_step, fields_from, soh_from,
    spec_fields, spec_peek, spec_remaining, value_scan_start, FieldStep,
};
use crate::encode::{
    field_bytes, fields_bytes, msg_type_field, spec_body_length, spec_digits, spec_encode,
    spec_encode_head, three_digits, AdditionalHeaders, MessageBuilder,
};
use crate::fields::spec_data_ref;
use crate::resend::spec_transform;
use crate::stream::{item_bytes, message_beginning, resync_point, spec_frame, window_from};

verus! {

/// A message closed by `10=<checksum of what precedes it><SOH>` has a valid checksum.
pub proof fn lemma_closed_with_checksum(head: Seq<u8>)
    ensures
        spec_checksum_is_valid(head + seq![49u8, 48, 61] + three_digits(spec_checksum(head)) + seq![1u8]),
{
    let c = spec_checksum(head);
    let m = head + seq![49u8, 48, 61] + three_digits(c) + seq![1u8];
    let n = m.len();
    assert(c < 256);
    assert(m[n - 7] == 49 && m[n - 6] == 48 && m[n - 5] == 61 && m[n - 1] == 1);
    assert(m[n - 4] == (48 + c / 100) as u8);
    assert(m[n - 3] == (48 + (c / 10) % 10) as u8);
    assert(m[n - 2] == (48 + c % 10) as u8);
    assert(c / 100 * 100 + (c / 10) % 10 * 10 + c % 10 == c) by (nonlinear_arith)
        requires
            c < 256,
    ;
    assert(m.subrange(0, n - 7) =~= head);
    assert(spec_parse_checksum(m) == Some(c as int));
}

/// Every message the encoder writes carries a valid checksum: the sum of the bytes before its
/// checksum field, modulo 256, is the number that field holds.
pub proof fn lemma_encoded_checksum_valid(
    b: MessageBuilder,
    msg_seq_num: u32,
    h: AdditionalHeaders,
    sending_time: Seq<u8>,
)
    ensures
        spec_checksum_is_valid(spec_encode(b, msg_seq_num, h, sending_time)),
{
    lemma_closed_with_checksum(spec_encode_head(b, msg_seq_num, h, sending_time));
}

/// Every retransmission the transformer writes carries a valid checksum too.
pub proof fn lemma_retransmission_checksum_valid(msg: Seq<u8>, sending_time: Seq<u8>)
    ensures
        spec_transform(msg, sending_time) matches Some(m) ==> spec_checksum_is_valid(m),
{
    let p = crate::decode::spec_peek(msg)->Ok_0;
    let (s, e) = crate::resend::spec_sending_time_indices(msg)->Some_0;
    match crate::decode::spec_bytes_to_u32(msg.subrange(p.len_start as int, p.len_end as int)) {
        Some(old_len) => {
            if old_len + sending_time.len() + 10 <= u32::MAX {
                let head = msg.subrange(0, p.len_start as int) + crate::encode::spec_digits(
                    (old_len + sending_time.len() + 10) as nat,
                ) + seq![1u8] + msg.subrange(p.len_end + 1, crate::resend::spec_poss_dup_at(msg, p.fixed_fields_end as int))
                    + crate::resend::poss_dup_flag_eq_y() + msg.subrange(crate::resend::spec_poss_dup_at(msg, p.fixed_fields_end as int), s)
                    + sending_time + seq![1u8] + crate::resend::orig_sending_time_tag()
                    + msg.subrange(s, e) + seq![1u8] + msg.subrange(e + 1, msg.len() - 7);
                lemma_closed_with_checksum(head);
            }
        },
        None => {},
    }
}


/// `FIX.4.2`.
pub open spec fn fix42() -> Seq<u8> {
    seq![70u8, 73, 88, 46, 52, 46, 50]
}

pub proof fn lemma_digits_are_digits(n: nat)
    ensures
        all_digits(spec_digits(n)),
        spec_digits(n).len() >= 1,
        decimal(spec_digits(n)) == n,
    decreases n,
{
    if n < 10 {
        let d = spec_digits(n);
        assert(d.drop_last() =~= Seq::<u8>::empty());
        assert(d.last() == (48 + n) as u8);
        assert(decimal(d) == decimal(d.drop_last()) * 10 + (d.last() as int - 48));
    } else {
        lemma_digits_are_digits(n / 10);
        let d = spec_digits(n);
        assert(d.drop_last() =~= spec_digits(n / 10));
        assert forall|i: int| 0 <= i < d.len() implies is_digit(#[trigger] d[i]) by {
            if i < d.len() - 1 {
                assert(d[i] == spec_digits(n / 10)[i]);
            }
        }
        assert(n == (n / 10) * 10 + n % 10) by (nonlinear_arith);
        assert(d.last() == (48 + n % 10) as u8);
        assert(n % 10 < 10);
        assert(d.last() as int - 48 == n % 10);
        assert(decimal(d) == decimal(d.drop_last()) * 10 + (d.last() as int - 48));
    }
}

proof fn lemma_run_end(m: Seq<u8>, p: int, k: int)
    requires
        0 <= p,
        0 <= k,
        p + k <= m.len(),
        forall|i: int| p <= i < p + k ==> is_digit(#[trigger] m[i]),
        p + k < m.len() ==> !is_digit(m[p + k]),
    ensures
        digit_run_end(m, p) == p + k,
    decreases k,
{
    if k > 0 {
        assert(is_digit(m[p]));
        lemma_run_end(m, p + 1, k - 1);
    }
}

/// The BodyLength the encoder writes is read back by the framer: the prefix of every encoded
/// FIX.4.2 message parses, its BodyLength is the body's length, and the length it implies is
/// the message's whole length.
#[verifier::rlimit(100)]
pub proof fn lemma_encoded_body_length(
    b: MessageBuilder,
    msg_seq_num: u32,
    h: AdditionalHeaders,
    sending_time: Seq<u8>,
)
    requires
        b.wf(),
        b.begin_string() == fix42(),
        spec_encode(b, msg_seq_num, h, sending_time).len() <= usize::MAX,
    ensures
        spec_peek(spec_encode(b, msg_seq_num, h, sending_time)) matches Ok(p)
            && p.body_length == spec_body_length(b, msg_seq_num, h, sending_time)
            && p.msg_length == spec_encode(b, msg_seq_num, h, sending_time).len()
            && p.msg_type == (b.spec_msg_type() as u8) as char,
{
    let m = spec_encode(b, msg_seq_num, h, sending_time);
    let bl = spec_body_length(b, msg_seq_num, h, sending_time);
    let d = spec_digits(bl);
    let k = d.len() as int;
    let c = b.spec_msg_type();
    let a = seq![56u8, 61] + fix42() + seq![1u8, 57, 61];
    let body = msg_type_field(c) + crate::encode::seq_num_field(msg_seq_num) + h.prefix()
        + crate::encode::sending_time_field(sending_time) + h.suffix() + b.body();
    let head = spec_encode_head(b, msg_seq_num, h, sending_time);
    let tail = seq![49u8, 48, 61] + three_digits(spec_checksum(head)) + seq![1u8];
    assert(spec_digits(3) =~= seq![51u8]);
    assert(spec_digits(5) =~= seq![53u8]);
    assert(spec_digits(35) =~= seq![51u8, 53]);
    assert(msg_type_field(c) =~= seq![51u8, 53, 61, c as u8, 1]);
    assert(head =~= a + d + seq![1u8] + body);
    assert(m =~= a + d + seq![1u8] + body + tail);
    assert(bl == body.len());
    lemma_digits_are_digits(bl);
    assert(a.len() == 12);
    assert(m.subrange(0, 12) =~= expected_prefix());
    assert(m.subrange(2, 9) =~= expected_prefix().subrange(2, 9));
    assert forall|i: int| 12 <= i < 12 + k implies is_digit(#[trigger] m[i]) by {
        assert(m[i] == d[i - 12]);
    }
    assert(m[12 + k] == 1);
    lemma_run_end(m, 12, k);
    assert(m.subrange(12, 12 + k) =~= d);
    let q = 12 + k;
    assert(m[q + 1] == 51 && m[q + 2] == 53 && m[q + 3] == 61 && m[q + 4] == c as u8 && m[q + 5] == 1);
}

pub proof fn lemma_fields_bytes_concat(x: Seq<(u32, Seq<u8>)>, y: Seq<(u32, Seq<u8>)>)
    ensures
        fields_bytes(x + y) == fields_bytes(x) + fields_bytes(y),
    decreases y.len(),
{
    if y.len() == 0 {
        assert(x + y =~= x);
        assert(fields_bytes(y) =~= Seq::<u8>::empty());
        assert(fields_bytes(x) + fields_bytes(y) =~= fields_bytes(x));
    } else {
        lemma_fields_bytes_concat(x, y.drop_last());
        assert((x + y).drop_last() =~= x + y.drop_last());
        assert((x + y).last() == y.last());
        assert(fields_bytes(x + y) =~= fields_bytes(x) + fields_bytes(y));
    }
}

proof fn lemma_soh_exact(m: Seq<u8>, k: int, n: int)
    requires
        0 <= k,
        0 <= n,
        k + n < m.len(),
        forall|i: int| k <= i < k + n ==> #[trigger] m[i] != 1,
        m[k + n] == 1,
    ensures
        soh_from(m, k) == k + n,
    decreases n,
{
    if n > 0 {
        lemma_soh_exact(m, k + 1, n - 1);
    }
}

/// A field value the decoder reads back whole: it holds no SOH.
pub open spec fn soh_free(v: Seq<u8>) -> bool {
    forall|i: int| 0 <= i < v.len() ==> #[trigger] v[i] != 1
}

/// Fields the decoder reads back as they were written: no value holds an SOH and no tag
/// announces the length of a data field.
pub open spec fn plain_fields(fs: Seq<(u32, Seq<u8>)>) -> bool {
    forall|i: int| 0 <= i < fs.len() ==> soh_free((#[trigger] fs[i]).1) && spec_data_ref(fs[i].0) is None
}

proof fn lemma_field_step_plain(x: Seq<u8>, t: u32, v: Seq<u8>, y: Seq<u8>)
    requires
        soh_free(v),
        spec_data_ref(t) is None,
    ensures
        ({
            let m = x + field_bytes(t, v) + y;
            let k = spec_digits(t as nat).len() as int;
            field_step(m, x.len() as int, Map::empty()) == FieldStep::Field {
                tag: t,
                start: x.len() + k + 1,
                end: x.len() + k + 1 + v.len(),
                lengths: Map::empty(),
            }
        }),
{
    let m = x + field_bytes(t, v) + y;
    let d = spec_digits(t as nat);
    let k = d.len() as int;
    let p = x.len() as int;
    lemma_digits_are_digits(t as nat);
    assert forall|i: int| p <= i < p + k implies is_digit(#[trigger] m[i]) by {
        assert(m[i] == d[i - p]);
    }
    assert(m[p + k] == 61);
    lemma_run_end(m, p, k);
    assert(m.subrange(p, p + k) =~= d);
    let start = p + k + 1;
    assert(value_scan_start(t, start, Map::empty()) == start);
    assert forall|i: int| start <= i < start + v.len() implies #[trigger] m[i] != 1 by {
        assert(m[i] == v[i - start]);
    }
    assert(m[start + v.len()] == 1);
    lemma_soh_exact(m, start, v.len() as int);
    assert(m.subrange(start, start + v.len()) =~= v);
}

proof fn lemma_fields_bytes_single(f: (u32, Seq<u8>))
    ensures
        fields_bytes(seq![f]) == field_bytes(f.0, f.1),
{
    assert(seq![f].drop_last() =~= Seq::<(u32, Seq<u8>)>::empty());
    assert(fields_bytes(Seq::<(u32, Seq<u8>)>::empty()) == Seq::<u8>::empty());
    assert(fields_bytes(seq![f]) == fields_bytes(Seq::<(u32, Seq<u8>)>::empty()) + field_bytes(f.0, f.1));
    assert(Seq::<u8>::empty() + field_bytes(f.0, f.1) =~= field_bytes(f.0, f.1));
}

proof fn lemma_split_at(fs: Seq<(u32, Seq<u8>)>, i: int)
    requires
        0 <= i < fs.len(),
    ensures
        fields_bytes(fs) == fields_bytes(fs.take(i)) + field_bytes(fs[i].0, fs[i].1) + fields_bytes(fs.skip(i + 1)),
        fields_bytes(fs.take(i + 1)) == fields_bytes(fs.take(i)) + field_bytes(fs[i].0, fs[i].1),
        fs.skip(i) == seq![fs[i]] + fs.skip(i + 1),
{
    let x = fs.take(i);
    let f = fs[i];
    let rest = fs.skip(i + 1);
    assert(fs =~= x + seq![f] + rest);
    assert(fs.take(i + 1) =~= x + seq![f]);
    assert(fs.skip(i) =~= seq![f] + rest);
    lemma_fields_bytes_concat(x + seq![f], rest);
    lemma_fields_bytes_concat(x, seq![f]);
    lemma_fields_bytes_single(f);
}

#[verifier::rlimit(50)]
proof fn lemma_fields_from_plain(fs: Seq<(u32, Seq<u8>)>, i: int)
    requires
        plain_fields(fs),
        0 <= i <= fs.len(),
    ensures
        fields_from(fields_bytes(fs), fields_bytes(fs.take(i)).len() as int, Map::empty()) == (fs.skip(i), None::<FieldStep>),
    decreases fs.len() - i,
{
    let m = fields_bytes(fs);
    if i == fs.len() {
        assert(fs.take(i) =~= fs);
        assert(fs.skip(i) =~= Seq::<(u32, Seq<u8>)>::empty());
    } else {
        let f = fs[i];
        lemma_split_at(fs, i);
        assert(soh_free(f.1) && spec_data_ref(f.0) is None);
        let x = fields_bytes(fs.take(i));
        let y = fields_bytes(fs.skip(i + 1));
        lemma_field_step_plain(x, f.0, f.1, y);
        lemma_fields_from_plain(fs, i + 1);
        let p = x.len() as int;
        let k = spec_digits(f.0 as nat).len() as int;
        assert(m.subrange(p + k + 1, p + k + 1 + f.1.len()) =~= f.1);
    }
}

/// The decoder reads back the fields the encoder wrote as they were: splitting the bytes of
/// plain fields yields those fields, with no fault.
pub proof fn lemma_decode_fields_bytes(fs: Seq<(u32, Seq<u8>)>)
    requires
        plain_fields(fs),
    ensures
        spec_fields(fields_bytes(fs)) == (fs, None::<FieldStep>),
{
    lemma_fields_from_plain(fs, 0);
    assert(fs.take(0) =~= Seq::<(u32, Seq<u8>)>::empty());
    assert(fs.skip(0) =~= fs);
}

/// All the fields of an encoded message, in order: BeginString, BodyLength, MsgType,
/// MsgSeqNum, the header fields before SendingTime, SendingTime, the rest of the header, the
/// body, and CheckSum.
pub open spec fn encoded_fields(
    b: MessageBuilder,
    msg_seq_num: u32,
    h: AdditionalHeaders,
    sending_time: Seq<u8>,
    prefix: Seq<(u32, Seq<u8>)>,
    suffix: Seq<(u32, Seq<u8>)>,
    body: Seq<(u32, Seq<u8>)>,
) -> Seq<(u32, Seq<u8>)> {
    seq![
        (8u32, b.begin_string()),
        (9u32, spec_digits(spec_body_length(b, msg_seq_num, h, sending_time))),
        (35u32, seq![b.spec_msg_type() as u8]),
        (34u32, spec_digits(msg_seq_num as nat)),
    ] + prefix + seq![(52u32, sending_time)] + suffix + body + seq![
        (10u32, three_digits(spec_checksum(spec_encode_head(b, msg_seq_num, h, sending_time)))),
    ]
}

/// Round trip: decoding an encoded message yields the fields it was built from, with
/// BeginString, BodyLength, MsgType, MsgSeqNum, SendingTime and CheckSum added in their
/// places, when no value holds an SOH and no tag announces a data length.
pub proof fn lemma_round_trip(
    b: MessageBuilder,
    msg_seq_num: u32,
    h: AdditionalHeaders,
    sending_time: Seq<u8>,
    prefix: Seq<(u32, Seq<u8>)>,
    suffix: Seq<(u32, Seq<u8>)>,
    body: Seq<(u32, Seq<u8>)>,
)
    requires
        h.prefix() == fields_bytes(prefix),
        h.suffix() == fields_bytes(suffix),
        b.body() == fields_bytes(body),
        plain_fields(prefix),
        plain_fields(suffix),
        plain_fields(body),
        soh_free(b.begin_string()),
        soh_free(sending_time),
        b.spec_msg_type() as u8 != 1,
    ensures
        spec_fields(spec_encode(b, msg_seq_num, h, sending_time)) == (
            encoded_fields(b, msg_seq_num, h, sending_time, prefix, suffix, body),
            None::<FieldStep>,
        ),
{
    let all = encoded_fields(b, msg_seq_num, h, sending_time, prefix, suffix, body);
    let lead = seq![
        (8u32, b.begin_string()),
        (9u32, spec_digits(spec_body_length(b, msg_seq_num, h, sending_time))),
        (35u32, seq![b.spec_msg_type() as u8]),
        (34u32, spec_digits(msg_seq_num as nat)),
    ];
    let st = seq![(52u32, sending_time)];
    let cs = seq![(10u32, three_digits(spec_checksum(spec_encode_head(b, msg_seq_num, h, sending_time))))];
    lemma_lead_plain(b, msg_seq_num, h, sending_time);
    lemma_single_plain(52u32, sending_time);
    lemma_checksum_plain(spec_checksum(spec_encode_head(b, msg_seq_num, h, sending_time)));
    lemma_plain_concat(lead, prefix);
    lemma_plain_concat(lead + prefix, st);
    lemma_plain_concat(lead + prefix + st, suffix);
    lemma_plain_concat(lead + prefix + st + suffix, body);
    lemma_plain_concat(lead + prefix + st + suffix + body, cs);
    lemma_encode_as_fields(b, msg_seq_num, h, sending_time, prefix, suffix, body);
    assert(all =~= lead + prefix + st + suffix + body + cs);
    lemma_decode_fields_bytes(all);
}

proof fn lemma_plain_concat(x: Seq<(u32, Seq<u8>)>, y: Seq<(u32, Seq<u8>)>)
    requires
        plain_fields(x),
        plain_fields(y),
    ensures
        plain_fields(x + y),
{
    assert forall|i: int| 0 <= i < (x + y).len() implies soh_free((#[trigger] (x + y)[i]).1) && spec_data_ref((x + y)[i].0) is None by {
        if i < x.len() {
            assert((x + y)[i] == x[i]);
        } else {
            assert((x + y)[i] == y[i - x.len()]);
        }
    }
}

proof fn lemma_single_plain(t: u32, v: Seq<u8>)
    requires
        soh_free(v),
        spec_data_ref(t) is None,
    ensures
        plain_fields(seq![(t, v)]),
{
}

proof fn lemma_digits_soh_free(n: nat)
    ensures
        soh_free(spec_digits(n)),
{
    lemma_digits_are_digits(n);
    let d = spec_digits(n);
    assert forall|j: int| 0 <= j < d.len() implies #[trigger] d[j] != 1 by {
        assert(is_digit(d[j]));
    }
}

proof fn lemma_checksum_plain(c: nat)
    requires
        c < 256,
    ensures
        plain_fields(seq![(10u32, three_digits(c))]),
{
    let t = three_digits(c);
    assert forall|j: int| 0 <= j < t.len() implies #[trigger] t[j] != 1 by {}
}

proof fn lemma_lead_plain(b: MessageBuilder, msg_seq_num: u32, h: AdditionalHeaders, sending_time: Seq<u8>)
    requires
        soh_free(b.begin_string()),
        b.spec_msg_type() as u8 != 1,
    ensures
        plain_fields(seq![
            (8u32, b.begin_string()),
            (9u32, spec_digits(spec_body_length(b, msg_seq_num, h, sending_time))),
            (35u32, seq![b.spec_msg_type() as u8]),
            (34u32, spec_digits(msg_seq_num as nat)),
        ]),
{
    lemma_digits_soh_free(spec_body_length(b, msg_seq_num, h, sending_time));
    lemma_digits_soh_free(msg_seq_num as nat);
    let lead = seq![
        (8u32, b.begin_string()),
        (9u32, spec_digits(spec_body_length(b, msg_seq_num, h, sending_time))),
        (35u32, seq![b.spec_msg_type() as u8]),
        (34u32, spec_digits(msg_seq_num as nat)),
    ];
    let mt = seq![b.spec_msg_type() as u8];
    assert(soh_free(mt)) by {
        assert forall|j: int| 0 <= j < mt.len() implies #[trigger] mt[j] != 1 by {}
    }
    assert forall|i: int| 0 <= i < lead.len() implies soh_free((#[trigger] lead[i]).1) && spec_data_ref(lead[i].0) is None by {}
}

#[verifier::rlimit(60)]
proof fn lemma_encode_as_fields(
    b: MessageBuilder,
    msg_seq_num: u32,
    h: AdditionalHeaders,
    sending_time: Seq<u8>,
    prefix: Seq<(u32, Seq<u8>)>,
    suffix: Seq<(u32, Seq<u8>)>,
    body: Seq<(u32, Seq<u8>)>,
)
    requires
        h.prefix() == fields_bytes(prefix),
        h.suffix() == fields_bytes(suffix),
        b.body() == fields_bytes(body),
    ensures
        fields_bytes(encoded_fields(b, msg_seq_num, h, sending_time, prefix, suffix, body))
            == spec_encode(b, msg_seq_num, h, sending_time),
{
    let bl = spec_body_length(b, msg_seq_num, h, sending_time);
    let f8 = (8u32, b.begin_string());
    let f9 = (9u32, spec_digits(bl));
    let f35 = (35u32, seq![b.spec_msg_type() as u8]);
    let f34 = (34u32, spec_digits(msg_seq_num as nat));
    let lead = seq![f8, f9, f35, f34];
    let st = seq![(52u32, sending_time)];
    let head = spec_encode_head(b, msg_seq_num, h, sending_time);
    let cs = seq![(10u32, three_digits(spec_checksum(head)))];
    let all = encoded_fields(b, msg_seq_num, h, sending_time, prefix, suffix, body);
    assert(all =~= lead + prefix + st + suffix + body + cs);
    lemma_fields_bytes_concat(lead + prefix + st + suffix + body, cs);
    lemma_fields_bytes_concat(lead + prefix + st + suffix, body);
    lemma_fields_bytes_concat(lead + prefix + st, suffix);
    lemma_fields_bytes_concat(lead + prefix, st);
    lemma_fields_bytes_concat(lead, prefix);
    assert(lead =~= seq![f8] + seq![f9] + seq![f35] + seq![f34]);
    lemma_fields_bytes_concat(seq![f8] + seq![f9] + seq![f35], seq![f34]);
    lemma_fields_bytes_concat(seq![f8] + seq![f9], seq![f35]);
    lemma_fields_bytes_concat(seq![f8], seq![f9]);
    lemma_fields_bytes_single(f8);
    lemma_fields_bytes_single(f9);
    lemma_fields_bytes_single(f35);
    lemma_fields_bytes_single(f34);
    lemma_fields_bytes_single((52u32, sending_time));
    lemma_fields_bytes_single((10u32, three_digits(spec_checksum(head))));
    assert(spec_digits(8) =~= seq![56u8]);
    assert(spec_digits(9) =~= seq![57u8]);
    assert(spec_digits(1) =~= seq![49u8]);
    assert(spec_digits(10) =~= seq![49u8, 48]);
    assert(spec_digits(3) =~= seq![51u8]);
    assert(spec_digits(5) =~= seq![53u8]);
    assert(spec_digits(35) =~= seq![51u8, 53]);
    assert(spec_digits(34) =~= seq![51u8, 52]);
    assert(spec_digits(52) =~= seq![53u8, 50]);
    let lb = seq![56u8, 61] + b.begin_string() + seq![1u8, 57, 61] + spec_digits(bl) + seq![1u8]
        + msg_type_field(b.spec_msg_type()) + crate::encode::seq_num_field(msg_seq_num);
    assert(fields_bytes(lead) =~= lb);
    assert(fields_bytes(st) == crate::encode::sending_time_field(sending_time));
    assert(head == lb + h.prefix() + crate::encode::sending_time_field(sending_time) + h.suffix() + b.body());
    assert(fields_bytes(all) == head + fields_bytes(cs));
    assert(head + fields_bytes(cs) =~= spec_encode(b, msg_seq_num, h, sending_time));
}

/// Messages and discarded runs one after the other.
pub open spec fn concat_all(items: Seq<Result<Seq<u8>, Seq<u8>>>) -> Seq<u8>
    decreases items.len(),
{
    if items.len() == 0 {
        Seq::empty()
    } else {
        item_bytes(items[0]) + concat_all(items.drop_first())
    }
}

/// A message the framer takes whole: its prefix reads within the header buffer, the length
/// it gives is its own, and its checksum field opens seven bytes before its end.
pub open spec fn frameable(m: Seq<u8>) -> bool {
    &&& m.len() >= 32
    &&& spec_peek(m) is Ok
    &&& spec_peek(m)->Ok_0.msg_length == m.len()
    &&& spec_peek(m)->Ok_0.fixed_fields_end <= 32
    &&& m[m.len() - 7] == 49 && m[m.len() - 6] == 48 && m[m.len() - 5] == 61
}

/// Garble the framer drops in one piece: it does not start with `8`, and no `8=F` starts
/// inside it.
pub open spec fn junk(j: Seq<u8>) -> bool {
    &&& j.len() >= 1
    &&& j[0] != 56
    &&& forall|i: int| 1 <= i && i + 3 <= j.len() ==> #[trigger] j.subrange(i, i + 3) != message_beginning()
}

/// A stream of whole messages with garble between them: every message is frameable, every run
/// of garble is junk and is followed by a message.
pub open spec fn well_formed_items(items: Seq<Result<Seq<u8>, Seq<u8>>>) -> bool {
    forall|i: int|
        0 <= i < items.len() ==> match #[trigger] items[i] {
            Ok(m) => frameable(m),
            Err(j) => junk(j) && i + 1 < items.len() && items[i + 1] is Ok,
        }
}

proof fn lemma_window_first(s: Seq<u8>, t: Seq<u8>, k: int, w: int)
    requires
        1 <= k <= w,
        w + t.len() <= s.len(),
        t.len() >= 1,
        s.subrange(w, w + t.len()) == t,
        forall|i: int| k <= i < w ==> #[trigger] s.subrange(i, i + t.len()) != t,
    ensures
        window_from(s, t, k) == Some(w),
    decreases w - k,
{
    if k < w {
        assert(s.subrange(k, k + t.len()) != t);
        lemma_window_first(s, t, k + 1, w);
    }
}

proof fn lemma_peek_prefix(m: Seq<u8>, h: Seq<u8>)
    requires
        spec_peek(m) is Ok,
        h.len() >= spec_peek(m)->Ok_0.fixed_fields_end,
        h.len() <= m.len(),
        forall|i: int| 0 <= i < h.len() ==> h[i] == m[i],
    ensures
        spec_peek(h) == spec_peek(m),
{
    crate::decode::lemma_peek_bounds(m);
    crate::decode::lemma_digit_run_end_bounds(m, 12);
    let q = digit_run_end(m, 12);
    assert(all_digits(m.subrange(12, q)));
    crate::decode::lemma_decimal_nonneg(m.subrange(12, q));
    assert(spec_peek(m)->Ok_0.len_end == q);
    assert(q + 6 <= h.len());
    assert(h.subrange(0, 12) =~= m.subrange(0, 12));
    assert(h.subrange(2, 9) =~= m.subrange(2, 9));
    assert forall|i: int| 12 <= i < q implies is_digit(#[trigger] h[i]) by {
        assert(h[i] == m[i]);
    }
    lemma_run_end(h, 12, q - 12);
    assert(h.subrange(12, q) =~= m.subrange(12, q));
}

/// A whole message at the front of the bytes is the framer's first item, whatever follows.
pub proof fn lemma_frame_message_step(m: Seq<u8>, after: Seq<u8>)
    requires
        frameable(m),
    ensures
        spec_frame(m + after) == seq![Ok::<Seq<u8>, Seq<u8>>(m)] + spec_frame(after),
{
    let s = m + after;
    let h = s.take(32);
    assert forall|i: int| 0 <= i < h.len() implies h[i] == m[i] by {}
    lemma_peek_prefix(m, h);
    let total = m.len() as int;
    assert(s.take(total) =~= m);
    assert(s.skip(total) =~= after);
    assert(s[total - 7] == m[total - 7] && s[total - 6] == m[total - 6] && s[total - 5] == m[total - 5]);
}

/// Garble before a whole message is dropped in one piece, and the message comes next.
pub proof fn lemma_frame_junk_step(j: Seq<u8>, m: Seq<u8>, after: Seq<u8>)
    requires
        junk(j),
        frameable(m),
    ensures
        spec_frame(j + (m + after)) == seq![Err::<Seq<u8>, Seq<u8>>(j)] + spec_frame(m + after),
{
    let s = j + (m + after);
    let w = j.len() as int;
    crate::decode::lemma_peek_bounds(m);
    assert(m.subrange(0, 12) == expected_prefix()) by {
        assert(spec_peek(m) is Ok);
    }
    assert(m[0] == 56 && m[1] == 61 && m[2] == 70) by {
        assert(m.subrange(0, 12)[0] == m[0]);
        assert(m.subrange(0, 12)[1] == m[1]);
        assert(m.subrange(0, 12)[2] == m[2]);
    }
    assert(s.subrange(w, w + 3) =~= message_beginning());
    assert forall|i: int| 1 <= i < w implies #[trigger] s.subrange(i, i + 3) != message_beginning() by {
        if i + 3 <= w {
            assert(s.subrange(i, i + 3) =~= j.subrange(i, i + 3));
        } else {
            assert(s[w] == 56);
            if i == w - 1 {
                assert(s.subrange(i, i + 3)[1] == s[w]);
            } else {
                assert(s.subrange(i, i + 3)[2] == s[w]);
            }
        }
    }
    lemma_window_first(s, message_beginning(), 1, w);
    assert(resync_point(s) == w);
    let h = s.take(32);
    assert(h[0] == j[0]);
    assert(h.subrange(0, 12)[0] == h[0]);
    assert(spec_peek(h) is Err);
    assert(s.take(w) =~= j);
    assert(s.skip(w) =~= m + after);
}

/// Framing: from a stream of whole messages with garble between them, the framer reads
/// exactly those messages, in order, and reports each run of garble once, as it stood.
pub proof fn lemma_frame_messages(items: Seq<Result<Seq<u8>, Seq<u8>>>)
    requires
        well_formed_items(items),
    ensures
        spec_frame(concat_all(items)) == items,
    decreases items.len(),
{
    let s = concat_all(items);
    if items.len() == 0 {
        assert(spec_frame(s) =~= items);
    } else {
        let rest = items.drop_first();
        assert forall|i: int| 0 <= i < rest.len() implies match #[trigger] rest[i] {
            Ok(m) => frameable(m),
            Err(j) => junk(j) && i + 1 < rest.len() && rest[i + 1] is Ok,
        } by {
            assert(rest[i] == items[i + 1]);
            if i + 1 < rest.len() {
                assert(rest[i + 1] == items[i + 2]);
            }
        }
        lemma_frame_messages(rest);
        let here = items[0];
        assert(match here {
            Ok(m) => frameable(m),
            Err(j) => junk(j) && 1 < items.len() && items[1] is Ok,
        });
        assert(seq![here] + rest =~= items);
        match here {
            Ok(m) => {
                lemma_frame_message_step(m, concat_all(rest));
            },
            Err(j) => {
                let m = item_bytes(items[1]);
                assert(rest[0] == items[1]);
                assert(concat_all(rest) == m + concat_all(rest.drop_first()));
                lemma_frame_junk_step(j, m, concat_all(rest.drop_first()));
            },
        }
    }
}

/// The framer reads an encoded message's BodyLength from its first 32 bytes alone: when the
/// prefix up to MsgType fits in the header buffer, peeking the first 32 bytes gives what
/// peeking the whole message gives.
pub proof fn lemma_encoded_header_peek(
    b: MessageBuilder,
    msg_seq_num: u32,
    h: AdditionalHeaders,
    sending_time: Seq<u8>,
)
    requires
        b.wf(),
        b.begin_string() == fix42(),
        spec_encode(b, msg_seq_num, h, sending_time).len() <= usize::MAX,
        spec_encode(b, msg_seq_num, h, sending_time).len() >= 32,
        spec_peek(spec_encode(b, msg_seq_num, h, sending_time))->Ok_0.fixed_fields_end <= 32,
    ensures
        spec_peek(spec_encode(b, msg_seq_num, h, sending_time).take(32)) == spec_peek(
            spec_encode(b, msg_seq_num, h, sending_time),
        ),
        spec_peek(spec_encode(b, msg_seq_num, h, sending_time).take(32)) matches Ok(p)
            && p.body_length == spec_body_length(b, msg_seq_num, h, sending_time)
            && p.msg_length == spec_encode(b, msg_seq_num, h, sending_time).len(),
{
    let m = spec_encode(b, msg_seq_num, h, sending_time);
    lemma_encoded_body_length(b, msg_seq_num, h, sending_time);
    lemma_peek_prefix(m, m.take(32));
}

} // verus!
