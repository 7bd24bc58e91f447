//! Building outbound messages: framing, BodyLength and checksum.

use vstd::prelude::*;
use crate::checksum::{spec_checksum, ChecksumWriter};
use vstd::string::StringSliceAdditionalSpecFns;

verus! {

/// The decimal digits of `n`, most significant first.
pub open spec fn spec_digits(n: nat) -> Seq<u8>
    decreases n,
{
    if n < 10 {
        seq![(48 + n) as u8]
    } else {
        spec_digits(n / 10).push((48 + n % 10) as u8)
    }
}

/// The three zero-padded digits of a checksum below 1000.
pub open spec fn three_digits(c: nat) -> Seq<u8> {
    seq![(48 + c / 100) as u8, (48 + (c / 10) % 10) as u8, (48 + c % 10) as u8]
}

/// One field on the wire: `tag=value<SOH>`.
pub open spec fn field_bytes(tag: u32, value: Seq<u8>) -> Seq<u8> {
    spec_digits(tag as nat) + seq![61u8] + value + seq![1u8]
}

/// Fields on the wire, one after the other.
pub open spec fn fields_bytes(fields: Seq<(u32, Seq<u8>)>) -> Seq<u8>
    decreases fields.len(),
{
    if fields.len() == 0 {
        Seq::empty()
    } else {
        fields_bytes(fields.drop_last()) + field_bytes(fields.last().0, fields.last().1)
    }
}

/// Writes `n` as decimal digits.
fn digits_of(n: u64) -> (r: Vec<u8>)
    ensures
        r@ == spec_digits(n as nat),
    decreases n,
{
    if n < 10 {
        vec![(48 + n) as u8]
    } else {
        let mut v = digits_of(n / 10);
        v.push((48 + n % 10) as u8);
        v
    }
}

/// An integer written as its ASCII decimal digits.
pub struct SerializedInt(Vec<u8>);

impl SerializedInt {
    pub closed spec fn view(&self) -> Seq<u8> {
        self.0@
    }

    pub fn from_u64(u: u64) -> (r: SerializedInt)
        ensures
            r.view() == spec_digits(u as nat),
    {
        SerializedInt(digits_of(u))
    }

    pub fn from_u32(u: u32) -> (r: SerializedInt)
        ensures
            r.view() == spec_digits(u as nat),
    {
        SerializedInt(digits_of(u as u64))
    }

    pub fn as_bytes(&self) -> (r: &[u8])
        ensures
            r@ == self.view(),
    {
        self.0.as_slice()
    }
}

impl From<u64> for SerializedInt {
    fn from(u: u64) -> (r: SerializedInt) {
        SerializedInt::from_u64(u)
    }
}

impl vstd::std_specs::convert::FromSpecImpl<u64> for SerializedInt {
    open spec fn obeys_from_spec() -> bool {
        false
    }

    open spec fn from_spec(u: u64) -> SerializedInt {
        arbitrary()
    }
}

impl From<u32> for SerializedInt {
    fn from(u: u32) -> (r: SerializedInt) {
        SerializedInt::from_u32(u)
    }
}

impl vstd::std_specs::convert::FromSpecImpl<u32> for SerializedInt {
    open spec fn obeys_from_spec() -> bool {
        false
    }

    open spec fn from_spec(u: u32) -> SerializedInt {
        arbitrary()
    }
}


/// The fields of `fields` before the first whose tag is above SendingTime(52).
pub open spec fn split_index(fields: Seq<(u32, Vec<u8>)>) -> int
    decreases fields.len(),
{
    if fields.len() == 0 {
        0
    } else if fields[0].0 > 52 {
        0
    } else {
        1 + split_index(fields.drop_first())
    }
}

pub open spec fn field_views(fields: Seq<(u32, Vec<u8>)>) -> Seq<(u32, Seq<u8>)> {
    fields.map_values(|f: (u32, Vec<u8>)| (f.0, f.1@))
}

proof fn lemma_split_index_bounds(fields: Seq<(u32, Vec<u8>)>)
    ensures
        0 <= split_index(fields) <= fields.len(),
        forall|i: int| 0 <= i < split_index(fields) ==> #[trigger] fields[i].0 <= 52,
        split_index(fields) < fields.len() ==> fields[split_index(fields)].0 > 52,
    decreases fields.len(),
{
    if fields.len() > 0 && fields[0].0 <= 52 {
        lemma_split_index_bounds(fields.drop_first());
        assert forall|i: int| 0 <= i < split_index(fields) implies #[trigger] fields[i].0 <= 52 by {
            if i > 0 {
                assert(fields[i] == fields.drop_first()[i - 1]);
            }
        }
        if split_index(fields) < fields.len() {
            assert(fields[split_index(fields)] == fields.drop_first()[split_index(fields) - 1]);
        }
    }
}

/// Writes fields one after the other as `tag=value<SOH>`.
pub fn format_fields(fields: &[(u32, Vec<u8>)]) -> (r: Vec<u8>)
    ensures
        r@ == fields_bytes(field_views(fields@)),
{
    let mut buf: Vec<u8> = Vec::new();
    let mut i: usize = 0;
    proof {
        assert(field_views(fields@.subrange(0, 0)) =~= Seq::<(u32, Seq<u8>)>::empty());
    }
    while i < fields.len()
        invariant
            i <= fields.len(),
            buf@ == fields_bytes(field_views(fields@.subrange(0, i as int))),
        decreases fields.len() - i,
    {
        let tag = SerializedInt::from_u32(fields[i].0);
        buf.extend_from_slice(tag.as_bytes());
        buf.push(61);
        buf.extend_from_slice(fields[i].1.as_slice());
        buf.push(1);
        proof {
            let pre = field_views(fields@.subrange(0, i as int));
            let post = field_views(fields@.subrange(0, i + 1));
            assert(post.drop_last() =~= pre);
            assert(post.last() == (fields@[i as int].0, fields@[i as int].1@));
            assert(buf@ =~= fields_bytes(pre) + field_bytes(fields@[i as int].0, fields@[i as int].1@));
        }
        i = i + 1;
    }
    proof {
        assert(fields@.subrange(0, i as int) =~= fields@);
    }
    buf
}

/// The header fields that go into every outbound message besides BeginString, BodyLength,
/// MsgType, MsgSeqNum and SendingTime, split around SendingTime.
#[derive(Debug)]
pub struct AdditionalHeaders {
    prefix: Vec<u8>,
    suffix: Vec<u8>,
}

impl AdditionalHeaders {
    /// The fields written before SendingTime.
    pub closed spec fn prefix(&self) -> Seq<u8> {
        self.prefix@
    }

    /// The fields written after SendingTime.
    pub closed spec fn suffix(&self) -> Seq<u8> {
        self.suffix@
    }

    /// Splits `fields` before the first whose tag is above SendingTime(52): those before go
    /// ahead of SendingTime, the rest after it.
    pub fn new(fields: Vec<(u32, Vec<u8>)>) -> (r: Self)
        ensures
            r.prefix() == fields_bytes(field_views(fields@.subrange(0, split_index(fields@)))),
            r.suffix() == fields_bytes(
                field_views(fields@.subrange(split_index(fields@), fields@.len() as int)),
            ),
    {
        let mut at: usize = 0;
        proof {
            lemma_split_index_bounds(fields@);
            assert(fields@.subrange(0, fields@.len() as int) =~= fields@);
        }
        while at < fields.len() && fields[at].0 <= 52
            invariant
                at <= fields.len(),
                split_index(fields@) == at + split_index(fields@.subrange(at as int, fields@.len() as int)),
            decreases fields.len() - at,
        {
            proof {
                let rest = fields@.subrange(at as int, fields@.len() as int);
                assert(rest.drop_first() =~= fields@.subrange(at + 1, fields@.len() as int));
            }
            at = at + 1;
        }
        proof {
            let rest = fields@.subrange(at as int, fields@.len() as int);
            if at < fields.len() {
                assert(rest[0] == fields@[at as int]);
            }
        }
        let (prefix_fields, suffix_fields) = fields.as_slice().split_at(at);
        AdditionalHeaders { prefix: format_fields(prefix_fields), suffix: format_fields(suffix_fields) }
    }

    /// The fields written before SendingTime.
    pub fn prefix_bytes(&self) -> (r: &[u8])
        ensures
            r@ == self.prefix(),
    {
        self.prefix.as_slice()
    }

    /// The fields written after SendingTime.
    pub fn suffix_bytes(&self) -> (r: &[u8])
        ensures
            r@ == self.suffix(),
    {
        self.suffix.as_slice()
    }

    /// The bytes the additional headers add to BodyLength, counting a SendingTime field of 25
    /// bytes.
    pub fn len(&self) -> (r: usize)
        requires
            self.prefix().len() + self.suffix().len() + 25 <= usize::MAX,
        ensures
            r == self.prefix().len() + 25 + self.suffix().len(),
    {
        self.prefix.len() + 25 + self.suffix.len()
    }
}

impl Default for AdditionalHeaders {
    fn default() -> (r: Self)
        ensures
            r.prefix() == Seq::<u8>::empty(),
            r.suffix() == Seq::<u8>::empty(),
    {
        AdditionalHeaders { prefix: Vec::new(), suffix: Vec::new() }
    }
}

/// The SenderCompID(49) and TargetCompID(56) header fields.
pub fn comp_id_headers(sender_comp_id: &str, target_comp_id: &str) -> (r: Vec<(u32, Vec<u8>)>)
    ensures
        field_views(r@) == seq![
            (49u32, sender_comp_id.spec_bytes()),
            (56u32, target_comp_id.spec_bytes()),
        ],
{
    let s = vstd::slice::slice_to_vec(sender_comp_id.as_bytes());
    let t = vstd::slice::slice_to_vec(target_comp_id.as_bytes());
    let r = vec![(49u32, s), (56u32, t)];
    proof {
        assert(field_views(r@) =~= seq![
            (49u32, sender_comp_id.spec_bytes()),
            (56u32, target_comp_id.spec_bytes()),
        ]);
    }
    r
}

/// An outbound message being built: BeginString, MsgType and the body fields pushed so far.
///
/// BodyLength, MsgSeqNum, SenderCompID, TargetCompID, SendingTime and CheckSum are added when
/// the message is written; do not push them.
#[derive(Debug)]
pub struct MessageBuilder {
    begin_string: Vec<u8>,
    msg_type: char,
    body: Vec<u8>,
}

impl MessageBuilder {
    pub closed spec fn begin_string(&self) -> Seq<u8> {
        self.begin_string@
    }

    pub closed spec fn spec_msg_type(&self) -> char {
        self.msg_type
    }

    /// The body fields on the wire.
    pub closed spec fn body(&self) -> Seq<u8> {
        self.body@
    }

    pub closed spec fn wf(&self) -> bool {
        (self.msg_type as u32) < 128
    }

    /// A message of type `msg_type` (one ASCII character) under `begin_string`.
    pub fn new(begin_string: &str, msg_type: char) -> (r: Self)
        requires
            (msg_type as u32) < 128,
        ensures
            r.wf(),
            r.begin_string() == begin_string.spec_bytes(),
            r.spec_msg_type() == msg_type,
            r.body() == Seq::<u8>::empty(),
    {
        MessageBuilder {
            begin_string: vstd::slice::slice_to_vec(begin_string.as_bytes()),
            msg_type,
            body: Vec::new(),
        }
    }

    /// Appends the field `tag=value`.
    pub fn push(self, tag: u32, value: &[u8]) -> (r: Self)
        ensures
            r.wf() == self.wf(),
            r.begin_string() == self.begin_string(),
            r.spec_msg_type() == self.spec_msg_type(),
            r.body() == self.body() + field_bytes(tag, value@),
    {
        let mut b = self;
        b.push_mut(tag, value);
        b
    }

    /// Appends the field `tag=value` in place.
    pub fn push_mut(&mut self, tag: u32, value: &[u8])
        ensures
            final(self).wf() == old(self).wf(),
            final(self).begin_string() == old(self).begin_string(),
            final(self).spec_msg_type() == old(self).spec_msg_type(),
            final(self).body() == old(self).body() + field_bytes(tag, value@),
    {
        let t = SerializedInt::from_u32(tag);
        self.body.extend_from_slice(t.as_bytes());
        self.body.push(61);
        self.body.extend_from_slice(value);
        self.body.push(1);
        proof {
            assert(self.body@ =~= old(self).body@ + field_bytes(tag, value@));
        }
    }

    /// The MsgType of the message.
    pub fn msg_type(&self) -> (r: char)
        ensures
            r == self.spec_msg_type(),
    {
        self.msg_type
    }
}

/// `34=<seq><SOH>`.
pub open spec fn seq_num_field(seq: u32) -> Seq<u8> {
    field_bytes(34, spec_digits(seq as nat))
}

/// `52=<time><SOH>`.
pub open spec fn sending_time_field(time: Seq<u8>) -> Seq<u8> {
    field_bytes(52, time)
}

/// `35=<c><SOH>`.
pub open spec fn msg_type_field(c: char) -> Seq<u8> {
    field_bytes(35, seq![c as u8])
}

/// The BodyLength of a message: every byte after the BodyLength field up to the checksum field.
pub open spec fn spec_body_length(
    b: MessageBuilder,
    seq: u32,
    h: AdditionalHeaders,
    time: Seq<u8>,
) -> nat {
    (msg_type_field(b.spec_msg_type()) + seq_num_field(seq) + h.prefix() + sending_time_field(time)
        + h.suffix() + b.body()).len()
}

/// A message on the wire up to (not including) its checksum field.
pub open spec fn spec_encode_head(
    b: MessageBuilder,
    seq: u32,
    h: AdditionalHeaders,
    time: Seq<u8>,
) -> Seq<u8> {
    seq![56u8, 61] + b.begin_string() + seq![1u8, 57, 61] + spec_digits(
        spec_body_length(b, seq, h, time),
    ) + seq![1u8] + msg_type_field(b.spec_msg_type()) + seq_num_field(seq) + h.prefix()
        + sending_time_field(time) + h.suffix() + b.body()
}

/// A whole message on the wire: its head, then `10=<checksum of the head><SOH>`.
pub open spec fn spec_encode(b: MessageBuilder, seq: u32, h: AdditionalHeaders, time: Seq<u8>) -> Seq<u8> {
    let head = spec_encode_head(b, seq, h, time);
    head + seq![49u8, 48, 61] + three_digits(spec_checksum(head)) + seq![1u8]
}

/// An upper bound on the encoded size, to keep lengths within `usize`.
pub open spec fn encode_size_bound(b: MessageBuilder, h: AdditionalHeaders, time: Seq<u8>) -> int {
    (b.begin_string().len() + h.prefix().len() + h.suffix().len() + b.body().len() + time.len() + 100) as int
}

impl MessageBuilder {
    /// Writes the message with MsgSeqNum `msg_seq_num`, the additional headers and the
    /// SendingTime value `sending_time`, closing it with its BodyLength and CheckSum.
    #[verifier::rlimit(40)]
    pub fn build(
        &self,
        msg_seq_num: u32,
        additional_headers: &AdditionalHeaders,
        sending_time: &[u8],
    ) -> (r: Option<Vec<u8>>)
        requires
            self.wf(),
        ensures
            encode_size_bound(*self, *additional_headers, sending_time@) <= u64::MAX
                && encode_size_bound(*self, *additional_headers, sending_time@) <= usize::MAX
                ==> (r matches Some(v) && v@ == spec_encode(*self, msg_seq_num, *additional_headers, sending_time@)),
            !(encode_size_bound(*self, *additional_headers, sending_time@) <= u64::MAX
                && encode_size_bound(*self, *additional_headers, sending_time@) <= usize::MAX)
                ==> r is None,
    {
        let total: u128 = self.begin_string.len() as u128 + additional_headers.prefix.len() as u128
            + additional_headers.suffix.len() as u128 + self.body.len() as u128
            + sending_time.len() as u128 + 100;
        if total > u64::MAX as u128 || total > usize::MAX as u128 {
            return None;
        }
        let seq = SerializedInt::from_u32(msg_seq_num);
        proof {
            lemma_digits_len_bound(msg_seq_num as nat);
            assert(spec_digits(3) =~= seq![51u8]);
            assert(spec_digits(5) =~= seq![53u8]);
            assert(spec_digits(34) =~= seq![51u8, 52]);
            assert(spec_digits(35) =~= seq![51u8, 53]);
            assert(spec_digits(52) =~= seq![53u8, 50]);
        }
        let mt_value: Vec<u8> = vec![self.msg_type as u8];
        let mtf = field_vec(35, mt_value.as_slice());
        let snf = field_vec(34, seq.as_bytes());
        let stf = field_vec(52, sending_time);
        let body_len: usize = mtf.len() + snf.len() + additional_headers.prefix.len() + stf.len()
            + additional_headers.suffix.len() + self.body.len();
        let body_len_digits = SerializedInt::from_u64(body_len as u64);
        let mut pre: Vec<u8> = vec![56u8, 61u8];
        pre.extend_from_slice(self.begin_string.as_slice());
        pre.push(1);
        pre.push(57);
        pre.push(61);
        let soh: Vec<u8> = vec![1u8];
        let mut w = ChecksumWriter::new(Vec::new());
        proof {
            assert(pre@ =~= seq![56u8, 61] + self.begin_string@ + seq![1u8, 57, 61]);
            assert(Seq::<u8>::empty() + pre@ =~= pre@);
            assert(w.running() == spec_checksum(w.bytes())) by {
                assert(w.bytes() =~= Seq::<u8>::empty());
            }
        }
        w.write(pre.as_slice());
        w.write(body_len_digits.as_bytes());
        w.write(soh.as_slice());
        w.write(mtf.as_slice());
        w.write(snf.as_slice());
        w.write(additional_headers.prefix.as_slice());
        w.write(stf.as_slice());
        w.write(additional_headers.suffix.as_slice());
        w.write(self.body.as_slice());
        let c = w.checksum();
        proof {
            let head = spec_encode_head(*self, msg_seq_num, *additional_headers, sending_time@);
            assert(w.bytes() == head);
        }
        let tail: Vec<u8> = vec![
            49u8,
            48,
            61,
            (48 + c / 100) as u8,
            (48 + (c / 10) % 10) as u8,
            (48 + c % 10) as u8,
            1,
        ];
        w.write(tail.as_slice());
        let r = w.into_inner();
        proof {
            assert(r@ =~= spec_encode(*self, msg_seq_num, *additional_headers, sending_time@));
        }
        Some(r)
    }
}

/// Writes one field, `tag=value<SOH>`.
fn field_vec(tag: u32, value: &[u8]) -> (r: Vec<u8>)
    ensures
        r@ == field_bytes(tag, value@),
{
    let t = SerializedInt::from_u32(tag);
    let mut v: Vec<u8> = Vec::new();
    v.extend_from_slice(t.as_bytes());
    v.push(61);
    v.extend_from_slice(value);
    v.push(1);
    proof {
        assert(v@ =~= field_bytes(tag, value@));
    }
    v
}

pub proof fn lemma_digits_len_bound(n: nat)
    requires
        n <= u64::MAX,
    ensures
        1 <= spec_digits(n).len() <= 20,
{
    reveal_with_fuel(pow10, 21);
    assert(pow10(20) == 100000000000000000000nat);
    lemma_digits_len_le(n, 20);
}

proof fn lemma_digits_len_le(n: nat, k: nat)
    requires
        1 <= k,
        n < pow10(k),
    ensures
        1 <= spec_digits(n).len() <= k,
    decreases n,
{
    if n >= 10 {
        assert(k >= 2) by {
            if k == 1 {
                reveal_with_fuel(pow10, 2);
            }
        }
        lemma_pow10_step(k);
        assert(n / 10 < pow10((k - 1) as nat)) by (nonlinear_arith)
            requires
                n < pow10(k),
                pow10(k) == 10 * pow10((k - 1) as nat),
        ;
        lemma_digits_len_le(n / 10, (k - 1) as nat);
    }
}

pub open spec fn pow10(k: nat) -> nat
    decreases k,
{
    if k == 0 {
        1
    } else {
        10 * pow10((k - 1) as nat)
    }
}

proof fn lemma_pow10_step(k: nat)
    requires
        k >= 1,
    ensures
        pow10(k) == 10 * pow10((k - 1) as nat),
{
}

} // verus!
