//! Splitting a FIX message into its tag/value fields.

use vstd::prelude::*;
use std::collections::HashMap;
use crate::checksum::is_digit;
use crate::error::{GarbledMessageType, SessionError};
use crate::fields::{get_data_ref, spec_data_ref, Tags};

verus! {

broadcast use vstd::std_specs::hash::group_hash_axioms;

/// Errors met while splitting a message into fields.
#[derive(Debug, Clone, PartialEq, Eq)]
pub enum MessageParseError {
    /// The byte at this index was unexpected; the whole message is kept.
    UnexpectedByte(usize, Vec<u8>),
    /// The value of a length field (the tag and its raw value) is not a decimal number.
    BadLengthField(u32, Vec<u8>),
}

/// Errors met while decoding a tag or a value.
#[derive(Debug, Clone, PartialEq, Eq)]
pub enum DecodeError {
    /// The message could not be split into fields.
    BadMessage(MessageParseError),
    /// No known tag has this number.
    UnknownTag(u32),
    /// The value is not valid UTF-8.
    Utf8Error,
    /// The value could not be read as the requested type.
    BadValue(Vec<u8>),
    /// The character is not in the value set of the tag.
    UnknownChar(Tags, char),
    /// The integer is not in the value set of the tag.
    UnknownInt(Tags, u8),
}

/// The value of a run of ASCII digits.
pub open spec fn decimal(s: Seq<u8>) -> int
    decreases s.len(),
{
    if s.len() == 0 {
        0
    } else {
        decimal(s.drop_last()) * 10 + (s.last() as int - 48)
    }
}

pub open spec fn all_digits(s: Seq<u8>) -> bool {
    forall|i: int| 0 <= i < s.len() ==> is_digit(#[trigger] s[i])
}

/// A decimal value that fits in a `u32`; an empty value reads as 0.
pub open spec fn spec_bytes_to_u32(s: Seq<u8>) -> Option<u32> {
    if all_digits(s) && decimal(s) <= u32::MAX {
        Some(decimal(s) as u32)
    } else {
        None
    }
}

/// The first index at or after `p` that does not hold a digit (or the length).
pub open spec fn digit_run_end(msg: Seq<u8>, p: int) -> int
    decreases msg.len() - p,
{
    if 0 <= p < msg.len() && is_digit(msg[p]) {
        digit_run_end(msg, p + 1)
    } else {
        p
    }
}

/// The first index at or after `k` that holds an SOH (or `k` itself when `k` is past the end).
pub open spec fn soh_from(msg: Seq<u8>, k: int) -> int
    decreases msg.len() - k,
{
    if 0 <= k < msg.len() && msg[k] != 1 {
        soh_from(msg, k + 1)
    } else {
        k
    }
}

/// The outcome of reading one field at a position of a message.
pub enum FieldStep {
    /// The message ends before another field is complete.
    End,
    /// The byte at this index is out of place.
    FailAt(int),
    /// A length field's value is not a decimal number.
    BadLength(u32, Seq<u8>),
    /// A field: its tag, where its value starts and ends (at the SOH), and the data lengths known
    /// after it.
    Field { tag: u32, start: int, end: int, lengths: Map<u32, u32> },
}

/// Where the value of a field with `tag` starting at `start` begins its search for SOH: a data
/// field whose length `n` is known skips `n - 1` bytes first.
pub open spec fn value_scan_start(tag: u32, start: int, lengths: Map<u32, u32>) -> int {
    if lengths.contains_key(tag) && lengths[tag] >= 1 {
        start + lengths[tag] - 1
    } else {
        start
    }
}

/// Reads the field that starts at `p`, knowing the data lengths `lengths`.
pub open spec fn field_step(msg: Seq<u8>, p: int, lengths: Map<u32, u32>) -> FieldStep {
    if p >= msg.len() {
        FieldStep::End
    } else if !is_digit(msg[p]) {
        FieldStep::FailAt(p)
    } else {
        let q = digit_run_end(msg, p);
        let tag = decimal(msg.subrange(p, q));
        if tag > u32::MAX {
            FieldStep::FailAt(p)
        } else if q >= msg.len() {
            FieldStep::End
        } else if msg[q] != 61 {
            FieldStep::FailAt(q)
        } else {
            let start = q + 1;
            let e = soh_from(msg, value_scan_start(tag as u32, start, lengths));
            if e >= msg.len() {
                FieldStep::End
            } else {
                let v = msg.subrange(start, e);
                match spec_data_ref(tag as u32) {
                    None => FieldStep::Field { tag: tag as u32, start, end: e, lengths },
                    Some(t) => match spec_bytes_to_u32(v) {
                        Some(n) => FieldStep::Field {
                            tag: tag as u32,
                            start,
                            end: e,
                            lengths: lengths.insert(t, n),
                        },
                        None => FieldStep::BadLength(tag as u32, v),
                    },
                }
            }
        }
    }
}

pub proof fn lemma_digit_run_end_bounds(msg: Seq<u8>, p: int)
    requires
        0 <= p <= msg.len(),
    ensures
        p <= digit_run_end(msg, p) <= msg.len(),
        forall|i: int| p <= i < digit_run_end(msg, p) ==> is_digit(#[trigger] msg[i]),
        digit_run_end(msg, p) < msg.len() ==> !is_digit(msg[digit_run_end(msg, p)]),
    decreases msg.len() - p,
{
    if p < msg.len() && is_digit(msg[p]) {
        lemma_digit_run_end_bounds(msg, p + 1);
    }
}

pub proof fn lemma_soh_from_bounds(msg: Seq<u8>, k: int)
    requires
        0 <= k,
    ensures
        k <= soh_from(msg, k),
        soh_from(msg, k) < msg.len() ==> msg[soh_from(msg, k)] == 1,
        forall|i: int| k <= i < soh_from(msg, k) ==> #[trigger] msg[i] != 1,
    decreases msg.len() - k,
{
    if 0 <= k < msg.len() && msg[k] != 1 {
        lemma_soh_from_bounds(msg, k + 1);
    }
}

pub proof fn lemma_field_step_advances(msg: Seq<u8>, p: int, lengths: Map<u32, u32>)
    requires
        0 <= p,
    ensures
        field_step(msg, p, lengths) matches FieldStep::Field { start, end, .. } ==> p < start
            <= end < msg.len() && msg[end] == 1,
{
    if p < msg.len() && is_digit(msg[p]) {
        lemma_digit_run_end_bounds(msg, p);
        let q = digit_run_end(msg, p);
        let tag = decimal(msg.subrange(p, q));
        if tag <= u32::MAX && q < msg.len() && msg[q] == 61 {
            lemma_soh_from_bounds(msg, value_scan_start(tag as u32, q + 1, lengths));
        }
    }
}

/// The fields of `msg` from position `p` on, and the fault that stopped the reading, if any.
pub open spec fn fields_from(msg: Seq<u8>, p: int, lengths: Map<u32, u32>) -> (
    Seq<(u32, Seq<u8>)>,
    Option<FieldStep>,
)
    decreases msg.len() - p,
    when 0 <= p
    via fields_from_decreases
{
    match field_step(msg, p, lengths) {
        FieldStep::Field { tag, start, end, lengths: next } => {
            let rest = fields_from(msg, end + 1, next);
            (seq![(tag, msg.subrange(start, end))] + rest.0, rest.1)
        },
        FieldStep::End => (Seq::empty(), None),
        f => (Seq::empty(), Some(f)),
    }
}

#[via_fn]
proof fn fields_from_decreases(msg: Seq<u8>, p: int, lengths: Map<u32, u32>) {
    lemma_field_step_advances(msg, p, lengths);
}

/// The fields of a whole message, and the fault that stopped the reading, if any.
pub open spec fn spec_fields(msg: Seq<u8>) -> (Seq<(u32, Seq<u8>)>, Option<FieldStep>) {
    fields_from(msg, 0, Map::empty())
}

/// Copies a byte slice into a new vector.
fn copy_bytes(s: &[u8]) -> (r: Vec<u8>)
    ensures
        r@ == s@,
{
    vstd::slice::slice_to_vec(s)
}

proof fn lemma_decimal_push(s: Seq<u8>, b: u8)
    ensures
        decimal(s.push(b)) == decimal(s) * 10 + (b as int - 48),
{
    assert(s.push(b).drop_last() =~= s);
}

/// Reads a run of digits `msg[p..q]` as a number, or `None` when it exceeds `u32::MAX`.
fn read_decimal(msg: &[u8], p: usize, q: usize) -> (r: Option<u32>)
    requires
        p <= q <= msg@.len(),
        all_digits(msg@.subrange(p as int, q as int)),
    ensures
        r == (if decimal(msg@.subrange(p as int, q as int)) <= u32::MAX {
            Some(decimal(msg@.subrange(p as int, q as int)) as u32)
        } else {
            None
        }),
        decimal(msg@.subrange(p as int, q as int)) >= 0,
{
    let mut acc: u32 = 0;
    let mut over = false;
    let mut i = p;
    proof {
        assert(msg@.subrange(p as int, p as int) =~= Seq::<u8>::empty());
    }
    while i < q
        invariant
            p <= i <= q <= msg@.len(),
            all_digits(msg@.subrange(p as int, q as int)),
            decimal(msg@.subrange(p as int, i as int)) >= 0,
            !over ==> acc == decimal(msg@.subrange(p as int, i as int)),
            over ==> decimal(msg@.subrange(p as int, i as int)) > u32::MAX,
        decreases q - i,
    {
        let b = msg[i];
        proof {
            assert(msg@.subrange(p as int, i + 1) =~= msg@.subrange(p as int, i as int).push(b));
            lemma_decimal_push(msg@.subrange(p as int, i as int), b);
            assert(msg@.subrange(p as int, q as int)[i - p] == b);
        }
        if !over {
            match acc.checked_mul(10) {
                Some(m) => match m.checked_add((b - 48) as u32) {
                    Some(v) => {
                        acc = v;
                    },
                    None => {
                        over = true;
                    },
                },
                None => {
                    over = true;
                },
            }
        }
        i = i + 1;
    }
    if over {
        None
    } else {
        Some(acc)
    }
}

/// Reads `bytes` as a decimal `u32`: `None` on a byte that is not a digit or on overflow.
pub fn bytes_to_u32(bytes: &[u8]) -> (r: Option<u32>)
    ensures
        r == spec_bytes_to_u32(bytes@),
{
    let mut i: usize = 0;
    while i < bytes.len()
        invariant
            i <= bytes.len(),
            forall|j: int| 0 <= j < i ==> is_digit(#[trigger] bytes@[j]),
        decreases bytes.len() - i,
    {
        if bytes[i] < 48 || bytes[i] > 57 {
            return None;
        }
        i = i + 1;
    }
    proof {
        assert(bytes@.subrange(0, bytes@.len() as int) =~= bytes@);
    }
    read_decimal(bytes, 0, bytes.len())
}

/// Splits a message into its fields, one at a time.
pub struct FieldIter<'a> {
    msg: &'a [u8],
    pos: usize,
    done: bool,
    field_lengths: HashMap<u32, u32>,
}

impl<'a> FieldIter<'a> {
    /// The message being read.
    pub closed spec fn message(&self) -> Seq<u8> {
        self.msg@
    }

    /// Where the next field starts.
    pub closed spec fn position(&self) -> int {
        self.pos as int
    }

    /// Whether the reading has ended.
    pub closed spec fn finished(&self) -> bool {
        self.done
    }

    /// The value lengths of data fields announced so far.
    pub closed spec fn lengths(&self) -> Map<u32, u32> {
        self.field_lengths@
    }

    pub closed spec fn wf(&self) -> bool {
        self.pos <= self.msg@.len()
    }

    pub fn new(msg: &'a [u8]) -> (r: Self)
        ensures
            r.wf(),
            r.message() == msg@,
            r.position() == 0,
            !r.finished(),
            r.lengths() == Map::<u32, u32>::empty(),
    {
        FieldIter { msg, pos: 0, done: false, field_lengths: HashMap::new() }
    }

    /// Returns the next field as its tag and its value, or the fault that ends the reading;
    /// `None` once the message has no further complete field.
    pub fn next(&mut self) -> (r: Option<Result<(u32, &'a [u8]), MessageParseError>>)
        requires
            old(self).wf(),
        ensures
            final(self).wf(),
            final(self).message() == old(self).message(),
            old(self).finished() ==> r is None && final(self).finished(),
            !old(self).finished() ==> match field_step(
                old(self).message(),
                old(self).position(),
                old(self).lengths(),
            ) {
                FieldStep::End => r is None && final(self).finished(),
                FieldStep::FailAt(i) => final(self).finished() && (r matches Some(
                    Err(MessageParseError::UnexpectedByte(j, m)),
                ) && j == i && m@ == old(self).message()),
                FieldStep::BadLength(t, v) => final(self).finished() && (r matches Some(
                    Err(MessageParseError::BadLengthField(u, w)),
                ) && u == t && w@ == v),
                FieldStep::Field { tag, start, end, lengths } => !final(self).finished() && (r matches Some(
                    Ok((u, w)),
                ) && u == tag && w@ == old(self).message().subrange(start, end))
                    && final(self).position() == end + 1 && final(self).lengths() == lengths,
            },
    {
        if self.done {
            return None;
        }
        let msg = self.msg;
        let len = msg.len();
        let p = self.pos;
        if p >= len {
            self.done = true;
            return None;
        }
        if msg[p] < 48 || msg[p] > 57 {
            self.done = true;
            return Some(Err(MessageParseError::UnexpectedByte(p, copy_bytes(msg))));
        }
        let mut q = p;
        while q < len && msg[q] >= 48 && msg[q] <= 57
            invariant
                p <= q <= len,
                len == msg@.len(),
                digit_run_end(msg@, p as int) == digit_run_end(msg@, q as int),
                forall|i: int| p <= i < q ==> is_digit(#[trigger] msg@[i]),
            decreases len - q,
        {
            q = q + 1;
        }
        proof {
            assert(all_digits(msg@.subrange(p as int, q as int)));
        }
        let tag = match read_decimal(msg, p, q) {
            Some(t) => t,
            None => {
                self.done = true;
                return Some(Err(MessageParseError::UnexpectedByte(p, copy_bytes(msg))));
            },
        };
        if q >= len {
            self.done = true;
            return None;
        }
        if msg[q] != 61 {
            self.done = true;
            return Some(Err(MessageParseError::UnexpectedByte(q, copy_bytes(msg))));
        }
        let start = q + 1;
        let mut k = start;
        match self.field_lengths.get(&tag) {
            Some(n) => {
                if *n >= 1 {
                    let skip = (*n - 1) as usize;
                    if skip >= len - start {
                        self.done = true;
                        proof {
                            lemma_soh_from_bounds(msg@, start + skip);
                        }
                        return None;
                    }
                    k = start + skip;
                }
            },
            None => {},
        }
        let mut e = k;
        while e < len && msg[e] != 1
            invariant
                k <= e <= len,
                len == msg@.len(),
                soh_from(msg@, k as int) == soh_from(msg@, e as int),
            decreases len - e,
        {
            e = e + 1;
        }
        if e >= len {
            self.done = true;
            return None;
        }
        let value = &msg[start..e];
        match get_data_ref(tag) {
            Some(t) => match bytes_to_u32(value) {
                Some(n) => {
                    self.field_lengths.insert(t, n);
                },
                None => {
                    self.done = true;
                    return Some(Err(MessageParseError::BadLengthField(tag, copy_bytes(value))));
                },
            },
            None => {},
        }
        self.pos = e + 1;
        Some(Ok((tag, value)))
    }
}

/// The tags that stand in a message's standard header.
pub open spec fn spec_is_header_field(tag: u32) -> bool {
    tag == 8 || tag == 9 || tag == 35 || tag == 49 || tag == 56 || tag == 115 || tag == 128
        || tag == 90 || tag == 91 || tag == 34 || tag == 50 || tag == 142 || tag == 57 || tag
        == 143 || tag == 116 || tag == 129 || tag == 145 || tag == 43 || tag == 97 || tag == 52
        || tag == 122 || tag == 212 || tag == 213 || tag == 347 || tag == 369 || tag == 370
}

/// The tags that stand in a message's standard trailer.
pub open spec fn spec_is_trailer_field(tag: u32) -> bool {
    tag == 93 || tag == 89 || tag == 10
}

pub fn is_header_field(tag: u32) -> (r: bool)
    ensures
        r == spec_is_header_field(tag),
{
    match tag {
        8 | 9 | 35 | 49 | 56 | 115 | 128 | 90 | 91 | 34 | 50 | 142 | 57 | 143 | 116 | 129 | 145
        | 43 | 97 | 52 | 122 | 212 | 213 | 347 | 369 | 370 => true,
        _ => false,
    }
}

pub fn is_trailer_field(tag: u32) -> (r: bool)
    ensures
        r == spec_is_trailer_field(tag),
{
    tag == 93 || tag == 89 || tag == 10
}

/// Receives the fields of a message from [`parse`], sorted into header, body and trailer.
///
/// `header`, `body` and `trailer` return `Ok(true)` to go on, `Ok(false)` to stop, or an error
/// that stops the parse and is returned by it. `parse_error` turns a fault met while splitting
/// the message into the parse's result. Each method's effect is stated by its `*_post`
/// relation between the callback before, the field, the callback after and the result.
pub trait ParserCallback: Sized {
    type Err;

    spec fn header_post(self, key: u32, value: Seq<u8>, next: Self, r: Result<bool, Self::Err>) -> bool;

    spec fn body_post(self, key: u32, value: Seq<u8>, next: Self, r: Result<bool, Self::Err>) -> bool;

    spec fn trailer_post(self, key: u32, value: Seq<u8>, next: Self, r: Result<bool, Self::Err>) -> bool;

    spec fn parse_error_post(self, err: MessageParseError, next: Self, r: Result<(), Self::Err>) -> bool;

    fn header(&mut self, key: u32, value: &[u8]) -> (r: Result<bool, Self::Err>)
        ensures
            old(self).header_post(key, value@, *final(self), r),
    ;

    fn body(&mut self, key: u32, value: &[u8]) -> (r: Result<bool, Self::Err>)
        ensures
            old(self).body_post(key, value@, *final(self), r),
    ;

    fn trailer(&mut self, key: u32, value: &[u8]) -> (r: Result<bool, Self::Err>)
        ensures
            old(self).trailer_post(key, value@, *final(self), r),
    ;

    fn parse_error(&mut self, err: MessageParseError) -> (r: Result<(), Self::Err>)
        ensures
            old(self).parse_error_post(err, *final(self), r),
    ;
}

/// A callback that accepts every field and returns each fault as a [`DecodeError`].
pub struct NullParserCallback;

impl ParserCallback for NullParserCallback {
    type Err = DecodeError;

    open spec fn header_post(self, key: u32, value: Seq<u8>, next: Self, r: Result<bool, DecodeError>) -> bool {
        r == Ok::<bool, DecodeError>(true)
    }

    open spec fn body_post(self, key: u32, value: Seq<u8>, next: Self, r: Result<bool, DecodeError>) -> bool {
        r == Ok::<bool, DecodeError>(true)
    }

    open spec fn trailer_post(self, key: u32, value: Seq<u8>, next: Self, r: Result<bool, DecodeError>) -> bool {
        r == Ok::<bool, DecodeError>(true)
    }

    open spec fn parse_error_post(self, err: MessageParseError, next: Self, r: Result<(), DecodeError>) -> bool {
        r == Err::<(), DecodeError>(DecodeError::BadMessage(err))
    }

    fn header(&mut self, _key: u32, _value: &[u8]) -> (r: Result<bool, DecodeError>) {
        Ok(true)
    }

    fn body(&mut self, _key: u32, _value: &[u8]) -> (r: Result<bool, DecodeError>) {
        Ok(true)
    }

    fn trailer(&mut self, _key: u32, _value: &[u8]) -> (r: Result<bool, DecodeError>) {
        Ok(true)
    }

    fn parse_error(&mut self, err: MessageParseError) -> (r: Result<(), DecodeError>) {
        Err(DecodeError::BadMessage(err))
    }
}

/// The callback method a field goes to: header, else trailer, else body.
pub open spec fn dispatch_post<T: ParserCallback>(
    c: T,
    f: (u32, Seq<u8>),
    next: T,
    x: Result<bool, T::Err>,
) -> bool {
    if spec_is_header_field(f.0) {
        c.header_post(f.0, f.1, next, x)
    } else if spec_is_trailer_field(f.0) {
        c.trailer_post(f.0, f.1, next, x)
    } else {
        c.body_post(f.0, f.1, next, x)
    }
}

/// The error value that reports a fault of the reading of `msg`.
pub open spec fn fault_error(f: FieldStep, msg: Seq<u8>, e: MessageParseError) -> bool {
    match f {
        FieldStep::FailAt(i) => e matches MessageParseError::UnexpectedByte(j, m) && j == i && m@ == msg,
        FieldStep::BadLength(t, v) => e matches MessageParseError::BadLengthField(u, w) && u == t && w@ == v,
        _ => false,
    }
}

/// A run of [`parse`] over the fields `fields[i..]` of `msg` (then `fault`, if any) that takes
/// the callback from `c` to `cf` and returns `r`: each field goes to its method in order; the
/// run stops on `Ok(false)` (returning `Ok(())`) or `Err(e)` (returning it); after the last
/// field a fault goes to `parse_error`, whose result is returned.
pub open spec fn parse_runs<T: ParserCallback>(
    msg: Seq<u8>,
    fields: Seq<(u32, Seq<u8>)>,
    fault: Option<FieldStep>,
    i: int,
    c: T,
    cf: T,
    r: Result<(), T::Err>,
) -> bool
    decreases fields.len() - i,
{
    if i < 0 || i >= fields.len() {
        match fault {
            None => cf == c && r is Ok,
            Some(f) => exists|e: MessageParseError| #[trigger] fault_error(f, msg, e) && c.parse_error_post(e, cf, r),
        }
    } else {
        exists|c2: T, x: Result<bool, T::Err>|
            #[trigger] dispatch_post(c, fields[i], c2, x) && match x {
                Ok(b) => if b {
                    parse_runs(msg, fields, fault, i + 1, c2, cf, r)
                } else {
                    cf == c2 && r is Ok
                },
                Err(e) => cf == c2 && r == Err::<(), T::Err>(e),
            }
    }
}

/// Splits `msg` into fields and hands each, in order, to the callback method for its part of
/// the message; a fault in the message goes to `parse_error`, whose result is returned.
pub fn parse<T: ParserCallback>(msg: &[u8], callbacks: &mut T) -> (r: Result<(), T::Err>)
    ensures
        parse_runs(msg@, spec_fields(msg@).0, spec_fields(msg@).1, 0, *old(callbacks), *final(callbacks), r),
{
    let ghost fs = spec_fields(msg@).0;
    let ghost fault = spec_fields(msg@).1;
    let ghost c0 = *callbacks;
    let ghost mut i: int = 0;
    let mut iter = FieldIter::new(msg);
    proof {
        assert(fs.skip(0) =~= fs);
    }
    loop
        invariant
            iter.wf(),
            iter.message() == msg@,
            !iter.finished(),
            0 <= i <= fs.len(),
            fields_from(msg@, iter.position(), iter.lengths()).0 == fs.skip(i),
            fields_from(msg@, iter.position(), iter.lengths()).1 == fault,
            fs == spec_fields(msg@).0,
            fault == spec_fields(msg@).1,
            c0 == *old(callbacks),
            forall|cf: T, r: Result<(), T::Err>|
                parse_runs(msg@, fs, fault, i, *callbacks, cf, r) ==> #[trigger] parse_runs(msg@, fs, fault, 0, c0, cf, r),
        decreases iter.message().len() - iter.position(),
    {
        let ghost pos = iter.position();
        let ghost lens = iter.lengths();
        let ghost c = *callbacks;
        proof {
            lemma_field_step_advances(msg@, pos, lens);
        }
        match iter.next() {
            None => {
                proof {
                    assert(fs.skip(i).len() == 0);
                    assert(parse_runs(msg@, fs, fault, i, c, c, Ok::<(), T::Err>(())));
                    assert(parse_runs(msg@, fs, fault, 0, c0, c, Ok::<(), T::Err>(())));
                }
                return Ok(());
            },
            Some(Err(e)) => {
                let r = callbacks.parse_error(e);
                proof {
                    assert(fs.skip(i).len() == 0);
                    let f = field_step(msg@, pos, lens);
                    assert(fault == Some(f));
                    assert(fault_error(f, msg@, e));
                    assert(parse_runs(msg@, fs, fault, i, c, *callbacks, r));
                    assert(parse_runs(msg@, fs, fault, 0, c0, *callbacks, r));
                }
                return r;
            },
            Some(Ok((tag, val))) => {
                proof {
                    assert(fs.skip(i).len() > 0);
                    assert(fs.skip(i)[0] == fs[i]);
                    assert(fs[i] == (tag, val@));
                    assert(fs.skip(i + 1) =~= fs.skip(i).drop_first());
                }
                let cont = if is_header_field(tag) {
                    callbacks.header(tag, val)
                } else if is_trailer_field(tag) {
                    callbacks.trailer(tag, val)
                } else {
                    callbacks.body(tag, val)
                };
                let ghost c2 = *callbacks;
                proof {
                    assert(dispatch_post(c, fs[i], c2, cont));
                }
                match cont {
                    Ok(true) => {
                        proof {
                            assert forall|cf: T, r: Result<(), T::Err>|
                                parse_runs(msg@, fs, fault, i + 1, c2, cf, r) implies #[trigger] parse_runs(msg@, fs, fault, 0, c0, cf, r) by {
                                assert(parse_runs(msg@, fs, fault, i, c, cf, r));
                            }
                            i = i + 1;
                        }
                    },
                    Ok(false) => {
                        proof {
                            assert(parse_runs(msg@, fs, fault, i, c, c2, Ok::<(), T::Err>(())));
                            assert(parse_runs(msg@, fs, fault, 0, c0, c2, Ok::<(), T::Err>(())));
                        }
                        return Ok(());
                    },
                    Err(e) => {
                        proof {
                            assert(parse_runs(msg@, fs, fault, i, c, c2, Err::<(), T::Err>(e)));
                            assert(parse_runs(msg@, fs, fault, 0, c0, c2, Err::<(), T::Err>(e)));
                        }
                        return Err(e);
                    },
                }
            },
        }
    }
}

/// A decimal `u32` as `str::parse` reads it: an optional `+`, then at least one digit.
pub open spec fn spec_parse_u32(s: Seq<u8>) -> Option<u32> {
    let d = if s.len() > 0 && s[0] == 43 {
        s.drop_first()
    } else {
        s
    };
    if d.len() == 0 {
        None
    } else {
        spec_bytes_to_u32(d)
    }
}

/// Relies on `std::str::from_utf8`: it succeeds exactly on the byte strings that are valid
/// UTF-8.
#[verifier::external_body]
fn is_utf8(bytes: &[u8]) -> (r: bool)
    ensures
        r == vstd::utf8::valid_utf8(bytes@),
{
    std::str::from_utf8(bytes).is_ok()
}

/// Bytes below 128 are valid UTF-8, one character each.
pub proof fn lemma_ascii_is_utf8(s: Seq<u8>)
    requires
        forall|i: int| 0 <= i < s.len() ==> #[trigger] s[i] < 128,
    ensures
        vstd::utf8::valid_utf8(s),
    decreases s.len(),
{
    if s.len() > 0 {
        let rest = s.subrange(1, s.len() as int);
        assert(vstd::utf8::pop_first_scalar(s) =~= rest);
        assert forall|i: int| 0 <= i < rest.len() implies #[trigger] rest[i] < 128 by {
            assert(rest[i] == s[i + 1]);
        }
        lemma_ascii_is_utf8(rest);
    }
}

/// Reads a field's value as a decimal `u32` (an optional `+`, then at least one digit), as
/// `str::parse::<u32>` does; a value that is not UTF-8 is a [`DecodeError::Utf8Error`].
pub fn parse_field(field: &[u8]) -> (r: Result<u32, DecodeError>)
    ensures
        !vstd::utf8::valid_utf8(field@) ==> r == Err::<u32, DecodeError>(DecodeError::Utf8Error),
        vstd::utf8::valid_utf8(field@) ==> match spec_parse_u32(field@) {
            Some(n) => r == Ok::<u32, DecodeError>(n),
            None => r matches Err(DecodeError::BadValue(v)) && v@ == field@,
        },
        spec_parse_u32(field@) matches Some(n) ==> r == Ok::<u32, DecodeError>(n),
        spec_parse_u32(field@) is None ==> r is Err,
{
    if !is_utf8(field) {
        proof {
            if spec_parse_u32(field@) is Some {
                assert forall|i: int| 0 <= i < field@.len() implies #[trigger] field@[i] < 128 by {
                    if field@.len() > 0 && field@[0] == 43 {
                        if i > 0 {
                            assert(field@.drop_first()[i - 1] == field@[i]);
                        }
                    }
                }
                lemma_ascii_is_utf8(field@);
            }
        }
        return Err(DecodeError::Utf8Error);
    }
    let digits = if field.len() > 0 && field[0] == 43 {
        proof {
            assert(field@.subrange(1, field@.len() as int) =~= field@.drop_first());
        }
        &field[1..field.len()]
    } else {
        field
    };
    if digits.len() == 0 {
        return Err(DecodeError::BadValue(copy_bytes(field)));
    }
    match bytes_to_u32(digits) {
        Some(n) => Ok(n),
        None => Err(DecodeError::BadValue(copy_bytes(field))),
    }
}

/// `8=FIX.4.2<SOH>9=`, the bytes every message starts with.
pub open spec fn expected_prefix() -> Seq<u8> {
    seq![56u8, 61, 70, 73, 88, 46, 52, 46, 50, 1, 57, 61]
}

/// What the first bytes of a message say about it.
#[derive(Debug, Clone, Copy, PartialEq, Eq, Structural)]
pub struct ParsedPeek {
    /// The MsgType character.
    pub msg_type: char,
    /// The length of the whole message, checksum field included.
    pub msg_length: usize,
    /// Where the BodyLength value starts.
    pub len_start: usize,
    /// Where the SOH after the BodyLength value stands.
    pub len_end: usize,
    /// Where the bytes after the `35=c<SOH>` field start.
    pub fixed_fields_end: usize,
    /// The BodyLength value.
    pub body_length: usize,
}

/// Reads the prefix `8=FIX.4.2<SOH>9=<n><SOH>35=<c><SOH>` of a message: the fault as the kind
/// of garble, or what the prefix says.
pub open spec fn spec_peek(h: Seq<u8>) -> Result<ParsedPeek, GarbledMessageType> {
    if h.len() >= 9 && h[0] == 56 && h[1] == 61 && h.subrange(2, 9) != expected_prefix().subrange(2, 9) {
        Err(GarbledMessageType::BeginStringIssue)
    } else if h.len() < 12 || h.subrange(0, 12) != expected_prefix() {
        Err(GarbledMessageType::Other)
    } else {
        let q = digit_run_end(h, 12);
        let n = decimal(h.subrange(12, q));
        if n > usize::MAX || q >= h.len() || h[q] != 1 {
            Err(GarbledMessageType::BodyLengthIssue)
        } else if !(q + 6 <= h.len() && h[q + 1] == 51 && h[q + 2] == 53 && h[q + 3] == 61 && h[q
            + 5] == 1) {
            Err(GarbledMessageType::MsgTypeIssue)
        } else if n + q + 1 + 7 > usize::MAX {
            Err(GarbledMessageType::BodyLengthIssue)
        } else {
            Ok(
                ParsedPeek {
                    msg_type: h[q + 4] as char,
                    msg_length: (n + q + 1 + 7) as usize,
                    len_start: 12,
                    len_end: q as usize,
                    fixed_fields_end: (q + 6) as usize,
                    body_length: n as usize,
                },
            )
        }
    }
}

/// Reads a run of digits `msg[p..q]` as a number, or `None` when it exceeds `usize::MAX`.
fn read_decimal_usize(msg: &[u8], p: usize, q: usize) -> (r: Option<usize>)
    requires
        p <= q <= msg@.len(),
        all_digits(msg@.subrange(p as int, q as int)),
    ensures
        r == (if decimal(msg@.subrange(p as int, q as int)) <= usize::MAX {
            Some(decimal(msg@.subrange(p as int, q as int)) as usize)
        } else {
            None
        }),
        decimal(msg@.subrange(p as int, q as int)) >= 0,
{
    let mut acc: usize = 0;
    let mut over = false;
    let mut i = p;
    proof {
        assert(msg@.subrange(p as int, p as int) =~= Seq::<u8>::empty());
    }
    while i < q
        invariant
            p <= i <= q <= msg@.len(),
            all_digits(msg@.subrange(p as int, q as int)),
            decimal(msg@.subrange(p as int, i as int)) >= 0,
            !over ==> acc == decimal(msg@.subrange(p as int, i as int)),
            over ==> decimal(msg@.subrange(p as int, i as int)) > usize::MAX,
        decreases q - i,
    {
        let b = msg[i];
        proof {
            assert(msg@.subrange(p as int, i + 1) =~= msg@.subrange(p as int, i as int).push(b));
            lemma_decimal_push(msg@.subrange(p as int, i as int), b);
            assert(msg@.subrange(p as int, q as int)[i - p] == b);
        }
        if !over {
            match acc.checked_mul(10) {
                Some(m) => match m.checked_add((b - 48) as usize) {
                    Some(v) => {
                        acc = v;
                    },
                    None => {
                        over = true;
                    },
                },
                None => {
                    over = true;
                },
            }
        }
        i = i + 1;
    }
    if over {
        None
    } else {
        Some(acc)
    }
}

fn garbled(text: &str, t: GarbledMessageType) -> (r: SessionError)
    ensures
        r matches SessionError::GarbledMessage { text: x, garbled_msg_type: k } && k == t && x@
            == text@,
{
    SessionError::new_garbled_message(text.to_owned(), t)
}

/// Reads the prefix of a message: what it says, or the garble that it shows.
pub fn parse_peeked_prefix(peeked: &[u8]) -> (r: Result<ParsedPeek, SessionError>)
    ensures
        match spec_peek(peeked@) {
            Ok(p) => r == Ok::<ParsedPeek, SessionError>(p),
            Err(t) => r matches Err(SessionError::GarbledMessage { garbled_msg_type, .. })
                && garbled_msg_type == t,
        },
{
    let h = peeked;
    let n = h.len();
    if n >= 9 && h[0] == 56 && h[1] == 61 && !(h[2] == 70 && h[3] == 73 && h[4] == 88 && h[5] == 46
        && h[6] == 52 && h[7] == 46 && h[8] == 50) {
        proof {
            if h@.subrange(2, 9) == expected_prefix().subrange(2, 9) {
                assert(h@.subrange(2, 9)[0] == h@[2]);
                assert(h@.subrange(2, 9)[1] == h@[3]);
                assert(h@.subrange(2, 9)[2] == h@[4]);
                assert(h@.subrange(2, 9)[3] == h@[5]);
                assert(h@.subrange(2, 9)[4] == h@[6]);
                assert(h@.subrange(2, 9)[5] == h@[7]);
                assert(h@.subrange(2, 9)[6] == h@[8]);
            }
        }
        return Err(garbled("Incorrect BeginString", GarbledMessageType::BeginStringIssue));
    }
    proof {
        if n >= 9 && h[0] == 56 && h[1] == 61 {
            assert(h@.subrange(2, 9) =~= expected_prefix().subrange(2, 9));
        }
    }
    if n < 12 || !(h[0] == 56 && h[1] == 61 && h[2] == 70 && h[3] == 73 && h[4] == 88 && h[5] == 46
        && h[6] == 52 && h[7] == 46 && h[8] == 50 && h[9] == 1 && h[10] == 57 && h[11] == 61) {
        proof {
            if n >= 12 && h@.subrange(0, 12) == expected_prefix() {
                assert(h@.subrange(0, 12)[0] == h@[0]);
                assert(h@.subrange(0, 12)[1] == h@[1]);
                assert(h@.subrange(0, 12)[2] == h@[2]);
                assert(h@.subrange(0, 12)[3] == h@[3]);
                assert(h@.subrange(0, 12)[4] == h@[4]);
                assert(h@.subrange(0, 12)[5] == h@[5]);
                assert(h@.subrange(0, 12)[6] == h@[6]);
                assert(h@.subrange(0, 12)[7] == h@[7]);
                assert(h@.subrange(0, 12)[8] == h@[8]);
                assert(h@.subrange(0, 12)[9] == h@[9]);
                assert(h@.subrange(0, 12)[10] == h@[10]);
                assert(h@.subrange(0, 12)[11] == h@[11]);
            }
        }
        return Err(garbled("BeginString not first", GarbledMessageType::Other));
    }
    proof {
        assert(h@.subrange(0, 12) =~= expected_prefix());
    }
    let mut q: usize = 12;
    while q < n && h[q] >= 48 && h[q] <= 57
        invariant
            12 <= q <= n,
            n == h@.len(),
            digit_run_end(h@, 12) == digit_run_end(h@, q as int),
            forall|i: int| 12 <= i < q ==> is_digit(#[trigger] h@[i]),
        decreases n - q,
    {
        q = q + 1;
    }
    proof {
        assert(all_digits(h@.subrange(12, q as int)));
    }
    let body_length = match read_decimal_usize(h, 12, q) {
        Some(v) => v,
        None => {
            return Err(garbled("BodyLength too large", GarbledMessageType::BodyLengthIssue));
        },
    };
    if q >= n {
        return Err(garbled("BodyLength too large", GarbledMessageType::BodyLengthIssue));
    }
    if h[q] != 1 {
        return Err(garbled("Illegal character in BodyLength", GarbledMessageType::BodyLengthIssue));
    }
    let at = q + 1;
    if !(n >= 6 && at <= n - 5 && h[at] == 51 && h[at + 1] == 53 && h[at + 2] == 61 && h[at + 4] == 1) {
        return Err(garbled("Missing MsgType", GarbledMessageType::MsgTypeIssue));
    }
    if at > usize::MAX - 7 || body_length > usize::MAX - 7 - at {
        return Err(garbled("BodyLength too large", GarbledMessageType::BodyLengthIssue));
    }
    Ok(
        ParsedPeek {
            msg_type: h[at + 3] as char,
            msg_length: body_length + at + 7,
            len_start: 12,
            len_end: q,
            fixed_fields_end: at + 5,
            body_length,
        },
    )
}

pub proof fn lemma_decimal_nonneg(s: Seq<u8>)
    requires
        all_digits(s),
    ensures
        decimal(s) >= 0,
    decreases s.len(),
{
    if s.len() > 0 {
        assert(all_digits(s.drop_last())) by {
            assert forall|i: int| 0 <= i < s.drop_last().len() implies is_digit(#[trigger] s.drop_last()[i]) by {
                assert(s.drop_last()[i] == s[i]);
            }
        }
        lemma_decimal_nonneg(s.drop_last());
        assert(is_digit(s[s.len() - 1]));
    }
}

pub proof fn lemma_peek_bounds(h: Seq<u8>)
    ensures
        match spec_peek(h) {
            Ok(p) => p.len_start == 12 && 12 <= p.len_end && p.len_end + 1 <= p.fixed_fields_end
                <= h.len() && p.msg_length == p.body_length + p.len_end + 8,
            Err(_) => true,
        },
{
    if h.len() >= 12 {
        lemma_digit_run_end_bounds(h, 12);
        let q = digit_run_end(h, 12);
        lemma_decimal_nonneg(h.subrange(12, q));
    }
}

/// How many bytes of the message follow the first `header.len()` bytes.
pub open spec fn spec_remaining(header: Seq<u8>) -> Result<int, GarbledMessageType> {
    match spec_peek(header) {
        Ok(p) => if p.msg_length >= header.len() {
            Ok(p.msg_length - header.len())
        } else {
            Err(GarbledMessageType::BodyLengthIssue)
        },
        Err(t) => Err(t),
    }
}

/// Reads the prefix held in `header` and returns how many bytes of the message are still to be
/// read after it.
pub fn parse_header(header: &[u8]) -> (r: Result<usize, SessionError>)
    ensures
        match spec_remaining(header@) {
            Ok(n) => r == Ok::<usize, SessionError>(n as usize),
            Err(t) => r matches Err(SessionError::GarbledMessage { garbled_msg_type, .. })
                && garbled_msg_type == t,
        },
{
    let prefix = parse_peeked_prefix(header)?;
    if prefix.msg_length < header.len() {
        return Err(garbled("BodyLength too small", GarbledMessageType::BodyLengthIssue));
    }
    Ok(prefix.msg_length - header.len())
}

} // verus!
