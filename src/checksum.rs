//! The FIX checksum: the sum of a message's bytes modulo 256.

use vstd::prelude::*;

verus! {

/// The sum of all bytes of `s`.
pub open spec fn byte_sum(s: Seq<u8>) -> nat
    decreases s.len(),
{
    if s.len() == 0 {
        0
    } else {
        byte_sum(s.drop_last()) + s.last() as nat
    }
}

/// The checksum of `s`: its byte sum modulo 256.
pub open spec fn spec_checksum(s: Seq<u8>) -> nat {
    byte_sum(s) % 256
}

pub open spec fn is_digit(b: u8) -> bool {
    48 <= b <= 57
}

/// The checksum field that closes `msg`, `10=DDD<SOH>` as its last seven bytes, read as a number.
pub open spec fn spec_parse_checksum(msg: Seq<u8>) -> Option<int> {
    let n = msg.len();
    if n >= 7 && msg[n - 7] == 49 && msg[n - 6] == 48 && msg[n - 5] == 61 && is_digit(msg[n - 4])
        && is_digit(msg[n - 3]) && is_digit(msg[n - 2]) && msg[n - 1] == 1 {
        Some(
            (msg[n - 4] - 48) * 100 + (msg[n - 3] - 48) * 10 + (msg[n - 2] - 48),
        )
    } else {
        None
    }
}

/// A message's checksum is valid when its closing checksum field holds the checksum of every
/// byte before that field.
pub open spec fn spec_checksum_is_valid(msg: Seq<u8>) -> bool {
    match spec_parse_checksum(msg) {
        Some(c) => c == spec_checksum(msg.subrange(0, msg.len() - 7)),
        None => false,
    }
}

pub proof fn lemma_byte_sum_push(s: Seq<u8>, b: u8)
    ensures
        byte_sum(s.push(b)) == byte_sum(s) + b,
{
    assert(s.push(b).drop_last() =~= s);
}

pub proof fn lemma_byte_sum_concat(s: Seq<u8>, t: Seq<u8>)
    ensures
        byte_sum(s + t) == byte_sum(s) + byte_sum(t),
    decreases t.len(),
{
    if t.len() == 0 {
        assert(s + t =~= s);
    } else {
        lemma_byte_sum_concat(s, t.drop_last());
        assert((s + t).drop_last() =~= s + t.drop_last());
    }
}

/// Adds `b` to a running checksum `acc`.
fn add_byte(acc: u8, b: u8) -> (r: u8)
    ensures
        r as int == (acc as int + b as int) % 256,
{
    ((acc as u32 + b as u32) % 256) as u8
}

proof fn lemma_mod_step(x: nat, acc: int, b: int)
    requires
        acc == x % 256,
        0 <= b,
    ensures
        (acc + b) % 256 == (x + b) % 256,
{
    vstd::arithmetic::div_mod::lemma_add_mod_noop(x as int, b, 256);
    vstd::arithmetic::div_mod::lemma_mod_twice(b, 256);
    vstd::arithmetic::div_mod::lemma_add_mod_noop(acc, b, 256);
    vstd::arithmetic::div_mod::lemma_mod_twice(x as int, 256);
}

/// The running sum of `bytes` modulo 256, added to `acc`.
fn sum_into(acc: u8, bytes: &[u8]) -> (r: u8)
    ensures
        r as int == (acc as int + byte_sum(bytes@)) % 256,
{
    let mut s: u8 = acc;
    let mut i: usize = 0;
    proof {
        assert(bytes@.subrange(0, 0) =~= Seq::<u8>::empty());
        vstd::arithmetic::div_mod::lemma_small_mod(acc as nat, 256);
    }
    while i < bytes.len()
        invariant
            i <= bytes.len(),
            s as int == (acc as int + byte_sum(bytes@.subrange(0, i as int))) % 256,
        decreases bytes.len() - i,
    {
        let b = bytes[i];
        proof {
            assert(bytes@.subrange(0, i + 1) =~= bytes@.subrange(0, i as int).push(b));
            lemma_byte_sum_push(bytes@.subrange(0, i as int), b);
            lemma_mod_step((acc as int + byte_sum(bytes@.subrange(0, i as int))) as nat, s as int, b as int);
        }
        s = add_byte(s, b);
        i = i + 1;
    }
    proof {
        assert(bytes@.subrange(0, i as int) =~= bytes@);
    }
    s
}

/// The checksum of `bytes`.
pub fn calc_checksum(bytes: &[u8]) -> (r: i32)
    ensures
        r == spec_checksum(bytes@),
{
    sum_into(0, bytes) as i32
}

/// Reads the closing `10=DDD<SOH>` field of `msg_buf`.
pub fn parse_checksum(msg_buf: &[u8]) -> (r: Option<i32>)
    ensures
        r matches Some(c) ==> spec_parse_checksum(msg_buf@) == Some(c as int),
        r is None ==> spec_parse_checksum(msg_buf@) is None,
{
    let n = msg_buf.len();
    if n < 7 {
        return None;
    }
    if msg_buf[n - 7] != 49 || msg_buf[n - 6] != 48 || msg_buf[n - 5] != 61 || msg_buf[n - 1] != 1 {
        return None;
    }
    let d0 = msg_buf[n - 4];
    let d1 = msg_buf[n - 3];
    let d2 = msg_buf[n - 2];
    if d0 < 48 || d0 > 57 || d1 < 48 || d1 > 57 || d2 < 48 || d2 > 57 {
        return None;
    }
    Some((d0 - 48) as i32 * 100 + (d1 - 48) as i32 * 10 + (d2 - 48) as i32)
}

/// Does the checksum of `msg` equal `checksum`?
pub fn checksum_matches(msg: &[u8], checksum: i32) -> (r: bool)
    ensures
        r == (checksum == spec_checksum(msg@)),
{
    checksum == calc_checksum(msg)
}

/// Does the closing checksum field of `msg_buf` hold the checksum of the bytes before it?
pub fn checksum_is_valid(msg_buf: &[u8]) -> (r: bool)
    ensures
        r == spec_checksum_is_valid(msg_buf@),
{
    match parse_checksum(msg_buf) {
        Some(c) => {
            let head = &msg_buf[0..msg_buf.len() - 7];
            checksum_matches(head, c)
        },
        None => false,
    }
}

/// A writer into a byte buffer that keeps the checksum of everything written through it.
pub struct ChecksumWriter {
    sink: Vec<u8>,
    sum: u8,
}

impl ChecksumWriter {
    /// What the buffer holds.
    pub closed spec fn bytes(&self) -> Seq<u8> {
        self.sink@
    }

    /// The running checksum of the bytes written through this writer.
    pub closed spec fn running(&self) -> nat {
        self.sum as nat
    }

    pub fn new(w: Vec<u8>) -> (r: Self)
        ensures
            r.bytes() == w@,
            r.running() == 0,
    {
        ChecksumWriter { sink: w, sum: 0 }
    }

    /// Appends `buf` to the buffer and adds its bytes to the running checksum.
    pub fn write(&mut self, buf: &[u8])
        ensures
            final(self).bytes() == old(self).bytes() + buf@,
            final(self).running() == (old(self).running() + byte_sum(buf@)) % 256,
            old(self).running() == spec_checksum(old(self).bytes()) ==> final(self).running()
                == spec_checksum(final(self).bytes()),
    {
        proof {
            lemma_byte_sum_concat(self.sink@, buf@);
            if self.sum as nat == spec_checksum(self.sink@) {
                lemma_mod_step(byte_sum(self.sink@), self.sum as int, byte_sum(buf@) as int);
            }
        }
        let ghost old_sink = self.sink@;
        let ghost old_sum = self.sum;
        self.sum = sum_into(self.sum, buf);
        self.sink.extend_from_slice(buf);
        proof {
            assert(self.sink@ == old_sink + buf@);
            if old_sum as nat == spec_checksum(old_sink) {
                assert(byte_sum(self.sink@) == byte_sum(old_sink) + byte_sum(buf@));
                assert(self.sum as int == (old_sum as int + byte_sum(buf@)) % 256);
                assert((old_sum as int + byte_sum(buf@)) % 256 == (byte_sum(old_sink) + byte_sum(buf@)) % 256);
            }
        }
    }

    /// The running checksum, below 256.
    pub fn checksum(&self) -> (r: usize)
        ensures
            r == self.running(),
            r < 256,
    {
        self.sum as usize
    }

    pub fn into_inner(self) -> (r: Vec<u8>)
        ensures
            r@ == self.bytes(),
    {
        self.sink
    }
}

} // verus!
