//! A message as the bytes that came off the wire.

use vstd::prelude::*;

verus! {

/// The bytes of one message.
#[derive(Debug, Default)]
pub struct MsgBuf(pub Vec<u8>);

impl MsgBuf {
    pub fn len(&self) -> (r: usize)
        ensures
            r == self.0@.len(),
    {
        self.0.len()
    }

    pub fn as_slice(&self) -> (r: &[u8])
        ensures
            r@ == self.0@,
    {
        self.0.as_slice()
    }
}

impl From<Vec<u8>> for MsgBuf {
    fn from(v: Vec<u8>) -> (r: MsgBuf) {
        MsgBuf(v)
    }
}

impl vstd::std_specs::convert::FromSpecImpl<Vec<u8>> for MsgBuf {
    open spec fn obeys_from_spec() -> bool {
        true
    }

    open spec fn from_spec(v: Vec<u8>) -> MsgBuf {
        MsgBuf(v)
    }
}

} // verus!
