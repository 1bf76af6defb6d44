use vstd::prelude::*;
use vstd::slice::slice_subrange;
use vstd::bytes::{
    lemma_auto_spec_u32_to_from_le_bytes, spec_u32_from_le_bytes, spec_u32_to_le_bytes,
    u32_from_le_bytes, u32_to_le_bytes,
};

use crate::buffer::SubSliceMut;

verus! {

/// The only header format version this store understands.
pub const HEADER_VERSION: u8 = 0;

/// Size in bytes of the header stored in front of every value.
pub const HEADER_LENGTH: usize = 9;

/// The fixed header prefixed to every stored value: a version byte, then the
/// payload length and the owner's write id, both little-endian.
#[derive(Clone, Copy, Debug, PartialEq, Eq, Structural)]
pub struct KeyHeader {
    pub version: u8,
    pub length: u32,
    pub write_id: u32,
}

/// The header that the first `HEADER_LENGTH` bytes of `s` hold.
pub open spec fn decode_header(s: Seq<u8>) -> KeyHeader
    recommends
        s.len() >= HEADER_LENGTH,
{
    KeyHeader {
        version: s[0],
        length: spec_u32_from_le_bytes(s.subrange(1, 5)),
        write_id: spec_u32_from_le_bytes(s.subrange(5, 9)),
    }
}

/// The `HEADER_LENGTH` bytes that encode `h`.
pub open spec fn encode_header(h: KeyHeader) -> Seq<u8> {
    seq![h.version] + spec_u32_to_le_bytes(h.length) + spec_u32_to_le_bytes(h.write_id)
}

/// Encoding a header and decoding the bytes gives the header back.
pub proof fn lemma_header_round_trip(h: KeyHeader)
    ensures
        encode_header(h).len() == HEADER_LENGTH,
        decode_header(encode_header(h)) == h,
{
    lemma_auto_spec_u32_to_from_le_bytes();
    let s = encode_header(h);
    assert(s.subrange(1, 5) =~= spec_u32_to_le_bytes(h.length));
    assert(s.subrange(5, 9) =~= spec_u32_to_le_bytes(h.write_id));
}

impl KeyHeader {
    /// Reads a header from the front of `buf`.
    pub fn new_from_buf(buf: &[u8]) -> (r: KeyHeader)
        requires
            buf@.len() >= HEADER_LENGTH,
        ensures
            r == decode_header(buf@),
    {
        let length = u32_from_le_bytes(slice_subrange(buf, 1, 5));
        let write_id = u32_from_le_bytes(slice_subrange(buf, 5, 9));
        KeyHeader { version: buf[0], length, write_id }
    }

    /// Writes this header over the first `HEADER_LENGTH` bytes of the active
    /// window of `buf`.
    pub fn copy_to_buf(&self, buf: &mut SubSliceMut)
        requires
            old(buf).wf(),
            old(buf)@.len() >= HEADER_LENGTH,
        ensures
            final(buf).wf(),
            final(buf)@ == encode_header(*self) + old(buf)@.subrange(
                HEADER_LENGTH as int,
                old(buf)@.len() as int,
            ),
            final(buf).window_start() == old(buf).window_start(),
            final(buf).underlying().len() == old(buf).underlying().len(),
            forall|j: int|
                0 <= j < old(buf).underlying().len() && !(old(buf).window_start() <= j
                    < old(buf).window_start() + HEADER_LENGTH) ==> final(buf).underlying()[j]
                    == old(buf).underlying()[j],
    {
        proof {
            old(buf).lemma_window_within();
        }
        let length = u32_to_le_bytes(self.length);
        let write_id = u32_to_le_bytes(self.write_id);
        buf.set(0, self.version);
        let mut i: usize = 0;
        while i < 4
            invariant
                0 <= i <= 4,
                length@ == spec_u32_to_le_bytes(self.length),
                write_id@ == spec_u32_to_le_bytes(self.write_id),
                length@.len() == 4,
                write_id@.len() == 4,
                buf.wf(),
                buf.window_start() == old(buf).window_start(),
                buf.underlying().len() == old(buf).underlying().len(),
                old(buf).window_start() + old(buf)@.len() <= old(buf).underlying().len(),
                0 <= old(buf).window_start(),
                forall|j: int|
                    0 <= j < old(buf).underlying().len() && !(old(buf).window_start() <= j
                        < old(buf).window_start() + HEADER_LENGTH) ==> buf.underlying()[j]
                        == old(buf).underlying()[j],
                buf@.len() == old(buf)@.len(),
                buf@.len() >= HEADER_LENGTH,
                old(buf)@.len() >= HEADER_LENGTH,
                buf@[0] == self.version,
                forall|j: int| 0 <= j < i ==> buf@[1 + j] == length@[j] && buf@[5 + j] == write_id@[j],
                forall|j: int| HEADER_LENGTH <= j < buf@.len() ==> buf@[j] == old(buf)@[j],
                forall|j: int| 1 + i <= j < 5 ==> buf@[j] == old(buf)@[j],
                forall|j: int| 5 + i <= j < 9 ==> buf@[j] == old(buf)@[j],
            decreases 4 - i,
        {
            buf.set(1 + i, length[i]);
            buf.set(5 + i, write_id[i]);
            i = i + 1;
        }
        assert(buf@ =~= encode_header(*self) + old(buf)@.subrange(
            HEADER_LENGTH as int,
            old(buf)@.len() as int,
        ));
    }
}

} // verus!
