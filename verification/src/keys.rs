//! 32-byte ledger identities. Every account, mint, and program that the
//! engine speaks about is named by such a key; the engine never interprets
//! the bytes, it only stores and compares them.

use vstd::prelude::*;

verus! {

/// A 32-byte identity on the external ledger: an account address, an asset
/// mint, or a program.
#[derive(Clone, Copy, Debug)]
pub struct Key {
    pub bytes: [u8; 32],
}

impl View for Key {
    type V = Seq<u8>;

    open spec fn view(&self) -> Seq<u8> {
        self.bytes@
    }
}

impl Key {
    pub fn new(bytes: [u8; 32]) -> (r: Key)
        ensures
            r@ == bytes@,
    {
        Key { bytes }
    }
}

impl PartialEq for Key {
    fn eq(&self, other: &Key) -> (r: bool) {
        let mut i: usize = 0;
        while i < 32
            invariant
                i <= 32,
                forall|j: int| 0 <= j < i ==> #[trigger] self.bytes@[j] == other.bytes@[j],
            decreases 32 - i,
        {
            if self.bytes[i] != other.bytes[i] {
                return false;
            }
            i = i + 1;
        }
        proof {
            assert(self.bytes@ =~= other.bytes@);
        }
        true
    }
}

impl vstd::std_specs::cmp::PartialEqSpecImpl for Key {
    open spec fn obeys_eq_spec() -> bool {
        true
    }

    open spec fn eq_spec(&self, other: &Key) -> bool {
        self.bytes@ == other.bytes@
    }
}

/// Two keys with the same bytes are the same key.
pub proof fn lemma_key_view_eq(k1: Key, k2: Key)
    requires
        k1@ == k2@,
    ensures
        k1 == k2,
{
    broadcast use vstd::array::group_array_axioms;

    assert forall|i: int| 0 <= i < 32 implies k1.bytes[i] == k2.bytes[i] by {
        assert(k1.bytes@[i] == k2.bytes@[i]);
    }
    assert(k1.bytes =~= k2.bytes);
}

/// Reads the 32-byte key at `off`.
pub fn read_key(src: &[u8], off: usize) -> (r: Key)
    requires
        off + 32 <= src@.len(),
    ensures
        r@ == src@.subrange(off as int, off as int + 32),
{
    let len = src.len();
    let mut arr = [0u8; 32];
    let mut i: usize = 0;
    while i < 32
        invariant
            off + 32 <= len == src@.len(),
            i <= 32,
            forall|j: int| 0 <= j < i ==> #[trigger] arr@[j] == src@[off + j],
        decreases 32 - i,
    {
        arr[i] = src[off + i];
        i = i + 1;
    }
    let k = Key { bytes: arr };
    proof {
        assert(k@ =~= src@.subrange(off as int, off as int + 32));
    }
    k
}

/// Appends the 32 bytes of `k`.
pub fn write_key(dst: &mut Vec<u8>, k: &Key)
    ensures
        final(dst)@ == old(dst)@ + k@,
{
    let mut i: usize = 0;
    while i < 32
        invariant
            i <= 32,
            dst@ == old(dst)@ + k@.subrange(0, i as int),
        decreases 32 - i,
    {
        dst.push(k.bytes[i]);
        proof {
            assert(dst@ =~= old(dst)@ + k@.subrange(0, (i + 1) as int));
        }
        i = i + 1;
    }
    proof {
        assert(k@.subrange(0, 32) =~= k@);
    }
}

} // verus!
