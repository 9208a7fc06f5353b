//! Byte strings: copying, appending, comparing and little-endian encoding.

use vstd::prelude::*;
use crate::table::KeyEq;

verus! {

/// The `k` low-order bytes of `n`, least significant first.
pub open spec fn le_bytes(n: nat, k: nat) -> Seq<u8>
    decreases k,
{
    if k == 0 {
        Seq::empty()
    } else {
        seq![(n % 256) as u8] + le_bytes(n / 256, (k - 1) as nat)
    }
}

pub fn copy_bytes(v: &[u8]) -> (r: Vec<u8>)
    ensures
        r@ == v@,
{
    let mut r: Vec<u8> = Vec::new();
    let mut i: usize = 0;
    while i < v.len()
        invariant
            i <= v@.len(),
            r@ == v@.subrange(0, i as int),
        decreases v@.len() - i,
    {
        r.push(v[i]);
        i = i + 1;
        proof {
            assert(r@ =~= v@.subrange(0, i as int));
        }
    }
    proof {
        assert(v@.subrange(0, v@.len() as int) =~= v@);
    }
    r
}

/// A copy of a vector of plain values.
pub fn copy_vec<T: Copy>(v: &Vec<T>) -> (r: Vec<T>)
    ensures
        r@ == v@,
{
    let mut r: Vec<T> = Vec::new();
    let mut i: usize = 0;
    while i < v.len()
        invariant
            i <= v@.len(),
            r@ == v@.subrange(0, i as int),
        decreases v@.len() - i,
    {
        r.push(v[i]);
        i = i + 1;
        proof {
            assert(r@ =~= v@.subrange(0, i as int));
        }
    }
    proof {
        assert(v@.subrange(0, v@.len() as int) =~= v@);
    }
    r
}

pub fn append_bytes(out: &mut Vec<u8>, bytes: &[u8])
    ensures
        final(out)@ == old(out)@ + bytes@,
{
    let mut i: usize = 0;
    while i < bytes.len()
        invariant
            i <= bytes@.len(),
            out@ == old(out)@ + bytes@.subrange(0, i as int),
        decreases bytes@.len() - i,
    {
        out.push(bytes[i]);
        i = i + 1;
        proof {
            assert(out@ =~= old(out)@ + bytes@.subrange(0, i as int));
        }
    }
    proof {
        assert(bytes@.subrange(0, bytes@.len() as int) =~= bytes@);
    }
}

/// Appends the `width` low-order bytes of `n`, least significant first.
pub fn append_le(out: &mut Vec<u8>, n: u128, width: usize)
    ensures
        final(out)@ == old(out)@ + le_bytes(n as nat, width as nat),
{
    let mut x: u128 = n;
    let mut i: usize = 0;
    while i < width
        invariant
            i <= width,
            out@ + le_bytes(x as nat, (width - i) as nat) == old(out)@ + le_bytes(
                n as nat,
                width as nat,
            ),
        decreases width - i,
    {
        let ghost before = out@;
        out.push((x % 256) as u8);
        proof {
            assert(le_bytes(x as nat, (width - i) as nat) == seq![(x % 256) as u8] + le_bytes(
                (x / 256) as nat,
                (width - i - 1) as nat,
            ));
            assert(out@ + le_bytes((x / 256) as nat, (width - i - 1) as nat) =~= before
                + le_bytes(x as nat, (width - i) as nat));
        }
        x = x / 256;
        i = i + 1;
    }
    proof {
        assert(le_bytes(x as nat, 0) =~= Seq::<u8>::empty());
        assert(out@ + Seq::<u8>::empty() =~= out@);
    }
}

impl KeyEq for Vec<u8> {
    fn key_eq(&self, other: &Self) -> (r: bool) {
        if self.len() != other.len() {
            return false;
        }
        let mut i: usize = 0;
        while i < self.len()
            invariant
                i <= self@.len(),
                self@.len() == other@.len(),
                self@.subrange(0, i as int) == other@.subrange(0, i as int),
            decreases self@.len() - i,
        {
            if self[i] != other[i] {
                proof {
                    assert(self@[i as int] != other@[i as int]);
                }
                return false;
            }
            proof {
                assert(self@.subrange(0, i + 1) =~= self@.subrange(0, i as int).push(self@[i as int]));
                assert(other@.subrange(0, i + 1) =~= other@.subrange(0, i as int).push(
                    other@[i as int],
                ));
            }
            i = i + 1;
        }
        proof {
            assert(self@ =~= self@.subrange(0, i as int));
            assert(other@ =~= other@.subrange(0, i as int));
        }
        true
    }
}

} // verus!
