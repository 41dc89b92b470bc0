use vstd::prelude::*;

verus! {

/// The `k` low-order bytes of `n`, least significant first.
pub open spec fn le_bytes(n: nat, k: nat) -> Seq<u8>
    decreases k,
{
    if k == 0 {
        seq![]
    } else {
        seq![(n % 256) as u8] + le_bytes(n / 256, (k - 1) as nat)
    }
}

/// A field as it stands in a signed message: its length in eight
/// little-endian bytes, then its bytes.
pub open spec fn frame(s: Seq<u8>) -> Seq<u8> {
    le_bytes(s.len(), 8) + s
}

/// A fresh vector that holds the same bytes as `v`.
pub fn copy_bytes(v: &[u8]) -> (r: Vec<u8>)
    ensures
        r@ == v@,
{
    let mut r: Vec<u8> = Vec::new();
    let mut i: usize = 0;
    while i < v.len()
        invariant
            0 <= i <= v@.len(),
            r@ == v@.subrange(0, i as int),
        decreases v@.len() - i,
    {
        r.push(v[i]);
        i = i + 1;
        assert(r@ =~= v@.subrange(0, i as int));
    }
    assert(r@ =~= v@);
    r
}

/// Whether two byte strings are equal.
pub fn bytes_eq(a: &[u8], b: &[u8]) -> (r: bool)
    ensures
        r == (a@ == b@),
{
    if a.len() != b.len() {
        return false;
    }
    let mut i: usize = 0;
    while i < a.len()
        invariant
            0 <= i <= a@.len(),
            a@.len() == b@.len(),
            forall|j: int| 0 <= j < i ==> a@[j] == b@[j],
        decreases a@.len() - i,
    {
        if a[i] != b[i] {
            return false;
        }
        i = i + 1;
    }
    assert(a@ =~= b@);
    true
}

/// Appends `field` to `out`, framed by its length.
pub fn push_frame(out: &mut Vec<u8>, field: &[u8])
    ensures
        final(out)@ == old(out)@ + frame(field@),
{
    let ghost start = out@;
    let mut v: usize = field.len();
    let mut i: usize = 0;
    while i < 8
        invariant
            0 <= i <= 8,
            out@ + le_bytes(v as nat, (8 - i) as nat) == start + le_bytes(field@.len(), 8),
        decreases 8 - i,
    {
        let ghost before = out@;
        let b: u8 = (v % 256) as u8;
        out.push(b);
        assert(le_bytes(v as nat, (8 - i) as nat) == seq![b] + le_bytes((v / 256) as nat, (8 - i - 1) as nat));
        assert(before + (seq![b] + le_bytes((v / 256) as nat, (8 - i - 1) as nat))
            =~= out@ + le_bytes((v / 256) as nat, (8 - i - 1) as nat));
        v = v / 256;
        i = i + 1;
    }
    assert(le_bytes(v as nat, 0) =~= Seq::<u8>::empty());
    assert(out@ =~= start + le_bytes(field@.len(), 8));
    let ghost mid = out@;
    let mut j: usize = 0;
    while j < field.len()
        invariant
            0 <= j <= field@.len(),
            out@ == mid + field@.subrange(0, j as int),
        decreases field@.len() - j,
    {
        out.push(field[j]);
        j = j + 1;
        assert(out@ =~= mid + field@.subrange(0, j as int));
    }
    assert(field@.subrange(0, field@.len() as int) =~= field@);
    assert(out@ =~= start + frame(field@));
}

} // verus!
