//! The index data shared by every batch that draws quads.
//!
//! A quad takes four consecutive vertices and is drawn as two triangles, so
//! quad `i` is indexed by the fixed pattern `0, 1, 2, 0, 2, 3` moved up by
//! `4 * i`. Indices are 16 bits wide: from quad 16384 on the stored value is
//! the low 16 bits of that sum.

use vstd::prelude::*;

verus! {

/// Number of indices that draw one quad.
pub const INDICES_PER_QUAD: usize = 6;

/// Number of vertices that one quad takes.
pub const VERTICES_PER_QUAD: usize = 4;

/// First quad whose indices no longer fit in 16 bits.
pub const EXACT_QUADS: usize = 16384;

/// The index pattern of a single quad: `0, 1, 2, 0, 2, 3`.
pub open spec fn quad_pattern(k: int) -> int {
    if k == 0 {
        0
    } else if k == 1 {
        1
    } else if k == 2 {
        2
    } else if k == 3 {
        0
    } else if k == 4 {
        2
    } else {
        3
    }
}

/// The value at position `j` of the index data: the pattern entry of that
/// position, moved up by four vertices per preceding quad, in 16 bits.
pub open spec fn index_value(j: int) -> int {
    (quad_pattern(j % 6) + 4 * (j / 6)) % 0x10000
}

/// The index data for `quads` quads.
pub open spec fn quad_indices(quads: nat) -> Seq<u16> {
    Seq::new(6 * quads, |j: int| index_value(j) as u16)
}

/// The pattern entry `k` as a machine value.
fn pattern_entry(k: usize) -> (r: u16)
    requires
        k < 6,
    ensures
        r == quad_pattern(k as int),
{
    if k == 0 {
        0
    } else if k == 1 {
        1
    } else if k == 2 {
        2
    } else if k == 3 {
        0
    } else if k == 4 {
        2
    } else {
        3
    }
}

/// The low 16 bits of four times a quad's position.
fn vertex_base(quad: usize) -> (r: u16)
    requires
        quad <= usize::MAX / 6,
    ensures
        r == (4 * quad) % 0x10000,
        r <= 0xfffc,
{
    let low: usize = quad % 16384;
    assert(low * 4 == (4 * quad) % 0x10000) by (nonlinear_arith)
        requires
            low == quad % 16384,
    ;
    (low * 4) as u16
}

/// A grow-only buffer of quad indices.
pub struct QuadIndexBuffer {
    indices: Vec<u16>,
}

impl QuadIndexBuffer {
    #[verifier::type_invariant]
    spec fn wf(self) -> bool {
        exists|quads: nat| self.indices@ == quad_indices(quads)
    }

    /// The index data held at present.
    pub closed spec fn view(&self) -> Seq<u16> {
        self.indices@
    }

    /// Number of quads that the buffer can index.
    pub open spec fn capacity(&self) -> nat {
        (self@.len() / 6) as nat
    }

    /// An empty buffer, which indexes no quad.
    pub fn new() -> (r: Self)
        ensures
            r@ == Seq::<u16>::empty(),
            r.capacity() == 0,
    {
        let indices: Vec<u16> = Vec::new();
        assert(indices@ == quad_indices(0));
        QuadIndexBuffer { indices }
    }

    /// Number of quads that the buffer can index.
    pub fn quads(&self) -> (r: usize)
        ensures
            r == self.capacity(),
            self@ == quad_indices(r as nat),
    {
        proof {
            use_type_invariant(self);
        }
        self.indices.len() / INDICES_PER_QUAD
    }

    /// The index data as a slice, ready to be uploaded.
    pub fn indices(&self) -> (r: &[u16])
        ensures
            r@ == self@,
    {
        self.indices.as_slice()
    }

    /// The index data for `quads` quads, built from scratch.
    pub fn generate_array(quads: usize) -> (v: Vec<u16>)
        requires
            quads <= usize::MAX / 6,
        ensures
            v@ == quad_indices(quads as nat),
    {
        let mut v: Vec<u16> = Vec::with_capacity(quads * INDICES_PER_QUAD);
        let mut quad: usize = 0;
        while quad < quads
            invariant
                quad <= quads <= usize::MAX / 6,
                v@ == quad_indices(quad as nat),
            decreases quads - quad,
        {
            let base: u16 = vertex_base(quad);
            let mut k: usize = 0;
            while k < INDICES_PER_QUAD
                invariant
                    k <= 6,
                    quad < quads <= usize::MAX / 6,
                    base == (4 * quad) % 0x10000,
                    base <= 0xfffc,
                    v@.len() == 6 * quad + k,
                    forall|j: int| 0 <= j < v@.len() ==> v@[j] == index_value(j) as u16,
                decreases 6 - k,
            {
                let entry: u16 = pattern_entry(k);
                proof {
                    let j: int = 6 * quad + k;
                    assert(j % 6 == k && j / 6 == quad) by (nonlinear_arith)
                        requires
                            j == 6 * quad + k,
                            0 <= k < 6,
                            0 <= quad,
                    ;
                    assert(index_value(j) == entry + base) by (nonlinear_arith)
                        requires
                            index_value(j) == (entry + 4 * quad) % 0x10000,
                            base == (4 * quad) % 0x10000,
                            0 <= entry <= 3,
                            base <= 0xfffc,
                    ;
                }
                v.push(entry + base);
                k = k + 1;
            }
            quad = quad + 1;
            assert(v@ =~= quad_indices(quad as nat));
        }
        v
    }

    /// Makes sure that the buffer can index `new_quad_count` quads. Where it
    /// already can, nothing changes; else the index data is built anew for
    /// exactly that many quads. Returns whether it was rebuilt, which is when
    /// the data has to be uploaded again.
    pub fn ensure_quads(&mut self, new_quad_count: usize) -> (rebuilt: bool)
        requires
            new_quad_count <= usize::MAX / 6,
        ensures
            rebuilt == (old(self).capacity() < new_quad_count),
            rebuilt ==> final(self)@ == quad_indices(new_quad_count as nat),
            !rebuilt ==> final(self)@ == old(self)@,
            final(self).capacity() >= new_quad_count,
            final(self).capacity() >= old(self).capacity(),
            final(self).capacity() == if rebuilt { new_quad_count as nat } else { old(self).capacity() },
            old(self)@.is_prefix_of(final(self)@),
    {
        let held: usize = self.quads();
        if new_quad_count <= held {
            return false;
        }
        let indices = Self::generate_array(new_quad_count);
        proof {
            lemma_indices_grow(held as nat, new_quad_count as nat);
        }
        self.indices = indices;
        true
    }
}

/// Index identity: position `6 * i + k` of the index data holds the pattern
/// entry `k` moved up by `4 * i`, for every quad whose indices fit in 16 bits.
pub proof fn lemma_index_identity(quads: nat, i: int, k: int)
    requires
        0 <= i < quads,
        i < EXACT_QUADS,
        0 <= k < 6,
    ensures
        0 <= 6 * i + k < quad_indices(quads).len(),
        quad_indices(quads)[6 * i + k] == quad_pattern(k) + 4 * i,
{
    let j: int = 6 * i + k;
    assert(j % 6 == k && j / 6 == i) by (nonlinear_arith)
        requires
            j == 6 * i + k,
            0 <= k < 6,
            0 <= i,
    ;
}

/// The index data depends on the position alone: the data for fewer quads is
/// the beginning of the data for more quads, so what a smaller buffer could
/// draw a larger one draws alike.
pub proof fn lemma_indices_grow(fewer: nat, more: nat)
    requires
        fewer <= more,
    ensures
        quad_indices(fewer).is_prefix_of(quad_indices(more)),
        quad_indices(more).subrange(0, (6 * fewer) as int) == quad_indices(fewer),
{
    assert(quad_indices(more).subrange(0, (6 * fewer) as int) =~= quad_indices(fewer));
}

/// Capacity never shrinks and always covers the request: whatever the buffer
/// held before, after a request for `n` quads it holds the data of at least
/// `n` quads and of at least as many as before, the old data unchanged at its
/// beginning.
pub proof fn lemma_capacity_monotonic(before: nat, n: nat)
    ensures
        ({
            let after = if before < n { n } else { before };
            &&& after >= n
            &&& after >= before
            &&& quad_indices(before).is_prefix_of(quad_indices(after))
        }),
{
    let after = if before < n { n } else { before };
    lemma_indices_grow(before, after);
}

} // verus!
