//! Indexed-mesh compaction: deduplicating raw vertex streams into a unique
//! vertex list plus an index list referencing it.
//!
//! Comparison is bit-exact equality of the vertex fields.  The compaction
//! keeps the drawn geometry (the index-expanded vertex stream) unchanged,
//! produces a duplicate-free vertex list in order of first reference, and is
//! idempotent.

use vstd::prelude::*;

use crate::vertex::Vertex;

verus! {

/// A mesh in its normalized in-memory shape: a flat vertex list and an
/// index list referencing it.
#[derive(Clone, Debug, PartialEq)]
pub struct MeshData {
    pub vertices: Vec<Vertex>,
    pub indices: Vec<u32>,
}

/// Every index points into the vertex list.
pub open spec fn indices_valid(vs: Seq<Vertex>, ixs: Seq<u32>) -> bool {
    forall|k: int| 0 <= k < ixs.len() ==> (ixs[k] as int) < vs.len()
}

/// The drawn geometry: the vertex stream the index list expands to.
pub open spec fn expand(vs: Seq<Vertex>, ixs: Seq<u32>) -> Seq<Vertex> {
    Seq::new(ixs.len(), |k: int| vs[ixs[k] as int])
}

/// No two entries of the vertex list are equal.
pub open spec fn unique_vertices(vs: Seq<Vertex>) -> bool {
    forall|i: int, j: int| 0 <= i < j < vs.len() ==> vs[i] != vs[j]
}

/// The least index of `v` in `vs` (meaningful only when `vs` contains `v`).
pub open spec fn first_index_of(vs: Seq<Vertex>, v: Vertex) -> int
    decreases vs.len(),
{
    if vs.len() == 0 {
        0
    } else if vs[0] == v {
        0
    } else {
        1 + first_index_of(vs.drop_first(), v)
    }
}

/// When `vs` contains `v`, its first index is in range, hits `v`, and
/// nothing before it equals `v`.
pub proof fn lemma_first_index_of(vs: Seq<Vertex>, v: Vertex)
    requires
        vs.contains(v),
    ensures
        0 <= first_index_of(vs, v) < vs.len(),
        vs[first_index_of(vs, v)] == v,
        forall|j: int| 0 <= j < first_index_of(vs, v) ==> vs[j] != v,
    decreases vs.len(),
{
    if vs[0] == v {
    } else {
        let i = choose|i: int| 0 <= i < vs.len() && vs[i] == v;
        assert(vs.drop_first()[i - 1] == v);
        assert(vs.drop_first().contains(v));
        lemma_first_index_of(vs.drop_first(), v);
        assert forall|j: int| 0 <= j < first_index_of(vs, v) implies vs[j] != v by {
            if j > 0 {
                assert(vs.drop_first()[j - 1] == vs[j]);
            }
        }
    }
}

/// The compaction rule.  Indices are processed in order; a vertex already
/// in the output list is referenced at its first index, a new vertex is
/// appended and referenced at its fresh index.
pub open spec fn spec_dedup(vs: Seq<Vertex>, ixs: Seq<u32>) -> (Seq<Vertex>, Seq<u32>)
    decreases ixs.len(),
{
    if ixs.len() == 0 {
        (Seq::empty(), Seq::empty())
    } else {
        let prev = spec_dedup(vs, ixs.drop_last());
        let v = vs[ixs.last() as int];
        if prev.0.contains(v) {
            (prev.0, prev.1.push(first_index_of(prev.0, v) as u32))
        } else {
            (prev.0.push(v), prev.1.push(prev.0.len() as u32))
        }
    }
}

/// The compaction's output is well formed: as many indices as the input
/// had, all in range, a duplicate-free vertex list no longer than the index
/// list, every output vertex drawn from the input geometry, and the drawn
/// geometry unchanged.
pub proof fn lemma_dedup_well_formed(vs: Seq<Vertex>, ixs: Seq<u32>)
    requires
        ixs.len() <= 0xffff_ffff,
        indices_valid(vs, ixs),
    ensures
        ({
            let (dv, di) = spec_dedup(vs, ixs);
            &&& di.len() == ixs.len()
            &&& dv.len() <= ixs.len()
            &&& indices_valid(dv, di)
            &&& unique_vertices(dv)
            &&& forall|p: int| 0 <= p < dv.len() ==> expand(vs, ixs).contains(dv[p])
            &&& expand(dv, di) == expand(vs, ixs)
        }),
    decreases ixs.len(),
{
    let (dv, di) = spec_dedup(vs, ixs);
    if ixs.len() == 0 {
        assert(expand(dv, di) =~= expand(vs, ixs));
    } else {
        let head = ixs.drop_last();
        let (pv, pi) = spec_dedup(vs, head);
        lemma_dedup_well_formed(vs, head);
        let v = vs[ixs.last() as int];
        assert(expand(vs, ixs)[ixs.len() - 1] == v);
        assert forall|p: int| 0 <= p < pv.len() implies expand(vs, ixs).contains(pv[p]) by {
            let k = choose|k: int| 0 <= k < expand(vs, head).len() && expand(vs, head)[k] == pv[p];
            assert(expand(vs, ixs)[k] == pv[p]);
        }
        if pv.contains(v) {
            lemma_first_index_of(pv, v);
            assert(expand(dv, di) =~= expand(vs, ixs)) by {
                assert forall|k: int| 0 <= k < ixs.len() implies expand(dv, di)[k] == expand(
                    vs,
                    ixs,
                )[k] by {
                    if k < ixs.len() - 1 {
                        assert(expand(pv, pi)[k] == expand(vs, head)[k]);
                    }
                }
            }
        } else {
            assert(unique_vertices(dv)) by {
                assert(forall|i: int| 0 <= i < pv.len() ==> dv[i] == pv[i]);
            }
            assert(indices_valid(dv, di)) by {
                assert(forall|k: int| 0 <= k < pi.len() ==> di[k] == pi[k]);
            }
            assert(expand(dv, di) =~= expand(vs, ixs)) by {
                assert forall|k: int| 0 <= k < ixs.len() implies expand(dv, di)[k] == expand(
                    vs,
                    ixs,
                )[k] by {
                    if k < ixs.len() - 1 {
                        assert(di[k] == pi[k]);
                        assert((pi[k] as int) < pv.len());
                        assert(dv[pi[k] as int] == pv[pi[k] as int]);
                        assert(expand(pv, pi)[k] == expand(vs, head)[k]);
                    } else {
                        assert(dv[pv.len() as int] == v);
                    }
                }
            }
        }
    }
}

/// Extending the vertex source with unreferenced entries does not change
/// the compaction.
proof fn lemma_dedup_source_extension(vs: Seq<Vertex>, x: Vertex, ixs: Seq<u32>)
    requires
        indices_valid(vs, ixs),
    ensures
        spec_dedup(vs.push(x), ixs) == spec_dedup(vs, ixs),
    decreases ixs.len(),
{
    if ixs.len() > 0 {
        lemma_dedup_source_extension(vs, x, ixs.drop_last());
        assert(vs.push(x)[ixs.last() as int] == vs[ixs.last() as int]);
    }
}

/// Compaction is idempotent: compacting a compacted mesh changes nothing.
pub proof fn lemma_dedup_idempotent(vs: Seq<Vertex>, ixs: Seq<u32>)
    requires
        ixs.len() <= 0xffff_ffff,
        indices_valid(vs, ixs),
    ensures
        ({
            let (dv, di) = spec_dedup(vs, ixs);
            spec_dedup(dv, di) == (dv, di)
        }),
    decreases ixs.len(),
{
    if ixs.len() > 0 {
        let head = ixs.drop_last();
        let (pv, pi) = spec_dedup(vs, head);
        lemma_dedup_idempotent(vs, head);
        lemma_dedup_well_formed(vs, head);
        let v = vs[ixs.last() as int];
        let (dv, di) = spec_dedup(vs, ixs);
        if pv.contains(v) {
            lemma_first_index_of(pv, v);
            let f = first_index_of(pv, v);
            assert(di.drop_last() =~= pi);
            assert(di.last() == f as u32);
            assert(dv[di.last() as int] == v);
            assert(spec_dedup(dv, di) == (dv, di));
        } else {
            assert(di.drop_last() =~= pi);
            lemma_dedup_source_extension(pv, v, pi);
            assert(spec_dedup(dv, di.drop_last()) == (pv, pi));
            assert(di.last() == pv.len() as u32);
            assert(dv[di.last() as int] == v);
            assert(spec_dedup(dv, di) == (dv, di));
        }
    }
}

/// The first index in `list` holding `v`, scanning from the front.
fn find_vertex(list: &Vec<Vertex>, v: Vertex) -> (r: Option<usize>)
    ensures
        match r {
            Some(j) => {
                &&& (j as int) < list@.len()
                &&& list@[j as int] == v
                &&& forall|j2: int| 0 <= j2 < j ==> list@[j2] != v
                &&& first_index_of(list@, v) == j as int
            },
            None => !list@.contains(v),
        },
{
    let n = list.len();
    let mut j: usize = 0;
    while j < n
        invariant
            n == list@.len(),
            j <= n,
            forall|j2: int| 0 <= j2 < j ==> list@[j2] != v,
        decreases n - j,
    {
        if list[j] == v {
            proof {
                assert(list@.contains(v));
                lemma_first_index_of(list@, v);
                let f = first_index_of(list@, v);
                assert(f <= j as int);
                assert(f >= j as int);
            }
            return Some(j);
        }
        j = j + 1;
    }
    proof {
        if list@.contains(v) {
            let i = choose|i: int| 0 <= i < list@.len() && list@[i] == v;
            assert(list@[i] != v);
        }
    }
    None
}

/// Deduplicates a raw vertex/index pair into a compact mesh: a
/// duplicate-free vertex list in order of first reference, and an index
/// list that expands to the same geometry as the input.
pub fn dedup_mesh(vertices: &Vec<Vertex>, indices: &Vec<u32>) -> (r: MeshData)
    requires
        indices@.len() <= 0xffff_ffff,
        indices_valid(vertices@, indices@),
    ensures
        (r.vertices@, r.indices@) == spec_dedup(vertices@, indices@),
{
    let n = indices.len();
    let mut out_v: Vec<Vertex> = Vec::new();
    let mut out_i: Vec<u32> = Vec::new();
    let mut k: usize = 0;
    proof {
        assert(indices@.take(0) =~= Seq::<u32>::empty());
    }
    while k < n
        invariant
            n == indices@.len() <= 0xffff_ffff,
            k <= n,
            indices_valid(vertices@, indices@),
            (out_v@, out_i@) == spec_dedup(vertices@, indices@.take(k as int)),
            out_v@.len() <= k,
        decreases n - k,
    {
        let ix = indices[k];
        let v = vertices[ix as usize];
        proof {
            let next = indices@.take(k + 1);
            assert(next.drop_last() =~= indices@.take(k as int));
            assert(next.last() == indices@[k as int]);
        }
        match find_vertex(&out_v, v) {
            Some(j) => {
                out_i.push(j as u32);
            },
            None => {
                let fresh = out_v.len() as u32;
                out_i.push(fresh);
                out_v.push(v);
            },
        }
        k = k + 1;
    }
    proof {
        assert(indices@.take(n as int) =~= indices@);
    }
    MeshData { vertices: out_v, indices: out_i }
}

} // verus!
