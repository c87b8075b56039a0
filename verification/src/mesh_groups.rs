//! Splitting a triangle mesh into one vertex list per material, so that each
//! material can be drawn as its own mesh.

use std::collections::BTreeMap;

use vstd::prelude::*;

verus! {

broadcast use {vstd::std_specs::btree::group_btree_axioms, vstd::laws_cmp::group_laws_cmp};

/// Number of complete triangles in an index list; trailing indices that do not
/// make up a whole triangle are ignored.
pub open spec fn triangle_count(indices: Seq<u32>) -> nat {
    indices.len() / 3
}

/// Material of triangle `t`: its entry in the per-face material list, or material
/// 0 where the list is too short.
pub open spec fn triangle_material(face_mats: Seq<u8>, t: int) -> u8 {
    if 0 <= t < face_mats.len() {
        face_mats[t]
    } else {
        0u8
    }
}

/// The three vertex indices of triangle `t`.
pub open spec fn triangle_vertices(indices: Seq<u32>, t: int) -> Seq<u32> {
    indices.subrange(3 * t, 3 * t + 3)
}

/// The vertex indices of the first `n` triangles that have material `m`, three per
/// triangle, in triangle order.
pub open spec fn material_vertices(indices: Seq<u32>, face_mats: Seq<u8>, m: u8, n: nat) -> Seq<u32>
    decreases n,
{
    if n == 0 {
        seq![]
    } else {
        let earlier = material_vertices(indices, face_mats, m, (n - 1) as nat);
        if triangle_material(face_mats, n - 1) == m {
            earlier + triangle_vertices(indices, n - 1)
        } else {
            earlier
        }
    }
}

/// Sum over the materials below `k` of how many vertex indices the first `n`
/// triangles give each of them.
pub open spec fn material_len_sum(indices: Seq<u32>, face_mats: Seq<u8>, n: nat, k: nat) -> nat
    decreases k,
{
    if k == 0 {
        0
    } else {
        material_len_sum(indices, face_mats, n, (k - 1) as nat) + material_vertices(
            indices,
            face_mats,
            (k - 1) as u8,
            n,
        ).len()
    }
}

/// Sum over the materials below `k` of how many vertex indices triangle `t` alone
/// gives each of them: 3 when its material is below `k`, else 0.
proof fn lemma_one_triangle_sum(face_mats: Seq<u8>, t: int, k: nat)
    requires
        k <= 256,
    ensures
        (if (triangle_material(face_mats, t) as int) < k { 3int } else { 0int }) == one_triangle_sum(
            face_mats,
            t,
            k,
        ),
    decreases k,
{
    if k > 0 {
        lemma_one_triangle_sum(face_mats, t, (k - 1) as nat);
    }
}

spec fn one_triangle_sum(face_mats: Seq<u8>, t: int, k: nat) -> int
    decreases k,
{
    if k == 0 {
        0
    } else {
        one_triangle_sum(face_mats, t, (k - 1) as nat) + if triangle_material(face_mats, t) == (k
            - 1) as u8 {
            3int
        } else {
            0int
        }
    }
}

proof fn lemma_len_sum_step(indices: Seq<u32>, face_mats: Seq<u8>, n: nat, k: nat)
    requires
        k <= 256,
        3 * (n + 1) <= indices.len(),
    ensures
        material_len_sum(indices, face_mats, n + 1, k) == material_len_sum(indices, face_mats, n, k)
            + one_triangle_sum(face_mats, n as int, k),
    decreases k,
{
    if k > 0 {
        lemma_len_sum_step(indices, face_mats, n, (k - 1) as nat);
        let m = (k - 1) as u8;
        assert(material_vertices(indices, face_mats, m, n + 1) == (if triangle_material(
            face_mats,
            n as int,
        ) == m {
            material_vertices(indices, face_mats, m, n) + triangle_vertices(indices, n as int)
        } else {
            material_vertices(indices, face_mats, m, n)
        }));
    }
}

/// A material's vertex list is made of the mesh's own indices, unchanged: it
/// lists, in increasing triangle order, exactly the triangles `t` (among the
/// first `n`) whose material entry is `m` (material 0 where the per-face list is
/// too short), and for each the three indices `indices[3t]`, `indices[3t + 1]`,
/// `indices[3t + 2]`. The returned sequence names those triangles.
pub proof fn lemma_group_lists_input_triangles(indices: Seq<u32>, face_mats: Seq<u8>, m: u8, n: nat) -> (tris: Seq<int>)
    requires
        3 * n <= indices.len(),
    ensures
        material_vertices(indices, face_mats, m, n).len() == 3 * tris.len(),
        forall|j: int|
            0 <= j < tris.len() ==> material_vertices(indices, face_mats, m, n)[3 * j] == indices[3
                * #[trigger] tris[j]],
        forall|j: int|
            0 <= j < tris.len() ==> material_vertices(indices, face_mats, m, n)[3 * j + 1] == indices[3
                * #[trigger] tris[j] + 1],
        forall|j: int|
            0 <= j < tris.len() ==> material_vertices(indices, face_mats, m, n)[3 * j + 2] == indices[3
                * #[trigger] tris[j] + 2],
        forall|j: int|
            0 <= j < tris.len() ==> 0 <= #[trigger] tris[j] < n && (if tris[j] < face_mats.len() {
                face_mats[tris[j]]
            } else {
                0u8
            }) == m,
        forall|j1: int, j2: int| 0 <= j1 < j2 < tris.len() ==> #[trigger] tris[j1] < #[trigger] tris[j2],
        forall|t: int|
            0 <= t < n && (if t < face_mats.len() {
                face_mats[t]
            } else {
                0u8
            }) == m ==> #[trigger] tris.contains(t),
    decreases n,
{
    if n == 0 {
        Seq::<int>::empty()
    } else {
        let p = (n - 1) as nat;
        let prev = lemma_group_lists_input_triangles(indices, face_mats, m, p);
        let before = material_vertices(indices, face_mats, m, p);
        let t = n - 1;
        let hit = (if t < face_mats.len() { face_mats[t] } else { 0u8 }) == m;
        if hit {
            let tris = prev.push(t);
            let now = material_vertices(indices, face_mats, m, n);
            assert(now == before + triangle_vertices(indices, t));
            assert forall|j: int| 0 <= j < tris.len() implies now[3 * j] == indices[3 * #[trigger] tris[j]]
                && now[3 * j + 1] == indices[3 * tris[j] + 1] && now[3 * j + 2] == indices[3 * tris[j] + 2] by {
                if j < prev.len() {
                    assert(tris[j] == prev[j]);
                } else {
                    assert(tris[j] == t);
                }
            }
            assert forall|u: int|
                0 <= u < n && (if u < face_mats.len() {
                    face_mats[u]
                } else {
                    0u8
                }) == m implies #[trigger] tris.contains(u) by {
                if u < t {
                    assert(prev.contains(u));
                    let j = choose|j: int| 0 <= j < prev.len() && prev[j] == u;
                    assert(tris[j] == u);
                } else {
                    assert(tris[tris.len() - 1] == u);
                }
            }
            assert forall|j: int| 0 <= j < tris.len() implies 0 <= #[trigger] tris[j] < n && (if tris[j]
                < face_mats.len() {
                face_mats[tris[j]]
            } else {
                0u8
            }) == m by {
                if j < prev.len() {
                    assert(tris[j] == prev[j]);
                }
            }
            assert forall|j1: int, j2: int| 0 <= j1 < j2 < tris.len() implies #[trigger] tris[j1]
                < #[trigger] tris[j2] by {
                assert(tris[j1] == prev[j1]);
                if j2 < prev.len() {
                    assert(tris[j2] == prev[j2]);
                }
            }
            tris
        } else {
            assert(material_vertices(indices, face_mats, m, n) == before);
            assert forall|u: int|
                0 <= u < n && (if u < face_mats.len() {
                    face_mats[u]
                } else {
                    0u8
                }) == m implies #[trigger] prev.contains(u) by {
                assert(u != t);
            }
            prev
        }
    }
}

/// Every complete triangle lands in exactly one material: over all 256 materials
/// the vertex lists of the first `n` triangles hold `3 * n` indices in all.
pub proof fn lemma_materials_partition_triangles(indices: Seq<u32>, face_mats: Seq<u8>, n: nat)
    requires
        3 * n <= indices.len(),
    ensures
        material_len_sum(indices, face_mats, n, 256) == 3 * n,
    decreases n,
{
    if n == 0 {
        lemma_len_sum_zero(indices, face_mats, 256);
    } else {
        let p = (n - 1) as nat;
        lemma_materials_partition_triangles(indices, face_mats, p);
        lemma_len_sum_step(indices, face_mats, p, 256);
        lemma_one_triangle_sum(face_mats, p as int, 256);
    }
}

proof fn lemma_len_sum_zero(indices: Seq<u32>, face_mats: Seq<u8>, k: nat)
    ensures
        material_len_sum(indices, face_mats, 0, k) == 0,
    decreases k,
{
    if k > 0 {
        lemma_len_sum_zero(indices, face_mats, (k - 1) as nat);
    }
}

/// A trailing partial triangle and per-face materials beyond the last complete
/// triangle play no part: the vertex lists are those of the mesh cut down to its
/// complete triangles and their material entries.
pub proof fn lemma_trailing_data_ignored(indices: Seq<u32>, face_mats: Seq<u8>, m: u8)
    ensures
        material_vertices(indices, face_mats, m, triangle_count(indices)) == material_vertices(
            indices.take(3 * triangle_count(indices) as int),
            face_mats.take(
                if face_mats.len() < triangle_count(indices) {
                    face_mats.len() as int
                } else {
                    triangle_count(indices) as int
                },
            ),
            m,
            triangle_count(indices.take(3 * triangle_count(indices) as int)),
        ),
{
    let n = triangle_count(indices);
    let cut = indices.take(3 * n as int);
    let mats = face_mats.take(if face_mats.len() < n { face_mats.len() as int } else { n as int });
    assert(triangle_count(cut) == n);
    lemma_prefix_agrees(indices, face_mats, cut, mats, m, n);
}

proof fn lemma_prefix_agrees(
    indices: Seq<u32>,
    face_mats: Seq<u8>,
    cut: Seq<u32>,
    mats: Seq<u8>,
    m: u8,
    k: nat,
)
    requires
        k <= triangle_count(indices),
        cut == indices.take(3 * triangle_count(indices) as int),
        mats == face_mats.take(
            if face_mats.len() < triangle_count(indices) {
                face_mats.len() as int
            } else {
                triangle_count(indices) as int
            },
        ),
    ensures
        material_vertices(indices, face_mats, m, k) == material_vertices(cut, mats, m, k),
    decreases k,
{
    if k > 0 {
        let t = k - 1;
        lemma_prefix_agrees(indices, face_mats, cut, mats, m, (k - 1) as nat);
        assert(triangle_material(face_mats, t) == triangle_material(mats, t));
        assert(triangle_vertices(indices, t) =~= triangle_vertices(cut, t));
    }
}

/// Splits a mesh's complete triangles by material: the map has a key for each
/// material that at least one triangle has, and holds for it that material's
/// triangles' vertex indices, three per triangle, in mesh order.
pub fn group_triangles_by_material(indices: &[u32], face_mats: &[u8]) -> (groups: BTreeMap<u8, Vec<u32>>)
    ensures
        forall|m: u8|
            #[trigger] groups@.contains_key(m) <==> material_vertices(
                indices@,
                face_mats@,
                m,
                triangle_count(indices@),
            ).len() > 0,
        forall|m: u8|
            #[trigger] groups@.contains_key(m) ==> groups@[m]@ == material_vertices(
                indices@,
                face_mats@,
                m,
                triangle_count(indices@),
            ),
{
    let tri = indices.len() / 3;
    let mut groups: BTreeMap<u8, Vec<u32>> = BTreeMap::new();
    let mut t: usize = 0;
    while t < tri
        invariant
            t <= tri,
            tri == triangle_count(indices@),
            3 * tri <= indices.len(),
            forall|m: u8|
                #[trigger] groups@.contains_key(m) <==> material_vertices(
                    indices@,
                    face_mats@,
                    m,
                    t as nat,
                ).len() > 0,
            forall|m: u8|
                #[trigger] groups@.contains_key(m) ==> groups@[m]@ == material_vertices(
                    indices@,
                    face_mats@,
                    m,
                    t as nat,
                ),
        decreases tri - t,
    {
        let mat: u8 = if t < face_mats.len() {
            face_mats[t]
        } else {
            0
        };
        let b = 3 * t;
        let ghost before = groups@;
        let mut list: Vec<u32> = match groups.remove(&mat) {
            Some(list) => list,
            None => Vec::new(),
        };
        assert(list@ == material_vertices(indices@, face_mats@, mat, t as nat));
        list.push(indices[b]);
        list.push(indices[b + 1]);
        list.push(indices[b + 2]);
        groups.insert(mat, list);
        assert(triangle_material(face_mats@, t as int) == mat);
        assert(triangle_vertices(indices@, t as int) =~= seq![
            indices@[3 * t],
            indices@[3 * t + 1],
            indices@[3 * t + 2],
        ]);
        assert forall|m: u8|
            #[trigger] groups@.contains_key(m) implies groups@[m]@ == material_vertices(
            indices@,
            face_mats@,
            m,
            (t + 1) as nat,
        ) by {
            if m == mat {
                assert(groups@[m]@ =~= material_vertices(indices@, face_mats@, m, t as nat)
                    + triangle_vertices(indices@, t as int));
            } else {
                assert(groups@[m] == before[m]);
            }
        }
        assert forall|m: u8|
            material_vertices(indices@, face_mats@, m, (t + 1) as nat).len() > 0 implies #[trigger] groups@.contains_key(
            m,
        ) by {
            if m != mat {
                assert(material_vertices(indices@, face_mats@, m, (t + 1) as nat) == material_vertices(
                    indices@,
                    face_mats@,
                    m,
                    t as nat,
                ));
                assert(before.contains_key(m));
            }
        }
        t = t + 1;
    }
    groups
}

} // verus!
