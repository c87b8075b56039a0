//! The GPU layout of a voxel: four `u32` words per voxel.

use vstd::prelude::*;

use crate::byte_cast::{cast_words_to_bytes, encodes_words, lemma_encoded_words_distinct, word_bytes};

verus! {

/// One cell of a voxel volume: its material and, where it has one, the id of the
/// volumetric medium that fills it.
#[derive(Clone, Copy, Debug, PartialEq, Eq, Structural)]
pub struct Voxel {
    pub material: u8,
    pub volumetric_id: Option<u16>,
}

/// A voxel as the path tracer reads it: `[material, volumetric id or u32::MAX, 0, 0]`.
#[derive(Clone, Copy, Debug)]
pub struct GpuVoxel {
    pub data: [u32; 4],
}

/// The word that stands for "no volumetric medium".
pub const NO_VOLUMETRIC: u32 = 0xFFFF_FFFFu32;

/// The volumetric word of a voxel.
pub open spec fn volumetric_word(voxel: Voxel) -> u32 {
    match voxel.volumetric_id {
        Some(id) => id as u32,
        None => NO_VOLUMETRIC,
    }
}

/// The four words the GPU holds for a voxel.
pub open spec fn voxel_words(voxel: Voxel) -> Seq<u32> {
    seq![voxel.material as u32, volumetric_word(voxel), 0u32, 0u32]
}

/// Packs a voxel into its GPU layout.
pub fn voxel_to_gpu(voxel: Voxel) -> (gpu: GpuVoxel)
    ensures
        gpu.data@ == voxel_words(voxel),
        gpu.data[0] == voxel.material as u32,
        gpu.data[1] == match voxel.volumetric_id {
            Some(id) => id as u32,
            None => 0xFFFF_FFFFu32,
        },
        gpu.data[2] == 0,
        gpu.data[3] == 0,
{
    let volumetric: u32 = match voxel.volumetric_id {
        Some(id) => id as u32,
        None => NO_VOLUMETRIC,
    };
    let gpu = GpuVoxel { data: [voxel.material as u32, volumetric, 0, 0] };
    assert(gpu.data@ =~= voxel_words(voxel));
    gpu
}

/// The words of a run of voxels, four per voxel, in order.
pub open spec fn packed_words(voxels: Seq<Voxel>) -> Seq<u32> {
    Seq::new(4 * voxels.len(), |k: int| voxel_words(voxels[k / 4])[k % 4])
}

/// Packs every voxel of a volume, in order.
pub fn voxels_to_gpu(voxels: &[Voxel]) -> (gpu: Vec<GpuVoxel>)
    ensures
        gpu@.len() == voxels@.len(),
        forall|i: int| 0 <= i < voxels@.len() ==> (#[trigger] gpu@[i]).data@ == voxel_words(voxels@[i]),
{
    let mut gpu: Vec<GpuVoxel> = Vec::new();
    for i in 0..voxels.len()
        invariant
            gpu@.len() == i,
            forall|j: int| 0 <= j < i ==> (#[trigger] gpu@[j]).data@ == voxel_words(voxels@[j]),
    {
        gpu.push(voxel_to_gpu(voxels[i]));
    }
    gpu
}

/// The words of packed voxels as they lie in memory: the four words of each voxel
/// one after the other.
pub fn gpu_voxel_words(gpu: &[GpuVoxel]) -> (words: Vec<u32>)
    requires
        4 * gpu@.len() <= usize::MAX,
    ensures
        words@.len() == 4 * gpu@.len(),
        forall|i: int, k: int|
            0 <= i < gpu@.len() && 0 <= k < 4 ==> #[trigger] words@[4 * i + k] == (#[trigger] gpu@[i]).data@[k],
{
    let mut words: Vec<u32> = Vec::new();
    for i in 0..gpu.len()
        invariant
            4 * gpu@.len() <= usize::MAX,
            words@.len() == 4 * i,
            forall|j: int, k: int|
                0 <= j < i && 0 <= k < 4 ==> #[trigger] words@[4 * j + k] == (#[trigger] gpu@[j]).data@[k],
    {
        let data = gpu[i].data;
        words.push(data[0]);
        words.push(data[1]);
        words.push(data[2]);
        words.push(data[3]);
        assert forall|j: int, k: int|
            0 <= j < i + 1 && 0 <= k < 4 implies #[trigger] words@[4 * j + k] == (#[trigger] gpu@[j]).data@[k] by {
            if j == i {
                assert(data@[k] == data[k]);
            }
        }
    }
    words
}

/// The bytes of the voxel buffer: every voxel packed, in order, as it lies in the
/// machine's memory.
pub fn voxel_buffer_bytes(voxels: &[Voxel]) -> (bytes: Vec<u8>)
    requires
        16 * voxels@.len() <= usize::MAX,
    ensures
        encodes_words(bytes@, packed_words(voxels@)),
{
    let gpu = voxels_to_gpu(voxels);
    let words = gpu_voxel_words(&gpu);
    assert(words@ =~= packed_words(voxels@)) by {
        assert forall|k: int| 0 <= k < words@.len() implies #[trigger] words@[k] == packed_words(voxels@)[k] by {
            let i = k / 4;
            let r = k % 4;
            assert(k == 4 * i + r);
            assert(words@[4 * i + r] == gpu@[i].data@[r]);
        }
    }
    cast_words_to_bytes(words.as_slice())
}

/// The packed words of a run of voxels, word by word: voxel `i` occupies words
/// `4i` to `4i + 3`, holding its material, its medium id (or `0xFFFFFFFF` for
/// none), and two zero words.
pub proof fn lemma_packed_words_layout(voxels: Seq<Voxel>, i: int)
    requires
        0 <= i < voxels.len(),
    ensures
        packed_words(voxels).len() == 4 * voxels.len(),
        packed_words(voxels)[4 * i] == voxels[i].material as u32,
        packed_words(voxels)[4 * i + 1] == match voxels[i].volumetric_id {
            Some(id) => id as u32,
            None => 0xFFFF_FFFFu32,
        },
        packed_words(voxels)[4 * i + 2] == 0,
        packed_words(voxels)[4 * i + 3] == 0,
{
    assert((4 * i) / 4 == i && (4 * i) % 4 == 0);
    assert((4 * i + 1) / 4 == i && (4 * i + 1) % 4 == 1);
    assert((4 * i + 2) / 4 == i && (4 * i + 2) % 4 == 2);
    assert((4 * i + 3) / 4 == i && (4 * i + 3) % 4 == 3);
}

/// Two voxels are packed into the same words exactly when they are equal: the
/// "no medium" word never collides with a real medium id.
pub proof fn lemma_voxel_words_injective(a: Voxel, b: Voxel)
    ensures
        voxel_words(a) == voxel_words(b) <==> a == b,
{
    if voxel_words(a) == voxel_words(b) {
        assert(voxel_words(a)[0] == voxel_words(b)[0]);
        assert(voxel_words(a)[1] == voxel_words(b)[1]);
        assert(a.material == b.material);
        assert(a.volumetric_id == b.volumetric_id);
    }
}

/// In the voxel buffer, two voxels have the same sixteen bytes exactly when they
/// are equal.
pub proof fn lemma_voxel_bytes_injective(bytes: Seq<u8>, voxels: Seq<Voxel>, i: int, j: int)
    requires
        encodes_words(bytes, packed_words(voxels)),
        0 <= i < voxels.len(),
        0 <= j < voxels.len(),
    ensures
        voxels[i] == voxels[j] <==> bytes.subrange(16 * i, 16 * i + 16) == bytes.subrange(16 * j, 16 * j + 16),
{
    let w = packed_words(voxels);
    assert forall|k: int| 0 <= k < 4 implies #[trigger] w[4 * i + k] == voxel_words(voxels[i])[k] by {
        assert((4 * i + k) / 4 == i);
        assert((4 * i + k) % 4 == k);
    }
    assert forall|k: int| 0 <= k < 4 implies #[trigger] w[4 * j + k] == voxel_words(voxels[j])[k] by {
        assert((4 * j + k) / 4 == j);
        assert((4 * j + k) % 4 == k);
    }
    let bi = bytes.subrange(16 * i, 16 * i + 16);
    let bj = bytes.subrange(16 * j, 16 * j + 16);
    assert forall|k: int| 0 <= k < 4 implies #[trigger] word_bytes(bi, k) == word_bytes(bytes, 4 * i + k) by {
        assert(word_bytes(bi, k) =~= word_bytes(bytes, 4 * i + k));
    }
    assert forall|k: int| 0 <= k < 4 implies #[trigger] word_bytes(bj, k) == word_bytes(bytes, 4 * j + k) by {
        assert(word_bytes(bj, k) =~= word_bytes(bytes, 4 * j + k));
    }
    lemma_voxel_words_injective(voxels[i], voxels[j]);
    if voxels[i] == voxels[j] {
        assert forall|k: int| 0 <= k < 4 implies #[trigger] word_bytes(bi, k) == word_bytes(bj, k) by {
            assert(w[4 * i + k] == w[4 * j + k]);
            lemma_encoded_words_distinct(bytes, w, 4 * i + k, 4 * j + k);
        }
        assert(bi =~= bj) by {
            assert forall|m: int| 0 <= m < 16 implies bi[m] == bj[m] by {
                let k = m / 4;
                assert(word_bytes(bi, k)[m - 4 * k] == bi[m]);
                assert(word_bytes(bj, k)[m - 4 * k] == bj[m]);
            }
        }
    }
    if bi == bj {
        assert forall|k: int| 0 <= k < 4 implies #[trigger] voxel_words(voxels[i])[k] == voxel_words(voxels[j])[k] by {
            assert(word_bytes(bi, k) == word_bytes(bj, k));
            lemma_encoded_words_distinct(bytes, w, 4 * i + k, 4 * j + k);
            assert(w[4 * i + k] == w[4 * j + k]);
        }
        assert(voxel_words(voxels[i]) =~= voxel_words(voxels[j]));
    }
}

} // verus!
