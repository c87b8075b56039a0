//! The integer side of one headless path-tracing run: command-line options,
//! the scene constants uploaded to the GPU, the initial per-pixel buffers, the
//! dispatch size and the layout of the image read back from the GPU.

use vstd::prelude::*;

use crate::byte_cast::{cast_words_to_bytes, encodes_words};
use crate::gpu_voxel::{packed_words, voxel_buffer_bytes};
use crate::voxel_volume::VoxelVolume;

verus! {

/// Image width used when none is given.
pub const DEFAULT_WIDTH: u32 = 800;

/// Image height used when none is given.
pub const DEFAULT_HEIGHT: u32 = 600;

/// Pixels per side of the square tile that one compute workgroup covers.
pub const WORKGROUP_SIZE: u32 = 8;

/// The value that every pixel's random-number seed is mixed with.
pub const RNG_SEED_MIX: u32 = 0xA2C2_A3E9u32;

/// Command-line options of the runner.
pub struct Args {
    /// output image width
    pub width: u32,
    /// output image height
    pub height: u32,
    /// where to write the rendered PNG
    pub output: Option<String>,
}

/// The file the rendered image goes to when no output path is given.
pub open spec fn default_output_path() -> Seq<char> {
    seq!['s', 'h', 'a', 'p', 'e', 'z', '_', 'g', 'p', 'u', '.', 'p', 'n', 'g']
}

impl Args {
    /// Where the rendered image is written: the given output path, or
    /// `shapez_gpu.png`.
    pub fn output_path(&self) -> (path: String)
        ensures
            path@ == match self.output {
                Some(out) => out@,
                None => default_output_path(),
            },
    {
        match &self.output {
            Some(out) => out.clone(),
            None => {
                let path = "shapez_gpu.png".to_owned();
                proof {
                    reveal_strlit("shapez_gpu.png");
                }
                assert(path@ =~= default_output_path());
                path
            },
        }
    }
}

/// What the render pass needs to know about an uploaded scene besides its
/// buffers: the voxel grid's dimensions and how many materials were uploaded.
#[derive(Clone, Copy, Debug)]
pub struct GpuSceneInfo {
    pub voxel_dims: [u32; 3],
    pub material_count: u32,
}

impl GpuSceneInfo {
    /// The scene's shape for `material_len` uploaded materials. The count is
    /// stored as a `u32`, keeping its low 32 bits.
    pub fn new(voxel_dims: [u32; 3], material_len: usize) -> (info: Self)
        ensures
            info.voxel_dims == voxel_dims,
            info.material_count == material_len as u32,
    {
        GpuSceneInfo { voxel_dims, material_count: material_len as u32 }
    }
}

/// The integer part of uploading a scene: its shape and the bytes of its voxel
/// buffer, every voxel of the volume packed in storage order.
pub fn voxel_upload(volume: &VoxelVolume, material_len: usize) -> (upload: (GpuSceneInfo, Vec<u8>))
    requires
        16 * volume.cells().len() <= usize::MAX,
    ensures
        upload.0.voxel_dims == volume.dims,
        upload.0.material_count == material_len as u32,
        encodes_words(upload.1@, packed_words(volume.cells())),
{
    let bytes = voxel_buffer_bytes(volume.voxels());
    (GpuSceneInfo::new(volume.dims, material_len), bytes)
}

/// The uniform block that every dispatch of the path tracer reads.
#[derive(Clone, Copy, Debug, PartialEq, Eq, Structural)]
pub struct SceneConstants {
    pub image_width: u32,
    pub image_height: u32,
    pub frame_index: u32,
    pub samples_per_dispatch: u32,
    pub voxel_dim_x: u32,
    pub voxel_dim_y: u32,
    pub voxel_dim_z: u32,
    pub material_count: u32,
}

impl SceneConstants {
    /// The block's eight words in field order, as the shader lays them out.
    pub open spec fn words(self) -> Seq<u32> {
        seq![
            self.image_width,
            self.image_height,
            self.frame_index,
            self.samples_per_dispatch,
            self.voxel_dim_x,
            self.voxel_dim_y,
            self.voxel_dim_z,
            self.material_count,
        ]
    }

    /// The bytes uploaded for the block.
    pub fn to_bytes(&self) -> (bytes: Vec<u8>)
        ensures
            encodes_words(bytes@, self.words()),
            encodes_words(
                bytes@,
                seq![
                    self.image_width,
                    self.image_height,
                    self.frame_index,
                    self.samples_per_dispatch,
                    self.voxel_dim_x,
                    self.voxel_dim_y,
                    self.voxel_dim_z,
                    self.material_count,
                ],
            ),
    {
        let words: Vec<u32> = vec![
            self.image_width,
            self.image_height,
            self.frame_index,
            self.samples_per_dispatch,
            self.voxel_dim_x,
            self.voxel_dim_y,
            self.voxel_dim_z,
            self.material_count,
        ];
        assert(words@ =~= self.words());
        cast_words_to_bytes(words.as_slice())
    }
}

/// The scene constants for one dispatch.
pub fn build_scene_constants(
    width: u32,
    height: u32,
    frame_index: u32,
    samples_per_dispatch: u32,
    scene: &GpuSceneInfo,
) -> (constants: SceneConstants)
    ensures
        constants == (SceneConstants {
            image_width: width,
            image_height: height,
            frame_index,
            samples_per_dispatch,
            voxel_dim_x: scene.voxel_dims[0],
            voxel_dim_y: scene.voxel_dims[1],
            voxel_dim_z: scene.voxel_dims[2],
            material_count: scene.material_count,
        }),
{
    SceneConstants {
        image_width: width,
        image_height: height,
        frame_index,
        samples_per_dispatch,
        voxel_dim_x: scene.voxel_dims[0],
        voxel_dim_y: scene.voxel_dims[1],
        voxel_dim_z: scene.voxel_dims[2],
        material_count: scene.material_count,
    }
}

/// Number of pixels of a `width` x `height` image. The product is formed in
/// 32 bits, so it must fit there.
pub fn pixel_count(width: u32, height: u32) -> (count: usize)
    requires
        width * height <= u32::MAX,
    ensures
        count == width * height,
{
    (width * height) as usize
}

/// The seed of pixel `i`'s random-number generator.
pub open spec fn rng_seed(i: int) -> u32 {
    (i as u32) ^ RNG_SEED_MIX
}

/// The initial random-number state of every pixel: pixel `i` starts from
/// `i ^ 0xA2C2A3E9`.
pub fn rng_seeds(pixel_count: usize) -> (seeds: Vec<u32>)
    requires
        pixel_count <= u32::MAX,
    ensures
        seeds@.len() == pixel_count,
        forall|i: int| 0 <= i < pixel_count ==> #[trigger] seeds@[i] == rng_seed(i),
        forall|i: int| 0 <= i < pixel_count ==> #[trigger] seeds@[i] == (i as u32) ^ 0xA2C2_A3E9u32,
{
    let n = pixel_count as u32;
    let mut seeds: Vec<u32> = Vec::new();
    let mut i: u32 = 0;
    while i < n
        invariant
            i <= n,
            n == pixel_count,
            seeds@.len() == i,
            forall|j: int| 0 <= j < i ==> #[trigger] seeds@[j] == rng_seed(j),
        decreases n - i,
    {
        seeds.push(i ^ RNG_SEED_MIX);
        i = i + 1;
    }
    seeds
}

/// The bytes that initialise the per-pixel random-number state buffer.
pub fn rng_seed_bytes(pixel_count: usize) -> (bytes: Vec<u8>)
    requires
        pixel_count <= u32::MAX,
    ensures
        bytes@.len() == 4 * pixel_count,
        encodes_words(bytes@, Seq::new(pixel_count as nat, |i: int| rng_seed(i))),
        encodes_words(bytes@, Seq::new(pixel_count as nat, |i: int| (i as u32) ^ 0xA2C2_A3E9u32)),
{
    let seeds = rng_seeds(pixel_count);
    assert(seeds@ =~= Seq::new(pixel_count as nat, |i: int| rng_seed(i)));
    assert(seeds@ =~= Seq::new(pixel_count as nat, |i: int| (i as u32) ^ 0xA2C2_A3E9u32));
    cast_words_to_bytes(seeds.as_slice())
}

/// The bytes that initialise the per-pixel sample counts: every count is zero.
pub fn sample_count_bytes(pixel_count: usize) -> (bytes: Vec<u8>)
    ensures
        bytes@.len() == 4 * pixel_count,
        forall|k: int| 0 <= k < bytes@.len() ==> #[trigger] bytes@[k] == 0u8,
{
    let mut zeros: Vec<u32> = Vec::new();
    for i in 0..pixel_count
        invariant
            zeros@.len() == i,
            forall|j: int| 0 <= j < i ==> #[trigger] zeros@[j] == 0u32,
    {
        zeros.push(0u32);
    }
    let bytes = cast_words_to_bytes(zeros.as_slice());
    proof {
        crate::byte_cast::lemma_zero_word_bytes();
    }
    assert forall|k: int| 0 <= k < bytes@.len() implies #[trigger] bytes@[k] == 0u8 by {
        let i = k / 4;
        assert(zeros@[i] == 0u32);
        assert(crate::byte_cast::word_bytes(bytes@, i)[k - 4 * i] == bytes@[k]);
    }
    bytes
}

/// Size in bytes of a buffer that holds one `u32` per pixel.
pub fn per_pixel_word_buffer_size(pixel_count: usize) -> (size: u64)
    requires
        4 * pixel_count <= usize::MAX,
    ensures
        size == 4 * pixel_count,
{
    (pixel_count * 4) as u64
}

/// Size in bytes of the read-back buffer: four `f32` channels per pixel.
pub fn readback_buffer_size(pixel_count: usize) -> (size: u64)
    requires
        16 * pixel_count <= usize::MAX,
    ensures
        size == 16 * pixel_count,
{
    (pixel_count * 16) as u64
}

/// Workgroups needed along one image axis of `extent` pixels: the extent
/// divided by the tile size, rounded up, so that every pixel is covered.
pub fn workgroup_count(extent: u32) -> (groups: u32)
    ensures
        groups == (extent + 7) / 8,
        groups * 8 >= extent,
        groups == 0 || (groups - 1) * 8 < extent,
{
    let q = extent / WORKGROUP_SIZE;
    if extent % WORKGROUP_SIZE == 0 {
        q
    } else {
        q + 1
    }
}

/// Bytes per row of the read-back image: four `f32` channels per pixel.
pub fn readback_bytes_per_row(width: u32) -> (bytes: u32)
    requires
        16 * width <= u32::MAX,
    ensures
        bytes == 16 * width,
{
    width * 16
}

/// Index of the first of pixel `(x, y)`'s four channels in the read-back floats.
/// The index is formed in 32 bits, so it must fit there.
pub fn pixel_float_index(x: u32, y: u32, width: u32) -> (index: usize)
    requires
        (y * width + x) * 4 <= u32::MAX,
    ensures
        index == (y * width + x) * 4,
{
    ((y * width + x) * 4) as usize
}

/// Different pixels start from different random-number seeds.
pub proof fn lemma_rng_seeds_distinct(i: u32, j: u32)
    requires
        i != j,
    ensures
        rng_seed(i as int) != rng_seed(j as int),
{
    assert((i as int) as u32 == i);
    assert((j as int) as u32 == j);
    assert(i ^ 0xA2C2_A3E9u32 != j ^ 0xA2C2_A3E9u32) by (bit_vector)
        requires
            i != j,
    ;
}

/// Pixel `i`'s seed is its index with the bits of `0xA2C2A3E9` flipped, so the
/// seed of pixel `i` gives back `i` when mixed again.
pub proof fn lemma_rng_seed_is_index_xor_mix(i: u32)
    ensures
        rng_seed(i as int) == i ^ 0xA2C2_A3E9u32,
        rng_seed(i as int) ^ 0xA2C2_A3E9u32 == i,
{
    assert((i as int) as u32 == i);
    assert((i ^ 0xA2C2_A3E9u32) ^ 0xA2C2_A3E9u32 == i) by (bit_vector);
}

/// Every pixel's four channels lie inside the read-back data of a
/// `width` x `height` image, and two different pixels never share a channel.
pub proof fn lemma_pixel_channels_in_bounds_and_disjoint(
    width: int,
    height: int,
    x1: int,
    y1: int,
    x2: int,
    y2: int,
)
    requires
        0 <= x1 < width,
        0 <= y1 < height,
        0 <= x2 < width,
        0 <= y2 < height,
    ensures
        (y1 * width + x1) * 4 + 4 <= 4 * (width * height),
        (x1 != x2 || y1 != y2) ==> ((y1 * width + x1) * 4 + 4 <= (y2 * width + x2) * 4 || (y2 * width
            + x2) * 4 + 4 <= (y1 * width + x1) * 4),
{
    assert(y1 * width + x1 < width * height) by (nonlinear_arith)
        requires
            0 <= x1 < width,
            0 <= y1 < height,
    ;
    if x1 != x2 || y1 != y2 {
        assert(y1 * width + x1 != y2 * width + x2) by (nonlinear_arith)
            requires
                0 <= x1 < width,
                0 <= x2 < width,
                x1 != x2 || y1 != y2,
        {
            if y1 == y2 {
            } else if y1 < y2 {
                assert(y1 * width + width <= y2 * width);
            } else {
                assert(y2 * width + width <= y1 * width);
            }
        }
    }
}

} // verus!
