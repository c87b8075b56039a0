use shapez::gpu_voxel::{gpu_voxel_words, voxel_buffer_bytes, voxels_to_gpu, NO_VOLUMETRIC};
use shapez::render_setup::{
    build_scene_constants, per_pixel_word_buffer_size, pixel_count, pixel_float_index,
    readback_buffer_size, readback_bytes_per_row, rng_seed_bytes, rng_seeds, sample_count_bytes,
    voxel_upload, workgroup_count, GpuSceneInfo, DEFAULT_HEIGHT, DEFAULT_WIDTH, RNG_SEED_MIX,
};
use shapez::voxel_volume::VoxelVolume;
use shapez::{voxel_to_gpu, Args, Voxel};

fn ne_bytes(words: &[u32]) -> Vec<u8> {
    words.iter().flat_map(|w| w.to_ne_bytes()).collect()
}

#[test]
fn voxel_without_medium_packs_sentinel() {
    let g = voxel_to_gpu(Voxel { material: 0, volumetric_id: None });
    assert_eq!(g.data, [0, u32::MAX, 0, 0]);
    assert_eq!(NO_VOLUMETRIC, u32::MAX);
}

#[test]
fn voxel_with_medium_packs_its_id() {
    let g = voxel_to_gpu(Voxel { material: 7, volumetric_id: Some(65535) });
    assert_eq!(g.data, [7, 65535, 0, 0]);
    let g = voxel_to_gpu(Voxel { material: 255, volumetric_id: Some(0) });
    assert_eq!(g.data, [255, 0, 0, 0]);
}

#[test]
fn voxel_packing_keeps_order_and_layout() {
    let voxels = [
        Voxel { material: 1, volumetric_id: None },
        Voxel { material: 2, volumetric_id: Some(9) },
    ];
    let gpu = voxels_to_gpu(&voxels);
    assert_eq!(gpu.len(), 2);
    assert_eq!(gpu[0].data, [1, u32::MAX, 0, 0]);
    assert_eq!(gpu[1].data, [2, 9, 0, 0]);
    let words = gpu_voxel_words(&gpu);
    assert_eq!(words, vec![1, u32::MAX, 0, 0, 2, 9, 0, 0]);
    let bytes = voxel_buffer_bytes(&voxels);
    assert_eq!(bytes, ne_bytes(&words));
}

#[test]
fn distinct_voxels_get_distinct_bytes() {
    // A medium id can never be confused with "no medium".
    let voxels = [
        Voxel { material: 4, volumetric_id: None },
        Voxel { material: 4, volumetric_id: Some(u16::MAX) },
        Voxel { material: 4, volumetric_id: None },
    ];
    let bytes = voxel_buffer_bytes(&voxels);
    assert_eq!(bytes.len(), 48);
    assert_ne!(bytes[0..16], bytes[16..32]);
    assert_eq!(bytes[0..16], bytes[32..48]);
}

#[test]
fn empty_voxel_list_gives_no_bytes() {
    assert!(voxel_buffer_bytes(&[]).is_empty());
}

#[test]
fn output_path_defaults_to_png_name() {
    let args = Args { width: DEFAULT_WIDTH, height: DEFAULT_HEIGHT, output: None };
    assert_eq!(args.output_path(), "shapez_gpu.png");
    assert_eq!((DEFAULT_WIDTH, DEFAULT_HEIGHT), (800, 600));
    let args = Args { width: 1, height: 1, output: Some("out/render.png".to_string()) };
    assert_eq!(args.output_path(), "out/render.png");
}

#[test]
fn scene_constants_follow_field_order() {
    let info = GpuSceneInfo::new([32, 16, 8], 3);
    let c = build_scene_constants(800, 600, 5, 1, &info);
    assert_eq!(c.image_width, 800);
    assert_eq!(c.image_height, 600);
    assert_eq!(c.frame_index, 5);
    assert_eq!(c.samples_per_dispatch, 1);
    assert_eq!((c.voxel_dim_x, c.voxel_dim_y, c.voxel_dim_z), (32, 16, 8));
    assert_eq!(c.material_count, 3);
    assert_eq!(c.to_bytes(), ne_bytes(&[800, 600, 5, 1, 32, 16, 8, 3]));
}

#[test]
fn material_count_keeps_low_bits() {
    let info = GpuSceneInfo::new([1, 1, 1], 0);
    assert_eq!(info.material_count, 0);
    if usize::BITS > 32 {
        let big = (1usize << 32) + 5;
        assert_eq!(GpuSceneInfo::new([1, 1, 1], big).material_count, 5);
    }
}

#[test]
fn pixel_buffers_are_sized_per_pixel() {
    let n = pixel_count(800, 600);
    assert_eq!(n, 480_000);
    assert_eq!(per_pixel_word_buffer_size(n), 1_920_000);
    assert_eq!(readback_buffer_size(n), 7_680_000);
    assert_eq!(readback_bytes_per_row(800), 12_800);
    assert_eq!(pixel_count(0, 600), 0);
}

#[test]
fn rng_seeds_mix_pixel_index() {
    let seeds = rng_seeds(4);
    assert_eq!(seeds, vec![0xA2C2A3E9, 0xA2C2A3E8, 0xA2C2A3EB, 0xA2C2A3EA]);
    assert_eq!(RNG_SEED_MIX, 0xA2C2A3E9);
    assert_eq!(rng_seed_bytes(4), ne_bytes(&seeds));
    assert!(rng_seeds(0).is_empty());
}

#[test]
fn rng_seeds_are_distinct() {
    let mut seeds = rng_seeds(1000);
    seeds.sort();
    seeds.dedup();
    assert_eq!(seeds.len(), 1000);
}

#[test]
fn sample_counts_start_at_zero() {
    let bytes = sample_count_bytes(6);
    assert_eq!(bytes.len(), 24);
    assert!(bytes.iter().all(|b| *b == 0));
}

#[test]
fn workgroups_round_up() {
    assert_eq!(workgroup_count(800), 100);
    assert_eq!(workgroup_count(601), 76);
    assert_eq!(workgroup_count(8), 1);
    assert_eq!(workgroup_count(1), 1);
    assert_eq!(workgroup_count(0), 0);
    assert_eq!(workgroup_count(u32::MAX), u32::MAX.div_ceil(8));
}

#[test]
fn pixel_channels_are_disjoint_and_in_bounds() {
    let (w, h) = (5u32, 3u32);
    assert_eq!(pixel_float_index(3, 2, 10), 92);
    let mut seen = vec![false; (w * h * 4) as usize];
    for y in 0..h {
        for x in 0..w {
            let i = pixel_float_index(x, y, w);
            for k in 0..4 {
                assert!(!seen[i + k]);
                seen[i + k] = true;
            }
        }
    }
    assert!(seen.iter().all(|s| *s));
}

#[test]
fn voxel_grid_is_x_fastest() {
    let empty = Voxel { material: 0, volumetric_id: None };
    let mut volume = VoxelVolume::new([2, 2, 2], empty);
    assert_eq!(volume.voxels().len(), 8);
    let lit = Voxel { material: 1, volumetric_id: None };
    volume.set_voxel(1, 0, 1, lit);
    let cells = volume.voxels();
    assert_eq!(cells[5], lit);
    assert_eq!(cells.iter().filter(|v| **v == lit).count(), 1);
    let (info, bytes) = voxel_upload(&volume, 2);
    assert_eq!(info.voxel_dims, [2, 2, 2]);
    assert_eq!(info.material_count, 2);
    assert_eq!(bytes.len(), 8 * 16);
    assert_eq!(bytes[80..84], 1u32.to_ne_bytes());
}

#[test]
fn empty_grid_has_no_cells() {
    let v = VoxelVolume::new([4, 0, 4], Voxel { material: 0, volumetric_id: None });
    assert!(v.voxels().is_empty());
}
