use scene_renderer::light::{
    light_offset, padded_lights, tile_count, TileGrid, LIGHT_BUFFER_SIZE, MAX_LIGHTS, MAX_LIGHTS_PER_TILE,
    TILE_SIZE,
};
use scene_renderer::lighting_system::LightingSystem;

type Lights = LightingSystem<&'static str, (), u8, [f32; 4]>;

fn grid() -> TileGrid {
    TileGrid::for_surface(1920, 1080)
}

fn system() -> Lights {
    LightingSystem::new("lights", "grid", "counts", (), 1, 2, &grid())
}

#[test]
fn tile_count_rounds_up() {
    assert_eq!(tile_count(0), 0);
    assert_eq!(tile_count(1), 1);
    assert_eq!(tile_count(16), 1);
    assert_eq!(tile_count(17), 2);
    assert_eq!(tile_count(1920), 120);
    assert_eq!(tile_count(1080), 68);
    assert_eq!(tile_count(u32::MAX - TILE_SIZE), 268435455);
}

#[test]
fn tile_grid_for_full_hd() {
    let g = grid();
    assert_eq!(g.tiles_x, 120);
    assert_eq!(g.tiles_y, 68);
    assert_eq!(g.num_tiles, 8160);
    assert_eq!(g.light_grid_bytes, 8160 * 64 * 4);
    assert_eq!(g.light_index_count_bytes, 8160 * 4);
    assert_eq!(MAX_LIGHTS_PER_TILE, 64);
    assert_eq!(LIGHT_BUFFER_SIZE, 12288);
}

#[test]
fn checked_grid_refuses_sizes_that_overflow() {
    assert_eq!(TileGrid::checked_for_surface(1920, 1080), Some(grid()));
    assert_eq!(TileGrid::checked_for_surface(0, 0).map(|g| g.num_tiles), Some(0));
    assert_eq!(TileGrid::checked_for_surface(u32::MAX - 15, 16), None);
    assert_eq!(TileGrid::checked_for_surface(16, u32::MAX), None);
    assert_eq!(TileGrid::checked_for_surface(1 << 20, 1 << 20), None);
    assert!(TileGrid::checked_for_surface(u32::MAX - 16, 16).is_some());
}

#[test]
fn new_system_is_empty_and_keeps_resources() {
    let s = system();
    assert!(s.lights.is_empty());
    assert!(s.free_slots.is_empty());
    assert_eq!(s.light_buffer, "lights");
    assert_eq!(s.light_grid, "grid");
    assert_eq!(s.light_index_count, "counts");
    assert_eq!(s.light_culling_bind_group, 1);
    assert_eq!(s.light_bind_group, 2);
    assert_eq!(s.culling_dispatch(), (120, 68, 1));
}

#[test]
fn added_light_is_read_back_at_its_index() {
    let mut s = system();
    let a = s.add_light([1.0, 2.0, 3.0, 0.0]);
    let b = s.add_light([4.0, 5.0, 6.0, 0.0]);
    assert_eq!((a, b), (0, 1));
    assert_eq!(s.get_light(a), Some(&[1.0, 2.0, 3.0, 0.0]));
    assert_eq!(s.get_light(b), Some(&[4.0, 5.0, 6.0, 0.0]));
    assert_eq!(s.get_light(2), None);
}

#[test]
fn removed_slot_is_empty_and_reused_next() {
    let mut s = system();
    s.add_light([1.0; 4]);
    s.add_light([2.0; 4]);
    s.add_light([3.0; 4]);
    assert!(s.remove_light(1));
    assert_eq!(s.get_light(1), None);
    assert_eq!(s.get_light(0), Some(&[1.0; 4]));
    assert_eq!(s.get_light(2), Some(&[3.0; 4]));
    assert_eq!(s.free_slots, vec![1]);
    let again = s.add_light([9.0; 4]);
    assert_eq!(again, 1);
    assert_eq!(s.get_light(1), Some(&[9.0; 4]));
    assert!(s.free_slots.is_empty());
    assert_eq!(s.lights.len(), 3);
}

#[test]
fn freed_slots_are_reused_most_recent_first() {
    let mut s = system();
    for i in 0..4 {
        s.add_light([i as f32; 4]);
    }
    assert!(s.remove_light(0));
    assert!(s.remove_light(2));
    assert_eq!(s.add_light([7.0; 4]), 2);
    assert_eq!(s.add_light([8.0; 4]), 0);
    assert_eq!(s.add_light([9.0; 4]), 4);
}

#[test]
fn removing_a_missing_slot_changes_nothing() {
    let mut s = system();
    s.add_light([1.0; 4]);
    assert!(!s.remove_light(5));
    assert_eq!(s.lights.len(), 1);
    assert!(s.free_slots.is_empty());
}

#[test]
fn removing_twice_frees_the_slot_twice() {
    let mut s = system();
    s.add_light([1.0; 4]);
    assert!(s.remove_light(0));
    assert!(s.remove_light(0));
    assert_eq!(s.free_slots, vec![0, 0]);
}

#[test]
fn light_can_be_edited_in_place() {
    let mut s = system();
    let i = s.add_light([1.0; 4]);
    if let Some(l) = s.get_light_mut(i) {
        l[3] = 5.0;
    }
    assert_eq!(s.get_light(i), Some(&[1.0, 1.0, 1.0, 5.0]));
    s.remove_light(i);
    assert!(s.get_light_mut(i).is_none());
    assert!(s.get_light_mut(10).is_none());
}

#[test]
fn light_offset_is_index_times_stride() {
    assert_eq!(light_offset(0, 40), 0);
    assert_eq!(light_offset(3, 40), 120);
    assert_eq!(light_offset(255, 48), 12240);
}

#[test]
fn padded_lights_fill_every_slot() {
    let lights = vec![1u32, 2, 3];
    let out = padded_lights(&lights, 0);
    assert_eq!(out.len(), MAX_LIGHTS);
    assert_eq!(&out[..3], &[1, 2, 3]);
    assert!(out[3..].iter().all(|&x| x == 0));
}

#[test]
fn padded_lights_drop_lights_past_the_limit() {
    let lights: Vec<u32> = (0..300).collect();
    let out = padded_lights(&lights, 0);
    assert_eq!(out.len(), MAX_LIGHTS);
    assert_eq!(out[255], 255);
    assert_eq!(out, (0..256).collect::<Vec<u32>>());
}
