use scene_renderer::events::{window_action, AppAction, WindowInput};
use scene_renderer::gltf_loader::{embedded_image_bytes, pair_attributes, MeshData};
use scene_renderer::input_instruction::{InputInstruction, KeyState};
use scene_renderer::skybox::{skybox_cube_indices, SKYBOX_INDEX_COUNT, SKYBOX_VERTEX_COUNT};

#[test]
fn skybox_indices_match_the_cube_faces() {
    let expected: Vec<u32> = vec![
        0, 1, 2, 0, 2, 3, 4, 5, 6, 4, 6, 7, 8, 9, 10, 8, 10, 11, 12, 13, 14, 12, 14, 15, 16, 17, 18, 16, 18, 19,
        20, 21, 22, 20, 22, 23,
    ];
    let got = skybox_cube_indices();
    assert_eq!(got.len() as u32, SKYBOX_INDEX_COUNT);
    assert_eq!(got, expected);
    assert!(got.iter().all(|&i| i < SKYBOX_VERTEX_COUNT));
}

#[test]
fn attributes_pair_up_to_the_shorter_stream() {
    let positions = vec![[0.0f32, 0.0, 0.0], [1.0, 0.0, 0.0], [0.0, 1.0, 0.0]];
    let uvs = vec![[0.0f32, 0.0], [1.0, 0.0]];
    let pairs = pair_attributes(&positions, &uvs);
    assert_eq!(pairs, vec![([0.0, 0.0, 0.0], [0.0, 0.0]), ([1.0, 0.0, 0.0], [1.0, 0.0])]);
    let none: Vec<[f32; 2]> = Vec::new();
    assert!(pair_attributes(&positions, &none).is_empty());
}

#[test]
fn mesh_data_keeps_its_parts() {
    let m = MeshData::new(vec![1u8, 2], vec![0, 1, 1]);
    assert_eq!(m.vertices, vec![1, 2]);
    assert_eq!(m.indices, vec![0, 1, 1]);
}

#[test]
fn embedded_image_is_the_viewed_range() {
    let buffer: Vec<u8> = (0..10).collect();
    assert_eq!(embedded_image_bytes(&buffer, 3, 4), vec![3, 4, 5, 6]);
    assert!(embedded_image_bytes(&buffer, 10, 0).is_empty());
    assert_eq!(embedded_image_bytes(&buffer, 0, 10), buffer);
}

#[test]
fn bound_actions_run_for_their_state_only() {
    let mut b = InputInstruction::new('w').on_pressed(1).on_released(2);
    assert_eq!(b.key_code, 'w');
    assert_eq!(b.handler_mut(KeyState::Pressed).copied(), Some(1));
    assert_eq!(b.handler_mut(KeyState::Released).copied(), Some(2));
    if let Some(a) = b.handler_mut(KeyState::Pressed) {
        *a += 10;
    }
    assert_eq!(b.handler_mut(KeyState::Pressed).copied(), Some(11));
    assert_eq!(b.handler_mut(KeyState::Released).copied(), Some(2));
}

#[test]
fn unbound_state_has_no_action() {
    let mut b: InputInstruction<char, u8> = InputInstruction::new('s').on_pressed(3);
    assert!(b.handler_mut(KeyState::Released).is_none());
    let mut c: InputInstruction<char, u8> = InputInstruction::new('a');
    assert!(c.handler_mut(KeyState::Pressed).is_none());
    assert!(c.handler_mut(KeyState::Released).is_none());
    let mut d = InputInstruction::new('d').on_pressed(1u8).on_pressed(4);
    assert_eq!(d.handler_mut(KeyState::Pressed).copied(), Some(4));
}

#[test]
fn nothing_happens_before_the_renderer_is_ready() {
    assert!(matches!(window_action::<u8>(false, WindowInput::CloseRequested), AppAction::Ignore));
    assert!(matches!(window_action::<u8>(false, WindowInput::RedrawRequested), AppAction::Ignore));
}

#[test]
fn window_events_map_to_actions() {
    assert!(matches!(window_action::<u8>(true, WindowInput::CloseRequested), AppAction::Exit));
    assert!(matches!(
        window_action::<u8>(true, WindowInput::Resized { width: 3, height: 4 }),
        AppAction::Resize { width: 3, height: 4 }
    ));
    assert!(matches!(window_action::<u8>(true, WindowInput::RedrawRequested), AppAction::Redraw));
    assert!(matches!(
        window_action(true, WindowInput::Key { code: 7u8, state: KeyState::Released }),
        AppAction::Key { code: 7, state: KeyState::Released }
    ));
    assert!(matches!(window_action::<u8>(true, WindowInput::Focused(true)), AppAction::Refresh));
    assert!(matches!(window_action::<u8>(true, WindowInput::Focused(false)), AppAction::Ignore));
    assert!(matches!(window_action::<u8>(true, WindowInput::Other), AppAction::Ignore));
}
