use scene_renderer::config::{PresentMode, RendererConfig, DEFAULT_FRAME_LATENCY};
use scene_renderer::surface::{
    choose_present_mode, choose_surface_format, frame_plan, resize_applies, FramePlan, FrameStatus,
    SurfacePresentMode,
};

#[test]
fn default_config_is_mailbox_with_two_frames() {
    let c = RendererConfig::default();
    assert_eq!(c.present_mode, Some(PresentMode::Mailbox));
    assert_eq!(c.max_frame_latency, Some(2));
    assert_eq!(c.frame_latency(), 2);
}

#[test]
fn parsed_config_wins_over_default() {
    let parsed = RendererConfig { present_mode: Some(PresentMode::Fifo), max_frame_latency: None };
    assert_eq!(RendererConfig::from_parsed(Some(parsed)), parsed);
    assert_eq!(RendererConfig::from_parsed(None), RendererConfig::default());
}

#[test]
fn frame_latency_defaults_to_two() {
    let c = RendererConfig { present_mode: None, max_frame_latency: None };
    assert_eq!(c.frame_latency(), DEFAULT_FRAME_LATENCY);
    let c = RendererConfig { present_mode: None, max_frame_latency: Some(5) };
    assert_eq!(c.frame_latency(), 5);
}

#[test]
fn present_modes_map_to_surface_modes() {
    assert_eq!(PresentMode::Immediate.to_surface(), SurfacePresentMode::Immediate);
    assert_eq!(PresentMode::Fifo.to_surface(), SurfacePresentMode::Fifo);
    assert_eq!(PresentMode::Mailbox.to_surface(), SurfacePresentMode::Mailbox);
}

#[test]
fn supported_desired_mode_is_chosen() {
    let supported = vec![SurfacePresentMode::Fifo, SurfacePresentMode::Mailbox];
    assert_eq!(choose_present_mode(Some(PresentMode::Mailbox), &supported), SurfacePresentMode::Mailbox);
    assert_eq!(choose_present_mode(Some(PresentMode::Fifo), &supported), SurfacePresentMode::Fifo);
}

#[test]
fn unsupported_or_missing_mode_falls_back_to_first() {
    let supported = vec![SurfacePresentMode::AutoVsync, SurfacePresentMode::Fifo];
    assert_eq!(choose_present_mode(Some(PresentMode::Mailbox), &supported), SurfacePresentMode::AutoVsync);
    assert_eq!(choose_present_mode(None, &supported), SurfacePresentMode::AutoVsync);
}

#[test]
fn first_srgb_format_is_chosen() {
    assert_eq!(choose_surface_format(&vec![false, true, true]), 1);
    assert_eq!(choose_surface_format(&vec![true, false]), 0);
    assert_eq!(choose_surface_format(&vec![false, false, false]), 0);
    assert_eq!(choose_surface_format(&vec![false, false, true]), 2);
}

#[test]
fn resize_needs_both_sides() {
    assert!(resize_applies(800, 600));
    assert!(!resize_applies(0, 600));
    assert!(!resize_applies(800, 0));
    assert!(!resize_applies(0, 0));
}

#[test]
fn frames_are_drawn_only_when_a_texture_was_acquired() {
    assert_eq!(frame_plan(FrameStatus::Success), FramePlan::Draw);
    assert_eq!(frame_plan(FrameStatus::Suboptimal), FramePlan::ReconfigureAndDraw);
    for s in [FrameStatus::Timeout, FrameStatus::Occluded, FrameStatus::Outdated, FrameStatus::Lost, FrameStatus::Validation] {
        assert_eq!(frame_plan(s), FramePlan::Skip);
    }
}
