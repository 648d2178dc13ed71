use apogee::apogee_planetarium::BevyBridgeState as ViewerBridgeState;
use apogee::planetarium::{
    BevyBridgeState, FRAME_INTERVAL_MILLIS, RendererAction, ViewportCommand, WaitPolicy, clamped_size, plan_resizes,
    resize_request,
};

#[test]
fn new_bridge_state_wants_a_first_frame() {
    let s: BevyBridgeState<u32> = BevyBridgeState::new();
    assert!(s.is_dirty);
    assert!(!s.is_playing);
    assert!(s.texture().is_none());
    assert_eq!(s.last_size, None);
    assert!(s.pending_commands.is_empty());
    assert_eq!(s.wait_policy(false), WaitPolicy::Proceed);
}

#[test]
fn sent_commands_are_taken_in_order() {
    let mut s: BevyBridgeState<u32> = BevyBridgeState::new();
    let first = s.take_frame_commands();
    assert!(first.is_empty());
    assert!(!s.is_dirty);
    s.send_command(ViewportCommand::Resize(10, 20));
    s.send_command(ViewportCommand::Resize(30, 40));
    assert!(s.is_dirty);
    let cmds = s.take_frame_commands();
    assert_eq!(cmds, vec![ViewportCommand::Resize(10, 20), ViewportCommand::Resize(30, 40)]);
    assert!(s.pending_commands.is_empty());
    assert!(!s.is_dirty);
}

#[test]
fn wait_policies() {
    let mut s: BevyBridgeState<u32> = BevyBridgeState::new();
    s.take_frame_commands();
    assert_eq!(s.wait_policy(false), WaitPolicy::UntilWoken);
    assert!(s.keeps_waiting(false));
    assert_eq!(s.wait_policy(true), WaitPolicy::Proceed);
    assert!(!s.keeps_waiting(true));
    s.request_redraw();
    assert_eq!(s.wait_policy(false), WaitPolicy::Proceed);
    assert!(!s.keeps_waiting(false));
    s.is_playing = true;
    assert_eq!(s.wait_policy(false), WaitPolicy::Timeout { millis: 16 });
    assert_eq!(FRAME_INTERVAL_MILLIS, 16);
}

#[test]
fn texture_refresh_rules() {
    let mut s: BevyBridgeState<&str> = BevyBridgeState::new();
    assert!(s.needs_new_texture(false));
    s.set_texture("frame");
    assert_eq!(s.texture(), Some(&"frame"));
    assert!(!s.needs_new_texture(false));
    assert!(s.needs_new_texture(true));
    s.record_resize((3, 4));
    assert_eq!(s.last_size, Some((3, 4)));
    s.clear_texture();
    assert!(s.texture().is_none());
}

#[test]
fn resize_sizes_are_clamped() {
    assert_eq!(clamped_size(ViewportCommand::Resize(0, 0)), (1, 1));
    assert_eq!(clamped_size(ViewportCommand::Resize(0, 5)), (1, 5));
    assert_eq!(clamped_size(ViewportCommand::Resize(640, 480)), (640, 480));
}

#[test]
fn resize_plan_skips_unchanged_sizes() {
    let cmds = vec![
        ViewportCommand::Resize(64, 64),
        ViewportCommand::Resize(100, 50),
        ViewportCommand::Resize(100, 50),
        ViewportCommand::Resize(0, 0),
        ViewportCommand::Resize(1, 1),
    ];
    assert_eq!(plan_resizes((64, 64), &cmds), vec![(100, 50), (1, 1)]);
    assert!(plan_resizes((5, 5), &vec![]).is_empty());
    assert!(plan_resizes((5, 5), &vec![ViewportCommand::Resize(5, 5)]).is_empty());
}

#[test]
fn viewport_resize_requests() {
    assert_eq!(resize_request(800, 600, None), Some(ViewportCommand::Resize(800, 600)));
    assert_eq!(resize_request(800, 600, Some((800, 600))), None);
    assert_eq!(resize_request(800, 600, Some((640, 480))), Some(ViewportCommand::Resize(800, 600)));
    assert_eq!(resize_request(0, 600, None), None);
    assert_eq!(resize_request(800, 0, Some((1, 1))), None);
}

#[test]
fn viewer_bridge_timeouts() {
    let mut s: ViewerBridgeState<u8> = ViewerBridgeState::new();
    assert_eq!(s.frame_timeout(), Some(0));
    let mut cmds = vec![ViewportCommand::Resize(1, 2)];
    s.drain_into(&mut cmds);
    assert_eq!(s.frame_timeout(), None);
    s.is_playing = true;
    assert_eq!(s.frame_timeout(), Some(16));
    s.is_playing = false;
    s.request_redraw();
    assert_eq!(s.frame_timeout(), Some(0));
    assert_eq!(cmds, vec![ViewportCommand::Resize(1, 2)]);
}

#[test]
fn viewer_bridge_queue_and_send() {
    let mut s: ViewerBridgeState<u8> = ViewerBridgeState::new();
    let mut sink = Vec::new();
    s.drain_into(&mut sink);
    s.queue_command(ViewportCommand::Resize(3, 3));
    assert!(!s.is_dirty);
    s.send_command(ViewportCommand::Resize(4, 4));
    assert!(s.is_dirty);
    let mut out = vec![ViewportCommand::Resize(9, 9)];
    s.drain_into(&mut out);
    assert_eq!(
        out,
        vec![ViewportCommand::Resize(9, 9), ViewportCommand::Resize(3, 3), ViewportCommand::Resize(4, 4)]
    );
    assert!(s.pending_commands.is_empty());
    assert!(!s.is_dirty);
    assert!(s.texture().is_none());
    s.set_texture(1);
    assert_eq!(s.texture(), Some(&1));
}

#[test]
fn initial_size_is_at_least_one_pixel() {
    assert_eq!(apogee::planetarium::at_least_one_pixel(0, 64), (1, 64));
    assert_eq!(apogee::planetarium::at_least_one_pixel(64, 64), (64, 64));
}

#[test]
fn default_bridge_states_are_idle() {
    let s: BevyBridgeState<u8> = BevyBridgeState::default();
    assert!(!s.is_dirty && !s.is_playing && s.last_size.is_none() && s.pending_commands.is_empty());
    assert_eq!(s.wait_policy(false), WaitPolicy::UntilWoken);
    let v: ViewerBridgeState<u8> = ViewerBridgeState::default();
    assert!(!v.is_dirty && !v.is_playing && v.texture().is_none());
    assert_eq!(v.frame_timeout(), None);
}

#[test]
fn resizes_over_two_frames_match_one_frame() {
    let a = vec![ViewportCommand::Resize(10, 10), ViewportCommand::Resize(20, 0)];
    let b = vec![ViewportCommand::Resize(20, 1), ViewportCommand::Resize(5, 5)];
    let first = plan_resizes((64, 64), &a);
    let second = plan_resizes(*first.last().unwrap(), &b);
    let mut all = a.clone();
    all.extend(b);
    let mut joined = first.clone();
    joined.extend(second);
    assert_eq!(plan_resizes((64, 64), &all), joined);
    assert_eq!(joined, vec![(10, 10), (20, 1), (5, 5)]);
}

#[test]
fn coalesced_requests_share_one_frame() {
    let mut s: BevyBridgeState<u8> = BevyBridgeState::new();
    assert_eq!(s.renderer_step(false), RendererAction::Draw(vec![]));
    s.send_command(ViewportCommand::Resize(2, 2));
    s.request_redraw();
    assert_eq!(s.renderer_step(false), RendererAction::Draw(vec![ViewportCommand::Resize(2, 2)]));
    assert_eq!(s.renderer_step(false), RendererAction::Wait);
    assert_eq!(s.wait_policy(false), WaitPolicy::UntilWoken);
}

#[test]
fn renderer_step_stops_on_shutdown_and_draws_while_playing() {
    let mut s: BevyBridgeState<u8> = BevyBridgeState::new();
    s.send_command(ViewportCommand::Resize(3, 3));
    assert_eq!(s.renderer_step(true), RendererAction::Stop);
    assert!(s.is_dirty);
    assert_eq!(s.pending_commands.len(), 1);
    s.renderer_step(false);
    s.is_playing = true;
    assert_eq!(s.renderer_step(false), RendererAction::Draw(vec![]));
}
