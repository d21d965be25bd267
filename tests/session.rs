use remagnify::config::{Config, RATIO_ONE};
use remagnify::magnifier::{
    poll_outcome, Action, AppState, GlobalKind, OutputEvent, PollOutcome, RenderError,
    RenderOutcome, StartupError,
};
use remagnify::pointer::{normalize_coordinate, normalize_position, Pointer};
use remagnify::pool_buffer::PoolBuffer;
use remagnify::vector::Vector2D;

const PX: i64 = 256;
const PXI: i32 = 256;

/// A session with the required globals and `n` monitors of 1920x1080,
/// surfaces configured and given buffers.
fn session(n: usize) -> AppState {
    let mut s = AppState::new(&Config::default());
    for kind in [
        GlobalKind::Compositor,
        GlobalKind::Shm,
        GlobalKind::Seat,
        GlobalKind::LayerShell,
        GlobalKind::Screencopy,
    ] {
        assert!(s.on_global(kind));
    }
    for i in 0..n {
        assert!(s.on_global(GlobalKind::Output));
        s.on_output_event(i, OutputEvent::Mode { width: 1920, height: 1080, refresh: 60000 });
        s.on_output_event(i, OutputEvent::Scale { factor: 1 });
        s.on_output_event(i, OutputEvent::Name { name: format!("OUT-{}", i) });
        s.on_output_event(i, OutputEvent::Done);
    }
    assert_eq!(s.check_protocols(), Ok(()));
    s.create_surfaces();
    assert_eq!(s.check_configured(), if n == 0 { Ok(()) } else { Err(StartupError::NotConfigured) });
    for i in 0..n {
        assert!(s.on_configure(i, 10 + i as u32));
        let shape = PoolBuffer::for_surface(s.layer_surfaces[i].monitor_size).unwrap();
        assert!(s.install_buffer(i, 0, shape));
        assert!(s.install_buffer(i, 1, shape));
        assert_eq!(s.submit_frame(i), Some(1));
    }
    assert_eq!(s.check_configured(), Ok(()));
    s
}

fn capture(s: &mut AppState, m: usize) {
    let b = PoolBuffer::new(1920, 1080, 1, 7680).unwrap();
    assert!(s.on_capture_buffer(m, b, 1));
}

#[test]
fn missing_globals_are_fatal_in_order() {
    let mut s = AppState::new(&Config::default());
    assert_eq!(s.check_protocols(), Err(StartupError::MissingCompositor));
    s.on_global(GlobalKind::Compositor);
    assert_eq!(s.check_protocols(), Err(StartupError::MissingShm));
    s.on_global(GlobalKind::Shm);
    assert_eq!(s.check_protocols(), Err(StartupError::MissingLayerShell));
    s.on_global(GlobalKind::LayerShell);
    assert_eq!(s.check_protocols(), Err(StartupError::MissingScreencopy));
    assert!(!s.on_global(GlobalKind::Other));
    s.on_global(GlobalKind::Screencopy);
    assert_eq!(s.check_protocols(), Ok(()));
}

#[test]
fn outputs_get_ids_in_order() {
    let s = session(3);
    assert_eq!(s.monitors.len(), 3);
    for (i, m) in s.monitors.iter().enumerate() {
        assert_eq!(m.wayland_name, i as u32);
        assert!(m.ready);
        assert_eq!(m.size, Vector2D::new(1920 * PX, 1080 * PX));
        assert_eq!(m.layer_surface_idx, Some(i));
        assert_eq!(s.layer_surfaces[i].monitor_idx, i);
        assert_eq!(s.layer_surfaces[i].ack_serial, 10 + i as u32);
    }
    assert_eq!(s.monitors[2].name, "OUT-2");
}

#[test]
fn scale_override_wins_over_output_scale() {
    let mut config = Config::default();
    config.scale = Some(1_500_000);
    let mut s = AppState::new(&config);
    s.on_global(GlobalKind::Output);
    assert_eq!(s.monitors[0].fractional_scale, 1_500_000);
    s.on_output_event(0, OutputEvent::Scale { factor: 2 });
    assert_eq!(s.monitors[0].scale, 2);
    assert_eq!(s.monitors[0].fractional_scale, 1_500_000);
    s.on_output_event(0, OutputEvent::Mode { width: 1920, height: 1200, refresh: 0 });
    assert_eq!(s.monitors[0].get_logical_size(), Vector2D::new(1280 * PX, 800 * PX));
}

#[test]
fn seat_capabilities() {
    let s = AppState::new(&Config::default());
    assert_eq!(s.on_seat_capabilities(3), (true, true));
    assert_eq!(s.on_seat_capabilities(1), (true, false));
    assert_eq!(s.on_seat_capabilities(2), (false, true));
    assert_eq!(s.on_seat_capabilities(4), (false, false));
}

#[test]
fn negative_coordinates_are_normalized() {
    assert_eq!(normalize_coordinate(-120, 1920), 1800);
    assert_eq!(normalize_coordinate(-120 * PX, 1920 * PX), 1800 * PX);
    assert_eq!(normalize_coordinate(0, 1920), 0);
    assert_eq!(normalize_coordinate(700, 1920), 700);
    assert_eq!(
        normalize_position(Vector2D::new(-120 * PX, 40 * PX), Vector2D::new(1920 * PX, 1080 * PX)),
        Vector2D::new(1800 * PX, 40 * PX)
    );
}

#[test]
fn only_first_valid_enter_seeds_startup() {
    let mut s = session(2);
    // Out of bounds: ignored.
    assert!(matches!(s.on_pointer_enter(0, 5000 * PXI, 10 * PXI), Action::Nothing));
    assert_eq!(s.first_enter_during_init, None);
    // First valid one (negative x counted from the far edge).
    s.on_pointer_enter(1, -120 * PXI, 300 * PXI);
    assert_eq!(s.first_enter_during_init, Some((1, Vector2D::new(1800 * PX, 300 * PX))));
    // Later ones change nothing.
    s.on_pointer_enter(0, 10 * PXI, 10 * PXI);
    s.on_pointer_enter(7, 10 * PXI, 10 * PXI);
    assert_eq!(s.first_enter_during_init, Some((1, Vector2D::new(1800 * PX, 300 * PX))));
    assert!(!s.pointer_position_confirmed);
    assert_eq!(s.active_monitor, None);
    // Motion during startup does not confirm the position either.
    s.on_pointer_motion(15 * PXI, 15 * PXI);
    assert!(!s.pointer_position_confirmed);

    s.complete_initialization();
    assert!(s.initialization_complete);
    assert_eq!(s.active_monitor, Some(1));
    assert_eq!(s.magnifier_position, Vector2D::new(1800 * PX, 300 * PX));
    assert!(!s.pointer_position_confirmed);

    // Enter after startup moves the pointer but does not confirm it.
    capture(&mut s, 0);
    assert!(matches!(s.on_pointer_enter(0, 20 * PXI, 30 * PXI), Action::Render(0)));
    assert!(!s.pointer_position_confirmed);
    // The first motion confirms it.
    assert!(matches!(s.on_pointer_motion(21 * PXI, 30 * PXI), Action::Render(0)));
    assert!(s.pointer_position_confirmed);
    assert_eq!(s.magnifier_position, Vector2D::new(21 * PX, 30 * PX));
}

#[test]
fn magnifier_drawn_only_when_confirmed() {
    let mut s = session(1);
    s.complete_initialization();
    assert_eq!(s.render_monitor(0).unwrap_err(), RenderError::NoScreenBuffer);
    assert_eq!(s.render_monitor(4).unwrap_err(), RenderError::InvalidMonitor);
    capture(&mut s, 0);
    assert!(matches!(s.on_capture_ready(0), Action::Render(0)));
    s.on_pointer_enter(0, 100 * PXI, 100 * PXI);
    match s.render_monitor(0).unwrap() {
        RenderOutcome::Drawn { surface, slot, plan } => {
            assert_eq!(surface, 0);
            assert_eq!(slot, 0);
            assert!(plan.is_none());
        }
        _ => panic!("expected a drawn frame"),
    }
    s.on_pointer_motion(100 * PXI, 100 * PXI);
    match s.render_monitor(0).unwrap() {
        RenderOutcome::Drawn { slot, plan, .. } => {
            assert_eq!(slot, 1);
            let plan = plan.unwrap();
            assert_eq!(plan.capture_scale, Vector2D::new(PX, PX));
            let m = plan.magnifier.unwrap();
            assert_eq!(m.anchor, Vector2D::new(100 * PX, 100 * PX));
            assert_eq!(m.capture_anchor, Vector2D::new(100 * PX, 100 * PX));
        }
        _ => panic!("expected a drawn frame"),
    }
    // Leaving clears the active monitor before its render.
    assert!(matches!(s.on_pointer_leave(), Action::Render(0)));
    assert_eq!(s.active_monitor, None);
    match s.render_monitor(0).unwrap() {
        RenderOutcome::Drawn { plan, .. } => assert!(plan.is_none()),
        _ => panic!("expected a drawn frame"),
    }
}

#[test]
fn render_asks_for_missing_buffers_and_skips_unconfigured() {
    let mut s = AppState::new(&Config::default());
    s.on_global(GlobalKind::Output);
    s.on_output_event(0, OutputEvent::Mode { width: 640, height: 480, refresh: 0 });
    s.create_surfaces();
    capture(&mut s, 0);
    assert!(matches!(s.render_monitor(0).unwrap(), RenderOutcome::Skipped));
    s.on_configure(0, 5);
    match s.render_monitor(0).unwrap() {
        RenderOutcome::NeedBuffers { surface, missing, shape } => {
            assert_eq!(surface, 0);
            assert_eq!(missing, (true, true));
            assert_eq!(shape.unwrap().stride, 2560);
        }
        _ => panic!("expected a request for buffers"),
    }
}

#[test]
fn zoom_out_to_one_clears_and_exits() {
    let mut s = session(2);
    s.complete_initialization();
    assert_eq!(s.zoom, 500_000);
    // One notch up at zoom speed 0.05: +0.05.
    assert!(matches!(s.on_axis(true, -120 * PXI), Action::Nothing));
    assert_eq!(s.zoom, 550_000);
    assert!(s.running);
    // Horizontal scrolling changes nothing.
    assert!(matches!(s.on_axis(false, -120 * PXI), Action::Nothing));
    assert_eq!(s.zoom, 550_000);
    // Twenty notches reach 1.0.
    match s.on_axis(true, -20 * 120 * PXI) {
        Action::Exit { cleared, delay_ms } => {
            assert_eq!(delay_ms, 200);
            assert_eq!(cleared, vec![Some(0), Some(0)]);
        }
        _ => panic!("expected the exit sequence"),
    }
    assert_eq!(s.zoom, RATIO_ONE);
    assert_eq!(s.renderer.zoom, RATIO_ONE);
    assert!(!s.running);
    assert!(s.layer_surfaces.iter().all(|ls| ls.last_buffer == 0));
}

#[test]
fn zoom_in_rerenders_active_monitor() {
    let mut s = session(1);
    s.complete_initialization();
    s.on_pointer_enter(0, PXI, PXI);
    assert!(matches!(s.on_axis(true, 120 * PXI), Action::Render(0)));
    assert_eq!(s.zoom, 450_000);
    assert!(matches!(s.on_axis(true, 10_000 * 120 * PXI), Action::Render(0)));
    assert_eq!(s.zoom, 10_000);
}

#[test]
fn escape_press_stops() {
    let mut s = session(0);
    assert!(matches!(s.on_key(1, false), Action::Nothing));
    assert!(s.running);
    assert!(matches!(s.on_key(2, true), Action::Nothing));
    assert!(s.running);
    assert!(matches!(s.on_key(1, true), Action::Stop));
    assert!(!s.running);
}

#[test]
fn buffer_release_and_frame_done() {
    let mut s = session(1);
    assert!(s.layer_surfaces[0].buffers[1].unwrap().busy);
    assert!(s.layer_surfaces[0].frame_pending);
    s.on_buffer_release(0, 1);
    assert!(!s.layer_surfaces[0].buffers[1].unwrap().busy);
    s.on_frame_done(0);
    assert!(!s.layer_surfaces[0].frame_pending);
}

#[test]
fn poll_results() {
    assert_eq!(poll_outcome(1), PollOutcome::Read);
    assert_eq!(poll_outcome(0), PollOutcome::Cancel);
    assert_eq!(poll_outcome(-1), PollOutcome::Fail);
}

#[test]
fn pointer_tracks_position() {
    let mut p = Pointer::new();
    assert!(!p.entered);
    p.handle_enter(5 * PX, 6 * PX);
    assert!(p.entered);
    assert_eq!(p.position, Vector2D::new(5 * PX, 6 * PX));
    p.handle_motion(7 * PX, 8 * PX);
    assert_eq!(p.position, Vector2D::new(7 * PX, 8 * PX));
    p.handle_leave();
    assert!(!p.entered);
}
