use rect_renderer::events::{dispatch_window_event, HostAction, WindowEventKind};
use rect_renderer::frame::{
    classify_surface_error, plan_frame, step, FrameAction, FrameEvent, FramePhase, Severity,
    SurfaceErrorKind,
};
use rect_renderer::rat::Frac;
use rect_renderer::record::{encode_batch, DrawRecord, NO_TEXTURE_SENTINEL, RECORD_BYTES};
use rect_renderer::shading::{
    corner_offset, fragment_source, shade, ColorRgb, FragmentSource, VERTICES_PER_RECTANGLE,
};
use rect_renderer::{RendererError, BATCH_CAPACITY};

fn colored_rect(pos: (f32, f32), size: (f32, f32), color: (f32, f32, f32)) -> DrawRecord {
    DrawRecord {
        pos_x: pos.0.to_bits(),
        pos_y: pos.1.to_bits(),
        size_x: size.0.to_bits(),
        size_y: size.1.to_bits(),
        color_r: color.0.to_bits(),
        color_g: color.1.to_bits(),
        color_b: color.2.to_bits(),
        texture: None,
    }
}

#[test]
fn one_record_packs_to_32_little_endian_bytes() {
    let rec = colored_rect((10.0, 10.0), (100.0, 100.0), (1.0, 0.5, 1.0));
    let bytes = encode_batch(&vec![rec]).unwrap();
    assert_eq!(bytes.len(), RECORD_BYTES);
    let mut expected = Vec::new();
    for lane in [
        10.0f32.to_bits(),
        10.0f32.to_bits(),
        100.0f32.to_bits(),
        100.0f32.to_bits(),
        1.0f32.to_bits(),
        0.5f32.to_bits(),
        1.0f32.to_bits(),
        NO_TEXTURE_SENTINEL,
    ] {
        expected.extend_from_slice(&lane.to_le_bytes());
    }
    assert_eq!(bytes, expected);
}

#[test]
fn textured_record_packs_its_handle() {
    let mut rec = colored_rect((0.0, 0.0), (2.0, 2.0), (1.0, 1.0, 1.0));
    rec.texture = Some(7);
    let bytes = encode_batch(&vec![rec]).unwrap();
    assert_eq!(&bytes[28..32], &7u32.to_le_bytes());
}

#[test]
fn three_colored_rectangles_draw_in_one_call_of_18_vertices() {
    // three rectangles, no texture registered, flat colors only
    let batch = vec![
        colored_rect((10.0, 10.0), (100.0, 100.0), (1.0, 1.0, 1.0)),
        colored_rect((120.0, 20.0), (100.0, 100.0), (1.0, 0.5, 1.0)),
        colored_rect((230.0, 50.0), (100.0, 150.0), (0.4, 0.3, 0.3)),
    ];
    let plan = plan_frame(&batch).unwrap();
    assert_eq!(plan.vertex_count, 18);
    assert_eq!(plan.instance_count, 1);
    assert_eq!(plan.buffer_bytes.len(), 3 * RECORD_BYTES);
    // none of the three samples any texture
    for rec in &batch {
        assert_eq!(fragment_source(rec.texture), FragmentSource::Flat);
    }
}

#[test]
fn oversized_batch_is_rejected_not_truncated() {
    let rec = colored_rect((0.0, 0.0), (1.0, 1.0), (1.0, 1.0, 1.0));
    let batch = vec![rec; BATCH_CAPACITY + 1];
    assert_eq!(plan_frame(&batch).err(), Some(RendererError::CapacityExceeded));
    assert!(matches!(encode_batch(&batch), Err(RendererError::CapacityExceeded)));

    let full = vec![rec; BATCH_CAPACITY];
    let plan = plan_frame(&full).unwrap();
    assert_eq!(plan.vertex_count as usize, 6 * BATCH_CAPACITY);
    assert_eq!(plan.buffer_bytes.len(), BATCH_CAPACITY * RECORD_BYTES);
}

#[test]
fn empty_batch_plans_an_empty_draw() {
    let plan = plan_frame(&Vec::new()).unwrap();
    assert_eq!(plan.vertex_count, 0);
    assert_eq!(plan.instance_count, 1);
    assert!(plan.buffer_bytes.is_empty());
}

#[test]
fn surface_errors_classify_by_severity() {
    assert_eq!(classify_surface_error(SurfaceErrorKind::Lost), Severity::Recoverable);
    assert_eq!(classify_surface_error(SurfaceErrorKind::Outdated), Severity::Recoverable);
    assert_eq!(classify_surface_error(SurfaceErrorKind::OutOfMemory), Severity::Fatal);
    assert_eq!(classify_surface_error(SurfaceErrorKind::Timeout), Severity::Transient);
}

#[test]
fn frame_phases_cycle_through_one_frame() {
    let (phase, action) = step(FramePhase::Idle, FrameEvent::RedrawRequested);
    assert_eq!((phase, action), (FramePhase::Acquiring, FrameAction::Acquire));
    let (phase, action) = step(phase, FrameEvent::Acquired);
    assert_eq!((phase, action), (FramePhase::Encoding, FrameAction::Encode));
    let (phase, action) = step(phase, FrameEvent::EncodingDone);
    assert_eq!((phase, action), (FramePhase::Submitted, FrameAction::Submit));
    let (phase, action) = step(phase, FrameEvent::SubmitDone);
    assert_eq!((phase, action), (FramePhase::Presented, FrameAction::Present));
    let (phase, action) = step(phase, FrameEvent::PresentDone);
    assert_eq!((phase, action), (FramePhase::Idle, FrameAction::Wait));
}

#[test]
fn acquisition_failures_return_to_idle() {
    for (kind, action) in [
        (SurfaceErrorKind::Lost, FrameAction::Reconfigure),
        (SurfaceErrorKind::Outdated, FrameAction::Reconfigure),
        (SurfaceErrorKind::OutOfMemory, FrameAction::Exit),
        (SurfaceErrorKind::Timeout, FrameAction::SkipFrame),
    ] {
        let r = step(FramePhase::Acquiring, FrameEvent::AcquireFailed(kind));
        assert_eq!(r, (FramePhase::Idle, action));
    }
}

#[test]
fn unexpected_events_change_nothing() {
    assert_eq!(step(FramePhase::Idle, FrameEvent::PresentDone), (FramePhase::Idle, FrameAction::Wait));
    assert_eq!(
        step(FramePhase::Encoding, FrameEvent::RedrawRequested),
        (FramePhase::Encoding, FrameAction::Wait)
    );
}

#[test]
fn window_events_dispatch_to_host_actions() {
    assert_eq!(dispatch_window_event(WindowEventKind::CloseRequested), HostAction::Exit);
    assert_eq!(dispatch_window_event(WindowEventKind::EscapePressed), HostAction::Exit);
    assert_eq!(dispatch_window_event(WindowEventKind::Resized(640, 480)), HostAction::Resize(640, 480));
    assert_eq!(dispatch_window_event(WindowEventKind::RedrawRequested), HostAction::Redraw);
    assert_eq!(dispatch_window_event(WindowEventKind::Other), HostAction::Ignore);
}

#[test]
fn corner_lookup_tiles_the_unit_square() {
    assert_eq!(VERTICES_PER_RECTANGLE, 6);
    let corners: Vec<(u32, u32)> = (0..6).map(corner_offset).collect();
    assert_eq!(corners, vec![(0, 0), (0, 1), (1, 0), (1, 0), (0, 1), (1, 1)]);
    // indexes wrap modulo six, and all four corners appear
    assert_eq!(corner_offset(6), (0, 0));
    assert_eq!(corner_offset(11), (1, 1));
    for corner in [(0, 0), (0, 1), (1, 0), (1, 1)] {
        assert!(corners.contains(&corner));
    }
}

#[test]
fn textured_fragment_shows_the_sample_not_the_flat_color() {
    // a 2x2 opaque texture's texel, as exact fractions of 255
    let sample = ColorRgb {
        r: Frac::new(200, 255),
        g: Frac::new(100, 255),
        b: Frac::new(50, 255),
    };
    let white = ColorRgb {
        r: Frac::new(1, 1),
        g: Frac::new(1, 1),
        b: Frac::new(1, 1),
    };
    assert_eq!(fragment_source(Some(0)), FragmentSource::Sampled(0));
    let out = shade(Some(&sample), &white);
    assert!(out.r.eq_rat(sample.r) && out.g.eq_rat(sample.g) && out.b.eq_rat(sample.b));
    assert!(!out.r.eq_rat(white.r));
}

#[test]
fn untextured_fragment_keeps_the_flat_color() {
    let flat = ColorRgb {
        r: Frac::new(2, 5),
        g: Frac::new(3, 10),
        b: Frac::new(3, 10),
    };
    let out = shade(None, &flat);
    assert_eq!(out, flat);
}

#[test]
fn shading_modulates_componentwise() {
    let sample = ColorRgb {
        r: Frac::new(1, 2),
        g: Frac::new(1, 4),
        b: Frac::new(1, 1),
    };
    let flat = ColorRgb {
        r: Frac::new(1, 2),
        g: Frac::new(2, 1),
        b: Frac::new(3, 4),
    };
    let out = shade(Some(&sample), &flat);
    assert!(out.r.eq_rat(Frac::new(1, 4)));
    assert!(out.g.eq_rat(Frac::new(1, 2)));
    assert!(out.b.eq_rat(Frac::new(3, 4)));
}
