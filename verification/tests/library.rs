use wgpu_mandelbrot::compute::{
    mandelbrot_dispatch_size, MANDELBROT_DISPATCH_SIZE_Y, MANDELBROT_WORKGROUP_SIZE_Y,
};
use wgpu_mandelbrot::events::{LoopAction, RenderOutcome, WindowInput};
use wgpu_mandelbrot::input::{pan_command, PanCommand, PanKeys};
use wgpu_mandelbrot::surface::preferred_format_index;
use wgpu_mandelbrot::viewport::{SurfaceSize, Viewport};
use winit_input_helper::WinitInputHelper;

fn keys(left: bool, right: bool, up: bool, down: bool, recenter: bool) -> PanKeys {
    PanKeys { left, right, up, down, recenter }
}

#[test]
fn dispatch_for_no_work_is_one_group() {
    assert_eq!(mandelbrot_dispatch_size(0), (1, 1024, 1));
}

#[test]
fn dispatch_below_one_step() {
    assert_eq!(mandelbrot_dispatch_size(1), (1, 1024, 1));
    assert_eq!(mandelbrot_dispatch_size(65535), (1, 1024, 1));
}

#[test]
fn dispatch_at_exact_multiple_adds_a_step() {
    assert_eq!(mandelbrot_dispatch_size(65536), (2, 1024, 1));
    assert_eq!(mandelbrot_dispatch_size(131072), (3, 1024, 1));
}

#[test]
fn dispatch_for_full_hd_frame() {
    assert_eq!(mandelbrot_dispatch_size(1920 * 1080), (32, 1024, 1));
}

#[test]
fn dispatch_covers_work_with_fewest_steps() {
    let per_step = (MANDELBROT_DISPATCH_SIZE_Y * MANDELBROT_WORKGROUP_SIZE_Y) as usize;
    assert_eq!(per_step, 65536);
    for work in [0usize, 7, 65535, 65536, 65537, 1_000_000, 4_000_000_000] {
        let (x, y, z) = mandelbrot_dispatch_size(work);
        assert_eq!((y, z), (MANDELBROT_DISPATCH_SIZE_Y, 1));
        assert!(x as usize * per_step > work);
        assert!((x as usize - 1) * per_step <= work);
    }
}

#[test]
fn viewport_starts_with_window_size() {
    let v = Viewport::new(800, 600);
    assert_eq!(v.window_size(), SurfaceSize { width: 800, height: 600 });
    assert_eq!(v.surface_size(), SurfaceSize { width: 800, height: 600 });
}

#[test]
fn resize_sets_surface_and_keeps_window() {
    let mut v = Viewport::new(800, 600);
    assert!(v.resize(1024, 768));
    assert_eq!(v.surface_size(), SurfaceSize { width: 1024, height: 768 });
    assert_eq!(v.window_size(), SurfaceSize { width: 800, height: 600 });
}

#[test]
fn resize_with_zero_side_is_ignored() {
    let mut v = Viewport::new(800, 600);
    assert!(!v.resize(0, 768));
    assert!(!v.resize(1024, 0));
    assert!(!v.resize(0, 0));
    assert_eq!(v.surface_size(), SurfaceSize { width: 800, height: 600 });
}

#[test]
fn resize_twice_same_as_once() {
    let mut once = Viewport::new(800, 600);
    once.resize(300, 200);
    let mut twice = Viewport::new(800, 600);
    twice.resize(300, 200);
    twice.resize(300, 200);
    assert_eq!(once.surface_size(), twice.surface_size());
    assert_eq!(once.window_size(), twice.window_size());
}

#[test]
fn later_resize_wins() {
    let mut v = Viewport::new(800, 600);
    v.resize(300, 200);
    v.resize(640, 480);
    assert_eq!(v.surface_size(), SurfaceSize { width: 640, height: 480 });
}

#[test]
fn close_request_exits() {
    let mut v = Viewport::new(800, 600);
    assert_eq!(v.handle_input(WindowInput::CloseRequested), LoopAction::Exit);
}

#[test]
fn escape_pressed_exits() {
    let mut v = Viewport::new(800, 600);
    let action = v.handle_input(WindowInput::Keyboard { pressed: true, escape: true });
    assert_eq!(action, LoopAction::Exit);
}

#[test]
fn escape_released_or_other_key_is_ignored() {
    let mut v = Viewport::new(800, 600);
    let released = v.handle_input(WindowInput::Keyboard { pressed: false, escape: true });
    assert_eq!(released, LoopAction::Idle);
    let other = v.handle_input(WindowInput::Keyboard { pressed: true, escape: false });
    assert_eq!(other, LoopAction::Idle);
}

#[test]
fn other_input_is_ignored() {
    let mut v = Viewport::new(800, 600);
    assert_eq!(v.handle_input(WindowInput::Other), LoopAction::Idle);
    assert_eq!(v.surface_size(), SurfaceSize { width: 800, height: 600 });
}

#[test]
fn redraw_request_draws_a_frame() {
    let mut v = Viewport::new(800, 600);
    assert_eq!(v.handle_input(WindowInput::RedrawRequested), LoopAction::DrawFrame);
}

#[test]
fn resize_event_reconfigures() {
    let mut v = Viewport::new(800, 600);
    let action = v.handle_input(WindowInput::Resized { width: 1280, height: 720 });
    assert_eq!(action, LoopAction::Reconfigure { width: 1280, height: 720 });
    assert_eq!(v.surface_size(), SurfaceSize { width: 1280, height: 720 });
}

#[test]
fn minimised_window_is_not_reconfigured() {
    let mut v = Viewport::new(800, 600);
    let action = v.handle_input(WindowInput::Resized { width: 0, height: 0 });
    assert_eq!(action, LoopAction::Idle);
    assert_eq!(v.surface_size(), SurfaceSize { width: 800, height: 600 });
}

#[test]
fn presented_frame_needs_nothing() {
    let mut v = Viewport::new(800, 600);
    assert_eq!(v.handle_render_outcome(RenderOutcome::Presented), LoopAction::Idle);
}

#[test]
fn lost_surface_keeps_current_size() {
    let mut v = Viewport::new(800, 600);
    v.handle_input(WindowInput::Resized { width: 1280, height: 720 });
    let action = v.handle_render_outcome(RenderOutcome::Lost);
    assert_eq!(action, LoopAction::Reconfigure { width: 1280, height: 720 });
    assert_eq!(v.surface_size(), SurfaceSize { width: 1280, height: 720 });
}

#[test]
fn outdated_surface_keeps_current_size() {
    let mut v = Viewport::new(640, 480);
    v.handle_input(WindowInput::Resized { width: 100, height: 100 });
    let action = v.handle_render_outcome(RenderOutcome::Outdated);
    assert_eq!(action, LoopAction::Reconfigure { width: 100, height: 100 });
}

#[test]
fn lost_surface_without_resize_keeps_start_size() {
    let mut v = Viewport::new(640, 480);
    let action = v.handle_render_outcome(RenderOutcome::Lost);
    assert_eq!(action, LoopAction::Reconfigure { width: 640, height: 480 });
}

#[test]
fn lost_surface_of_zero_sized_window_is_left_alone() {
    let mut v = Viewport::new(0, 0);
    let action = v.handle_render_outcome(RenderOutcome::Lost);
    assert_eq!(action, LoopAction::Idle);
    assert_eq!(v.surface_size(), SurfaceSize { width: 0, height: 0 });
}

#[test]
fn out_of_memory_exits() {
    let mut v = Viewport::new(800, 600);
    let action = v.handle_render_outcome(RenderOutcome::OutOfMemory);
    assert_eq!(action, LoopAction::ExitOutOfMemory);
}

#[test]
fn timeout_is_reported() {
    let mut v = Viewport::new(800, 600);
    let action = v.handle_render_outcome(RenderOutcome::Timeout);
    assert_eq!(action, LoopAction::ReportTimeout);
    assert_eq!(v.surface_size(), SurfaceSize { width: 800, height: 600 });
}

#[test]
fn first_srgb_format_is_preferred() {
    assert_eq!(preferred_format_index(&vec![false, true, true]), 1);
    assert_eq!(preferred_format_index(&vec![true, false]), 0);
    assert_eq!(preferred_format_index(&vec![false, false, false, true]), 3);
}

#[test]
fn without_srgb_the_first_format_is_taken() {
    assert_eq!(preferred_format_index(&vec![false, false]), 0);
    assert_eq!(preferred_format_index(&vec![false]), 0);
}

#[test]
fn pan_single_keys() {
    assert_eq!(keys(true, false, false, false, false).command(), PanCommand { dx: -1, dy: 0, recenter: false });
    assert_eq!(keys(false, true, false, false, false).command(), PanCommand { dx: 1, dy: 0, recenter: false });
    assert_eq!(keys(false, false, true, false, false).command(), PanCommand { dx: 0, dy: 1, recenter: false });
    assert_eq!(keys(false, false, false, true, false).command(), PanCommand { dx: 0, dy: -1, recenter: false });
}

#[test]
fn pan_opposite_keys_cancel() {
    assert_eq!(keys(true, true, true, true, false).command(), PanCommand { dx: 0, dy: 0, recenter: false });
    assert_eq!(keys(true, true, false, true, false).command(), PanCommand { dx: 0, dy: -1, recenter: false });
}

#[test]
fn pan_diagonal_and_recenter() {
    assert_eq!(keys(false, true, true, false, true).command(), PanCommand { dx: 1, dy: 1, recenter: true });
}

#[test]
fn fresh_input_helper_holds_no_key() {
    let helper = WinitInputHelper::new();
    assert_eq!(PanKeys::read(&helper), keys(false, false, false, false, false));
    assert_eq!(pan_command(&helper), PanCommand { dx: 0, dy: 0, recenter: false });
}
