use vstd::prelude::*;
use crate::viewport::{SurfaceSize, Viewport, ViewportView};

verus! {

/// What the event loop hands over of an event from the windowing system.
#[derive(Clone, Copy, Debug, PartialEq, Eq, Structural)]
pub enum WindowInput {
    /// The user asked to close the window.
    CloseRequested,
    /// A keyboard event: whether the key went down, and whether it is the Escape key.
    Keyboard { pressed: bool, escape: bool },
    /// The window's inner size changed.
    Resized { width: u32, height: u32 },
    /// The window asks to be drawn.
    RedrawRequested,
    /// Any other event, and every event that is not about the renderer's window.
    Other,
}

/// How presenting a frame went.
#[derive(Clone, Copy, Debug, PartialEq, Eq, Structural)]
pub enum RenderOutcome {
    /// The frame was drawn and presented.
    Presented,
    /// The surface was lost and must be configured again.
    Lost,
    /// The surface no longer matches the window and must be configured again.
    Outdated,
    /// The GPU ran out of memory.
    OutOfMemory,
    /// Acquiring the next frame took too long.
    Timeout,
}

/// What the event loop is to do next.
#[derive(Clone, Copy, Debug, PartialEq, Eq, Structural)]
pub enum LoopAction {
    /// Nothing.
    Idle,
    /// Leave the event loop.
    Exit,
    /// Configure the surface with this size and hand the new aspect ratio to the camera.
    Reconfigure { width: u32, height: u32 },
    /// Request the next redraw, apply the input to the camera and render a frame.
    DrawFrame,
    /// Report that the GPU is out of memory, then leave the event loop.
    ExitOutOfMemory,
    /// Report that acquiring a frame timed out, and go on.
    ReportTimeout,
}

/// The action that answers a request to resize the surface to `width` x `height`.
pub open spec fn resize_action(width: u32, height: u32) -> LoopAction {
    if width != 0 && height != 0 {
        LoopAction::Reconfigure { width, height }
    } else {
        LoopAction::Idle
    }
}

/// Whether a window input asks the application to quit: a close request, or
/// the Escape key going down.
pub open spec fn is_quit_request(input: WindowInput) -> bool {
    match input {
        WindowInput::CloseRequested => true,
        WindowInput::Keyboard { pressed, escape } => pressed && escape,
        _ => false,
    }
}

impl Viewport {
    /// Decides what the event loop does with one window input, and resizes the
    /// surface on a resize event.
    pub fn handle_input(&mut self, input: WindowInput) -> (action: LoopAction)
        ensures
            is_quit_request(input) ==> action == LoopAction::Exit && final(self)@ == old(self)@,
            match input {
                WindowInput::Resized { width, height } => {
                    &&& final(self)@ == old(self)@.resized(width, height)
                    &&& action == resize_action(width, height)
                    &&& final(self)@.window == old(self)@.window
                    &&& (width != 0 && height != 0) ==> {
                        &&& action == (LoopAction::Reconfigure { width: width, height: height })
                        &&& final(self)@.surface == (SurfaceSize { width: width, height: height })
                    }
                    &&& (width == 0 || height == 0) ==> {
                        &&& action == LoopAction::Idle
                        &&& final(self)@ == old(self)@
                    }
                },
                WindowInput::RedrawRequested => {
                    &&& final(self)@ == old(self)@
                    &&& action == LoopAction::DrawFrame
                },
                WindowInput::CloseRequested => true,
                WindowInput::Keyboard { pressed, escape } => {
                    &&& final(self)@ == old(self)@
                    &&& action == (if pressed && escape { LoopAction::Exit } else { LoopAction::Idle })
                },
                WindowInput::Other => {
                    &&& final(self)@ == old(self)@
                    &&& action == LoopAction::Idle
                },
            },
    {
        match input {
            WindowInput::CloseRequested => LoopAction::Exit,
            WindowInput::Keyboard { pressed, escape } => {
                if pressed && escape {
                    LoopAction::Exit
                } else {
                    LoopAction::Idle
                }
            },
            WindowInput::Resized { width, height } => self.resize_surface(width, height),
            WindowInput::RedrawRequested => LoopAction::DrawFrame,
            WindowInput::Other => LoopAction::Idle,
        }
    }

    /// Decides what the event loop does after a frame was rendered. A lost or
    /// outdated surface is configured again as it stands, with its current size;
    /// a surface with a zero side is left alone.
    pub fn handle_render_outcome(&mut self, outcome: RenderOutcome) -> (action: LoopAction)
        ensures
            match outcome {
                RenderOutcome::Presented => {
                    &&& final(self)@ == old(self)@
                    &&& action == LoopAction::Idle
                },
                RenderOutcome::Lost | RenderOutcome::Outdated => {
                    &&& final(self)@ == old(self)@
                    &&& action == resize_action(
                        old(self)@.surface.width,
                        old(self)@.surface.height,
                    )
                    &&& old(self)@.surface.is_drawable() ==> action == (LoopAction::Reconfigure {
                        width: old(self)@.surface.width,
                        height: old(self)@.surface.height,
                    })
                    &&& !old(self)@.surface.is_drawable() ==> action == LoopAction::Idle
                },
                RenderOutcome::OutOfMemory => {
                    &&& final(self)@ == old(self)@
                    &&& action == LoopAction::ExitOutOfMemory
                },
                RenderOutcome::Timeout => {
                    &&& final(self)@ == old(self)@
                    &&& action == LoopAction::ReportTimeout
                },
            },
    {
        match outcome {
            RenderOutcome::Presented => LoopAction::Idle,
            RenderOutcome::Lost | RenderOutcome::Outdated => {
                let size: SurfaceSize = self.surface_size();
                if size.width != 0 && size.height != 0 {
                    LoopAction::Reconfigure { width: size.width, height: size.height }
                } else {
                    LoopAction::Idle
                }
            },
            RenderOutcome::OutOfMemory => LoopAction::ExitOutOfMemory,
            RenderOutcome::Timeout => LoopAction::ReportTimeout,
        }
    }

    /// Resizes the surface and says whether the surface must be configured again.
    fn resize_surface(&mut self, width: u32, height: u32) -> (action: LoopAction)
        ensures
            final(self)@ == old(self)@.resized(width, height),
            action == resize_action(width, height),
            (width != 0 && height != 0) ==> action == (LoopAction::Reconfigure {
                width: width,
                height: height,
            }),
            (width != 0 && height != 0) ==> final(self)@.surface == (SurfaceSize {
                width: width,
                height: height,
            }),
            (width == 0 || height == 0) ==> action == LoopAction::Idle && final(self)@ == old(self)@,
    {
        if self.resize(width, height) {
            LoopAction::Reconfigure { width, height }
        } else {
            LoopAction::Idle
        }
    }
}

/// The action for a size with no zero side reconfigures the surface with
/// exactly that width and that height, in that order; a size with a zero side
/// asks for nothing.
pub proof fn lemma_resize_action_exact(width: u32, height: u32)
    ensures
        (width != 0 && height != 0) ==> resize_action(width, height) == (LoopAction::Reconfigure {
            width: width,
            height: height,
        }),
        (width == 0 || height == 0) ==> resize_action(width, height) == LoopAction::Idle,
{
}

/// A lost or outdated surface whose sides are both non-zero is configured
/// again with exactly its current width and height; one with a zero side is
/// left alone.
pub proof fn lemma_recovery_keeps_surface_size(v: ViewportView)
    ensures
        v.surface.is_drawable() ==> resize_action(v.surface.width, v.surface.height)
            == (LoopAction::Reconfigure { width: v.surface.width, height: v.surface.height }),
        !v.surface.is_drawable() ==> resize_action(v.surface.width, v.surface.height)
            == LoopAction::Idle,
{
}

/// After a resize with no zero side, a lost or outdated surface is configured
/// again with that size.
pub proof fn lemma_recovery_after_resize(v: ViewportView, width: u32, height: u32)
    requires
        width != 0,
        height != 0,
    ensures
        resize_action(v.resized(width, height).surface.width, v.resized(width, height).surface.height)
            == (LoopAction::Reconfigure { width, height }),
{
}

} // verus!
