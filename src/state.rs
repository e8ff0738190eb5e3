use vstd::prelude::*;
use crate::mesh::{INDEX_COUNT, quad_indices, index_count};
use crate::uniform::{UniformRecord, base_color, uniform_for_time};

verus! {

/// A size in physical pixels, as the window reports it.
#[derive(Clone, Copy, Debug, PartialEq, Eq, Structural)]
pub struct PhysicalSize {
    pub width: u32,
    pub height: u32,
}

/// The part of the surface configuration that the renderer decides: the
/// size of the presented images.
#[derive(Clone, Copy, Debug, PartialEq, Eq, Structural)]
pub struct SurfaceConfig {
    pub width: u32,
    pub height: u32,
}

/// The extent of the depth texture and of its view.
#[derive(Clone, Copy, Debug, PartialEq, Eq, Structural)]
pub struct DepthBuffer {
    pub width: u32,
    pub height: u32,
}

/// A key the renderer reacts to.
#[derive(Clone, Copy, Debug, PartialEq, Eq, Structural)]
pub enum Key {
    Escape,
    Other,
}

/// An event of the renderer's own window.
#[derive(Clone, Copy, Debug, PartialEq, Eq, Structural)]
pub enum WindowEvent {
    CloseRequested,
    KeyboardInput { pressed: bool, key: Key },
    Resized(PhysicalSize),
    ScaleFactorChanged(PhysicalSize),
    Other,
}

/// An event delivered by the event loop.
#[derive(Clone, Copy, Debug, PartialEq, Eq, Structural)]
pub enum LoopEvent {
    Window(WindowEvent),
    RedrawRequested,
    MainEventsCleared,
    Other,
}

/// Why the next presentable image could not be acquired.
#[derive(Clone, Copy, Debug, PartialEq, Eq, Structural)]
pub enum SurfaceError {
    Timeout,
    Outdated,
    Lost,
    OutOfMemory,
}

/// What the event loop is to do next.
#[derive(Clone, Copy, Debug, PartialEq, Eq, Structural)]
pub enum Action {
    /// Nothing to do for this event.
    Nothing,
    /// Stop the event loop; no frame is rendered afterwards.
    Exit,
    /// Apply the configuration to the surface and allocate a new depth
    /// texture and view of the given size.
    Reconfigure(PhysicalSize),
    /// Render and present one frame.
    Render,
    /// Ask the window for another redraw.
    RequestRedraw,
    /// Log that presentation timed out and skip this tick.
    WarnTimeout,
}

/// What one frame draws and uploads.
#[derive(Clone, Copy)]
pub struct FramePlan {
    /// Number of indices of the single indexed draw, one instance.
    pub index_count: u32,
    /// The record written to the uniform buffer.
    pub uniform: UniformRecord,
    /// The depth texture the render pass clears and tests against.
    pub depth: DepthBuffer,
}

/// The renderer's state, apart from the graphics handles that realise it.
pub struct State {
    pub size: PhysicalSize,
    pub config: SurfaceConfig,
    pub depth: DepthBuffer,
    pub num_indices: u32,
    pub frames: u64,
    pub exited: bool,
}

/// A resize request the renderer acts on: both dimensions are positive.
pub open spec fn accepts(size: PhysicalSize) -> bool {
    size.width > 0 && size.height > 0
}

impl State {
    /// The configured surface has the stored window size, the depth buffer
    /// always has the size of the configured surface, and each frame draws
    /// the quad's six indices.
    pub open spec fn wf(&self) -> bool {
        &&& self.config.width == self.size.width
        &&& self.config.height == self.size.height
        &&& self.depth.width == self.config.width
        &&& self.depth.height == self.config.height
        &&& self.num_indices == INDEX_COUNT
    }

    /// The state right after setup on a window of the given size: the
    /// surface is configured to that size and a depth buffer of that size
    /// is allocated.
    pub fn new(size: PhysicalSize) -> (r: State)
        ensures
            r.wf(),
            r.size == size,
            r.config == (SurfaceConfig { width: size.width, height: size.height }),
            r.depth == (DepthBuffer { width: size.width, height: size.height }),
            r.frames == 0,
            !r.exited,
    {
        let indices = quad_indices();
        let mut s = State {
            size,
            config: SurfaceConfig { width: size.width, height: size.height },
            depth: DepthBuffer { width: 0, height: 0 },
            num_indices: index_count(&indices),
            frames: 0,
            exited: false,
        };
        s.configure_depth_buffer();
        s
    }

    /// Replaces the depth buffer by one of the configured surface's size.
    fn configure_depth_buffer(&mut self)
        ensures
            final(self).depth == (DepthBuffer {
                width: old(self).config.width,
                height: old(self).config.height,
            }),
            final(self).size == old(self).size,
            final(self).config == old(self).config,
            final(self).num_indices == old(self).num_indices,
            final(self).frames == old(self).frames,
            final(self).exited == old(self).exited,
    {
        self.depth = DepthBuffer { width: self.config.width, height: self.config.height };
    }

    /// Reacts to a new window size. A size with both dimensions positive
    /// becomes the stored size and configuration, and the depth buffer is
    /// reallocated to it; the result is then `true`. A size with a zero
    /// dimension changes nothing and gives `false`.
    pub fn resize(&mut self, new_size: PhysicalSize) -> (r: bool)
        requires
            old(self).wf(),
        ensures
            final(self).wf(),
            r == accepts(new_size),
            accepts(new_size) ==> final(self).size == new_size && final(self).config
                == (SurfaceConfig { width: new_size.width, height: new_size.height })
                && final(self).depth == (DepthBuffer {
                width: new_size.width,
                height: new_size.height,
            }),
            !accepts(new_size) ==> *final(self) == *old(self),
            final(self).frames == old(self).frames,
            final(self).exited == old(self).exited,
    {
        if new_size.width > 0 && new_size.height > 0 {
            self.size = new_size;
            self.config.width = new_size.width;
            self.config.height = new_size.height;
            self.configure_depth_buffer();
            true
        } else {
            false
        }
    }

    /// Handles one event of the loop. After an exit every event is ignored.
    /// A close request or a press of Escape exits. A resize or a change of
    /// scale factor goes through `resize`, and asks for reconfiguration when
    /// it was accepted. A redraw request renders a frame; the end of a batch
    /// of events asks for another redraw.
    pub fn handle_event(&mut self, event: LoopEvent) -> (r: Action)
        requires
            old(self).wf(),
        ensures
            final(self).wf(),
            old(self).exited ==> r == Action::Nothing && *final(self) == *old(self),
            !old(self).exited ==> {
                if is_exit_event(event) {
                    r == Action::Exit && final(self).exited && final(self).size == old(self).size
                        && final(self).config == old(self).config && final(self).depth == old(
                        self,
                    ).depth && final(self).frames == old(self).frames
                } else if resize_request(event) is Some {
                    let n = resize_request(event)->0;
                    &&& accepts(n) ==> r == Action::Reconfigure(n) && final(self).size == n
                        && final(self).config == (SurfaceConfig {
                        width: n.width,
                        height: n.height,
                    }) && final(self).depth == (DepthBuffer { width: n.width, height: n.height })
                        && final(self).frames == old(self).frames && !final(self).exited
                    &&& !accepts(n) ==> r == Action::Nothing && *final(self) == *old(self)
                } else {
                    &&& *final(self) == *old(self)
                    &&& r == match event {
                        LoopEvent::RedrawRequested => Action::Render,
                        LoopEvent::MainEventsCleared => Action::RequestRedraw,
                        _ => Action::Nothing,
                    }
                }
            },
    {
        if self.exited {
            return Action::Nothing;
        }
        match event {
            LoopEvent::Window(WindowEvent::CloseRequested) | LoopEvent::Window(
                WindowEvent::KeyboardInput { pressed: true, key: Key::Escape },
            ) => {
                self.exited = true;
                Action::Exit
            },
            LoopEvent::Window(WindowEvent::Resized(n)) | LoopEvent::Window(
                WindowEvent::ScaleFactorChanged(n),
            ) => {
                if self.resize(n) {
                    Action::Reconfigure(n)
                } else {
                    Action::Nothing
                }
            },
            LoopEvent::Window(_) => Action::Nothing,
            LoopEvent::RedrawRequested => Action::Render,
            LoopEvent::MainEventsCleared => Action::RequestRedraw,
            LoopEvent::Other => Action::Nothing,
        }
    }

    /// Starts a frame: counts it and gives what it draws and uploads, with the
    /// elapsed time whose `f32` bit pattern is `time`.
    pub fn begin_frame(&mut self, time: u32) -> (r: FramePlan)
        requires
            old(self).wf(),
        ensures
            final(self).wf(),
            r.index_count == INDEX_COUNT,
            r.uniform.color@ == base_color(),
            r.uniform.time == time,
            r.depth == old(self).depth,
            final(self).frames == if old(self).frames < u64::MAX {
                old(self).frames + 1
            } else {
                old(self).frames as int
            },
            final(self).size == old(self).size,
            final(self).config == old(self).config,
            final(self).depth == old(self).depth,
            final(self).exited == old(self).exited,
    {
        if self.frames < u64::MAX {
            self.frames = self.frames + 1;
        }
        FramePlan { index_count: self.num_indices, uniform: uniform_for_time(time), depth: self.depth }
    }

    /// Reacts to how presenting a frame went. A lost or outdated surface is
    /// resized to the stored size, which asks for reconfiguration when that
    /// size is accepted. Running out of memory exits; a timeout is logged and
    /// the tick skipped.
    pub fn frame_result(&mut self, result: Result<(), SurfaceError>) -> (r: Action)
        requires
            old(self).wf(),
        ensures
            final(self).wf(),
            final(self).size == old(self).size,
            final(self).config == old(self).config,
            final(self).depth == old(self).depth,
            final(self).frames == old(self).frames,
            final(self).exited == (old(self).exited || result == Err::<(), SurfaceError>(
                SurfaceError::OutOfMemory,
            )),
            r == match result {
                Ok(()) => Action::Nothing,
                Err(SurfaceError::Lost) | Err(SurfaceError::Outdated) => if accepts(old(self).size) {
                    Action::Reconfigure(old(self).size)
                } else {
                    Action::Nothing
                },
                Err(SurfaceError::OutOfMemory) => Action::Exit,
                Err(SurfaceError::Timeout) => Action::WarnTimeout,
            },
    {
        match result {
            Ok(()) => Action::Nothing,
            Err(SurfaceError::Lost) | Err(SurfaceError::Outdated) => {
                let size = self.size;
                if self.resize(size) {
                    Action::Reconfigure(size)
                } else {
                    Action::Nothing
                }
            },
            Err(SurfaceError::OutOfMemory) => {
                self.exited = true;
                Action::Exit
            },
            Err(SurfaceError::Timeout) => Action::WarnTimeout,
        }
    }
}

/// A close request, or a press of Escape.
pub open spec fn is_exit_event(event: LoopEvent) -> bool {
    match event {
        LoopEvent::Window(WindowEvent::CloseRequested) => true,
        LoopEvent::Window(WindowEvent::KeyboardInput { pressed, key }) => pressed && key
            == Key::Escape,
        _ => false,
    }
}

/// The size a resize or scale factor change asks for.
pub open spec fn resize_request(event: LoopEvent) -> Option<PhysicalSize> {
    match event {
        LoopEvent::Window(WindowEvent::Resized(n)) => Some(n),
        LoopEvent::Window(WindowEvent::ScaleFactorChanged(n)) => Some(n),
        _ => None,
    }
}

/// Picks the surface format among those offered, given for each whether it
/// is sRGB encoded: the first sRGB one, else the first one. `None` when no
/// format is offered.
pub fn choose_surface_format(srgb: &Vec<bool>) -> (r: Option<usize>)
    ensures
        r is None <==> srgb@.len() == 0,
        r matches Some(k) ==> k < srgb@.len(),
        r matches Some(k) ==> (srgb@[k as int] && forall|m: int| 0 <= m < k ==> !srgb@[m]) || (
        k == 0 && forall|m: int| 0 <= m < srgb@.len() ==> !srgb@[m]),
{
    if srgb.len() == 0 {
        return None;
    }
    let mut k: usize = 0;
    while k < srgb.len()
        invariant
            k <= srgb@.len(),
            forall|m: int| 0 <= m < k ==> !srgb@[m],
        decreases srgb@.len() - k,
    {
        if srgb[k] {
            return Some(k);
        }
        k = k + 1;
    }
    Some(0)
}

} // verus!
