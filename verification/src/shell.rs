//! The decisions of the window shell: what the surface is configured with,
//! and what a window event leads to. The event loop itself is not here.

use crate::renderer::{Renderer, SurfaceConfiguration};
use vstd::prelude::*;

verus! {

/// How frames are handed to the display.
#[derive(Debug, Clone, Copy, PartialEq, Eq, Hash, Structural)]
pub enum PresentMode {
    AutoVsync,
    AutoNoVsync,
    Fifo,
    FifoRelaxed,
    Immediate,
    Mailbox,
}

/// Chooses the format of the surface among those that it supports, given
/// for each whether it is an sRGB format: the first that is not, since
/// colors are given in linear space, or else the first of all.
pub fn select_surface_format(is_srgb: &[bool]) -> (chosen: usize)
    requires
        is_srgb@.len() > 0,
    ensures
        chosen < is_srgb@.len(),
        forall|j: int| 0 <= j < chosen ==> is_srgb@[j],
        !is_srgb@[chosen as int] || (chosen == 0 && forall|j: int|
            0 <= j < is_srgb@.len() ==> is_srgb@[j]),
{
    let mut i: usize = 0;
    while i < is_srgb.len()
        invariant
            i <= is_srgb.len(),
            forall|j: int| 0 <= j < i ==> is_srgb@[j],
        decreases is_srgb.len() - i,
    {
        if !is_srgb[i] {
            return i;
        }
        i = i + 1;
    }
    0
}

/// Chooses how frames are presented among the modes that the surface
/// supports: without waiting where that is supported, else the first mode.
pub fn select_present_mode(modes: &[PresentMode]) -> (chosen: PresentMode)
    requires
        modes@.len() > 0,
    ensures
        chosen == if modes@.contains(PresentMode::Immediate) {
            PresentMode::Immediate
        } else {
            modes@[0]
        },
{
    let mut i: usize = 0;
    while i < modes.len()
        invariant
            i <= modes.len(),
            forall|j: int| 0 <= j < i ==> modes@[j] != PresentMode::Immediate,
        decreases modes.len() - i,
    {
        if modes[i] == PresentMode::Immediate {
            assert(modes@[i as int] == PresentMode::Immediate);
            return PresentMode::Immediate;
        }
        i = i + 1;
    }
    modes[0]
}

/// What happened to the window, as far as the shell tells events apart.
#[derive(Debug, Clone, Copy, PartialEq, Eq, Hash, Structural)]
pub enum ShellEvent {
    /// The user asked to close the window.
    CloseRequested,
    /// The escape key was pressed.
    EscapePressed,
    /// The window has the given size now.
    Resized { width: u32, height: u32 },
    /// The scale factor changed; the window has the given inner size now.
    ScaleFactorChanged { width: u32, height: u32 },
    /// The window wants to be drawn.
    RedrawRequested,
    /// Any other event.
    Other,
}

/// What the event loop does next.
#[derive(Debug, Clone, Copy, PartialEq, Eq, Hash, Structural)]
pub enum ShellAction {
    /// Leave the event loop.
    Exit,
    /// Ask for a redraw, after configuring the surface again where
    /// `reconfigure` is set.
    RequestRedraw { reconfigure: bool },
    /// Apply the pending scene changes and draw a frame.
    Render,
    /// Hand the event to the application, and leave the event loop where it
    /// no longer listens.
    Forward,
}

/// The shell of one window: it owns the renderer of the window's surface.
pub struct Shell2 {
    pub renderer: Renderer,
    pub initial_size: (u32, u32),
}

impl Shell2 {
    /// A shell whose surface is configured with the initial size of the
    /// window.
    pub fn new(initial_size: (u32, u32)) -> (r: Self)
        ensures
            r.initial_size == initial_size,
            r.renderer@.surface == (SurfaceConfiguration {
                width: initial_size.0,
                height: initial_size.1,
            }),
            r.renderer@.pipelines == crate::pipeline::pipeline_order(),
            r.renderer@.indices == Seq::<u16>::empty(),
    {
        let surface_config = SurfaceConfiguration {
            width: initial_size.0,
            height: initial_size.1,
        };
        Shell2 { renderer: Renderer::new(surface_config), initial_size }
    }

    /// The size that an event gives the surface, if it gives it one.
    pub open spec fn event_size(event: ShellEvent) -> Option<(u32, u32)> {
        match event {
            ShellEvent::Resized { width, height } => Some((width, height)),
            ShellEvent::ScaleFactorChanged { width, height } => Some((width, height)),
            _ => None,
        }
    }

    /// One turn of the event loop: takes a window event and says what to do
    /// next. A request to close and the escape key end the loop, a new size
    /// resizes the surface and asks for a redraw, a redraw request draws, and
    /// any other event goes to the application.
    pub fn run(&mut self, event: ShellEvent) -> (action: ShellAction)
        ensures
            final(self).initial_size == old(self).initial_size,
            final(self).renderer@.pipelines == old(self).renderer@.pipelines,
            final(self).renderer@.indices == old(self).renderer@.indices,
            match Self::event_size(event) {
                Some(size) => {
                    &&& final(self).renderer@.surface.width
                        == crate::renderer::clamp_surface_size(size).0
                    &&& final(self).renderer@.surface.height
                        == crate::renderer::clamp_surface_size(size).1
                    &&& action == (ShellAction::RequestRedraw {
                        reconfigure: final(self).renderer@.surface != old(self).renderer@.surface,
                    })
                },
                None => {
                    &&& final(self).renderer@.surface == old(self).renderer@.surface
                    &&& action == match event {
                        ShellEvent::CloseRequested => ShellAction::Exit,
                        ShellEvent::EscapePressed => ShellAction::Exit,
                        ShellEvent::RedrawRequested => ShellAction::Render,
                        _ => ShellAction::Forward,
                    }
                },
            },
    {
        match event {
            ShellEvent::CloseRequested => ShellAction::Exit,
            ShellEvent::EscapePressed => ShellAction::Exit,
            ShellEvent::Resized { width, height } => {
                let reconfigure = self.resize_surface((width, height));
                ShellAction::RequestRedraw { reconfigure }
            },
            ShellEvent::ScaleFactorChanged { width, height } => {
                let reconfigure = self.resize_surface((width, height));
                ShellAction::RequestRedraw { reconfigure }
            },
            ShellEvent::RedrawRequested => ShellAction::Render,
            ShellEvent::Other => ShellAction::Forward,
        }
    }

    /// Resizes the surface, if necessary, and returns whether it has to be
    /// configured again.
    pub fn resize_surface(&mut self, new_size: (u32, u32)) -> (reconfigure: bool)
        ensures
            final(self).initial_size == old(self).initial_size,
            final(self).renderer@.surface.width == crate::renderer::clamp_surface_size(new_size).0,
            final(self).renderer@.surface.height == crate::renderer::clamp_surface_size(
                new_size,
            ).1,
            reconfigure == (final(self).renderer@.surface != old(self).renderer@.surface),
            final(self).renderer@.pipelines == old(self).renderer@.pipelines,
            final(self).renderer@.indices == old(self).renderer@.indices,
    {
        self.renderer.resize_surface(new_size)
    }

    /// The size of the surface, which may differ from that of the window.
    pub fn surface_size(&self) -> (r: (u32, u32))
        ensures
            r.0 == self.renderer@.surface.width,
            r.1 == self.renderer@.surface.height,
    {
        self.renderer.surface_size()
    }
}

} // verus!
