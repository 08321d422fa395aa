//! The per-frame driver: which GPU step comes next, given the step that just
//! finished. The host performs each step and reports back; the driver owns
//! the frame counter, so the counter advances exactly once per frame whose
//! commands are dispatched.

use vstd::prelude::*;
use crate::pingpong::{binding_slot, lemma_ping_pong, next_frame, FrameCounter, FRAME_WRAP};

verus! {

/// Where the driver stands within a frame.
#[derive(Clone, Copy, Debug, PartialEq, Eq, Structural)]
pub enum FramePhase {
    Idle,
    FrameRequested,
    Packing,
    Dispatching,
    Presented,
}

/// What the host reports.
#[derive(Clone, Copy, Debug, PartialEq, Eq, Structural)]
pub enum LoopEvent {
    /// The platform asks for a new frame.
    RedrawRequested,
    /// A presentable surface texture was acquired.
    SurfaceReady,
    /// No surface texture could be had; the frame is dropped.
    SurfaceLost,
    /// The frame's uniform block was written to the GPU buffer.
    UniformsWritten,
    /// The frame's command buffer was submitted.
    Submitted,
    /// The surface texture was presented.
    FramePresented,
}

/// What the host is to do next.
#[derive(Clone, Copy, Debug, PartialEq, Eq, Structural)]
pub enum LoopAction {
    /// Acquire a presentable surface texture.
    AcquireSurface,
    /// Pack the uniform block with this frame index and write it.
    WriteUniforms(u32),
    /// Record and submit the draw with the binding set in this slot.
    Dispatch(usize),
    /// Present the surface texture.
    Present,
    /// Nothing until the next report.
    Wait,
}

/// The driver's move on `event` in `phase` with the counter at `frame`: the
/// next phase, the counter afterwards, and the action for the host. A report
/// that does not fit the phase changes nothing.
pub open spec fn loop_step(phase: FramePhase, frame: nat, event: LoopEvent) -> (FramePhase, nat, LoopAction) {
    match phase {
        FramePhase::Idle => match event {
            LoopEvent::RedrawRequested => (FramePhase::FrameRequested, frame, LoopAction::AcquireSurface),
            _ => (phase, frame, LoopAction::Wait),
        },
        FramePhase::FrameRequested => match event {
            LoopEvent::SurfaceReady => (FramePhase::Packing, frame, LoopAction::WriteUniforms(frame as u32)),
            LoopEvent::SurfaceLost => (FramePhase::Idle, frame, LoopAction::Wait),
            _ => (phase, frame, LoopAction::Wait),
        },
        FramePhase::Packing => match event {
            LoopEvent::UniformsWritten => (
                FramePhase::Dispatching,
                next_frame(frame),
                LoopAction::Dispatch(binding_slot(next_frame(frame)) as usize),
            ),
            _ => (phase, frame, LoopAction::Wait),
        },
        FramePhase::Dispatching => match event {
            LoopEvent::Submitted => (FramePhase::Presented, frame, LoopAction::Present),
            _ => (phase, frame, LoopAction::Wait),
        },
        FramePhase::Presented => match event {
            LoopEvent::FramePresented => (FramePhase::Idle, frame, LoopAction::Wait),
            _ => (phase, frame, LoopAction::Wait),
        },
    }
}

/// The driver of the render loop.
pub struct RenderLoop {
    phase: FramePhase,
    frames: FrameCounter,
}

impl RenderLoop {
    /// The phase the driver stands in.
    pub closed spec fn phase(self) -> FramePhase {
        self.phase
    }

    /// The frame counter's value.
    pub closed spec fn frame(self) -> nat {
        self.frames.index()
    }

    /// An idle driver with the counter at 0.
    pub fn new() -> (r: RenderLoop)
        ensures
            r.phase() == FramePhase::Idle,
            r.frame() == 0,
    {
        RenderLoop { phase: FramePhase::Idle, frames: FrameCounter::new() }
    }

    /// The phase the driver stands in.
    pub fn current_phase(&self) -> (r: FramePhase)
        ensures
            r == self.phase(),
    {
        self.phase
    }

    /// The frame counter's value.
    pub fn frame_index(&self) -> (r: u32)
        ensures
            r as nat == self.frame(),
            r < FRAME_WRAP,
    {
        self.frames.value()
    }

    /// Takes a report from the host and says what to do next.
    pub fn step(&mut self, event: LoopEvent) -> (r: LoopAction)
        ensures
            loop_step(old(self).phase(), old(self).frame(), event) == (
            final(self).phase(),
            final(self).frame(),
            r,
            ),
    {
        match (self.phase, event) {
            (FramePhase::Idle, LoopEvent::RedrawRequested) => {
                self.phase = FramePhase::FrameRequested;
                LoopAction::AcquireSurface
            },
            (FramePhase::FrameRequested, LoopEvent::SurfaceReady) => {
                self.phase = FramePhase::Packing;
                LoopAction::WriteUniforms(self.frames.value())
            },
            (FramePhase::FrameRequested, LoopEvent::SurfaceLost) => {
                self.phase = FramePhase::Idle;
                LoopAction::Wait
            },
            (FramePhase::Packing, LoopEvent::UniformsWritten) => {
                self.phase = FramePhase::Dispatching;
                self.frames.advance();
                LoopAction::Dispatch(self.frames.slot())
            },
            (FramePhase::Dispatching, LoopEvent::Submitted) => {
                self.phase = FramePhase::Presented;
                LoopAction::Present
            },
            (FramePhase::Presented, LoopEvent::FramePresented) => {
                self.phase = FramePhase::Idle;
                LoopAction::Wait
            },
            _ => LoopAction::Wait,
        }
    }
}

/// The driver's phase, counter and last action after the reports of one
/// frame that is drawn and presented, from an idle driver.
pub open spec fn after_presented_frame(frame: nat) -> (FramePhase, nat, LoopAction) {
    let s1 = loop_step(FramePhase::Idle, frame, LoopEvent::RedrawRequested);
    let s2 = loop_step(s1.0, s1.1, LoopEvent::SurfaceReady);
    let s3 = loop_step(s2.0, s2.1, LoopEvent::UniformsWritten);
    let s4 = loop_step(s3.0, s3.1, LoopEvent::Submitted);
    loop_step(s4.0, s4.1, LoopEvent::FramePresented)
}

/// One drawn frame takes an idle driver back to idle with the counter one
/// further; the frame's uniform block carries the count from before, and it
/// draws with the binding set of the count after. A frame whose surface is
/// lost leaves the counter where it was. So two drawn frames in a row use
/// different binding sets.
pub proof fn lemma_frame_cycle(frame: nat)
    requires
        frame < FRAME_WRAP,
    ensures
        after_presented_frame(frame).0 == FramePhase::Idle,
        after_presented_frame(frame).1 == next_frame(frame),
        loop_step(FramePhase::FrameRequested, frame, LoopEvent::SurfaceReady).2
            == LoopAction::WriteUniforms(frame as u32),
        loop_step(FramePhase::Packing, frame, LoopEvent::UniformsWritten).2 == LoopAction::Dispatch(
            binding_slot(next_frame(frame)) as usize,
        ),
        loop_step(
            loop_step(FramePhase::Idle, frame, LoopEvent::RedrawRequested).0,
            frame,
            LoopEvent::SurfaceLost,
        ) == (FramePhase::Idle, frame, LoopAction::Wait),
        loop_step(FramePhase::Packing, next_frame(frame), LoopEvent::UniformsWritten).2
            != loop_step(FramePhase::Packing, frame, LoopEvent::UniformsWritten).2,
{
    lemma_ping_pong(frame);
    lemma_ping_pong(next_frame(frame));
}

} // verus!
