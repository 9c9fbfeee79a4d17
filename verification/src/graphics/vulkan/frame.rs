//! The frame-present state machine.
//!
//! After one-time setup the presenter owns one framebuffer and one
//! pre-recorded command buffer per swapchain image. Each drawn frame
//! acquires an image index, submits the command buffer recorded for that
//! image, and presents the same image. The event loop drives the
//! presenter: a close request hides the window and stops the frame loop,
//! and once stopped no further draw — and so no further acquire — is ever
//! issued.

use vstd::prelude::*;

verus! {

/// The events the surrounding event loop hands to the presenter.
#[derive(Copy, Clone, Debug, PartialEq, Eq, Structural)]
pub enum FrameEvent {
    /// The user asked to close the window.
    CloseRequested,
    /// All pending redraw work is done: time to draw one frame.
    RedrawEventsCleared,
    /// The event loop is being torn down.
    LoopDestroyed,
    /// Any other event: none of the presenter's business.
    Other,
}

/// What the platform layer must do in response to an event.
#[derive(Copy, Clone, Debug, PartialEq, Eq, Structural)]
pub enum FrameAction {
    /// Hide the window and leave the event loop.
    HideWindowAndStop,
    /// Draw exactly one frame.
    Draw,
    /// Nothing.
    Idle,
}

/// One frame's submission: which command buffer to submit and which image
/// to present, both chosen by the acquired image index.
#[derive(Copy, Clone, Debug, PartialEq, Eq, Structural)]
pub struct FrameSubmission {
    pub image_index: usize,
    pub command_buffer_index: usize,
}

/// The presenter's state: the sizes of the per-image resource lists and
/// whether the frame loop is still running.
#[derive(Copy, Clone, Debug, PartialEq, Eq, Structural)]
pub struct FramePresenter {
    pub num_images: usize,
    pub num_framebuffers: usize,
    pub num_command_buffers: usize,
    pub running: bool,
}

impl FramePresenter {
    /// The presenter invariant: one framebuffer and one command buffer
    /// per swapchain image.
    pub open spec fn wf(self) -> bool {
        self.num_framebuffers == self.num_images && self.num_command_buffers == self.num_images
    }

    /// Set up the presenter for a swapchain of `num_images` images: the
    /// platform layer builds one framebuffer per image and pre-records
    /// one command buffer per framebuffer, and the frame loop starts
    /// running.
    pub fn setup(num_images: usize) -> (r: Self)
        ensures
            r.wf(),
            r.num_images == num_images,
            r.num_framebuffers == num_images,
            r.num_command_buffers == num_images,
            r.running,
    {
        FramePresenter {
            num_images,
            num_framebuffers: num_images,
            num_command_buffers: num_images,
            running: true,
        }
    }

    /// The state after an event and the action it demands.
    pub open spec fn spec_step(self, event: FrameEvent) -> (FramePresenter, FrameAction) {
        match event {
            FrameEvent::CloseRequested => (
                FramePresenter { running: false, ..self },
                FrameAction::HideWindowAndStop,
            ),
            FrameEvent::RedrawEventsCleared => (
                self,
                if self.running {
                    FrameAction::Draw
                } else {
                    FrameAction::Idle
                },
            ),
            FrameEvent::LoopDestroyed => (self, FrameAction::Idle),
            FrameEvent::Other => (self, FrameAction::Idle),
        }
    }

    /// Handle one event: a close request stops the frame loop and hides
    /// the window; a cleared redraw draws one frame, but only while the
    /// loop still runs — after a close request no draw, and so no
    /// acquire, is ever issued again.
    pub fn handle_event(&mut self, event: FrameEvent) -> (action: FrameAction)
        ensures
            (*final(self), action) == old(self).spec_step(event),
            final(self).num_images == old(self).num_images,
            final(self).num_framebuffers == old(self).num_framebuffers,
            final(self).num_command_buffers == old(self).num_command_buffers,
            old(self).wf() ==> final(self).wf(),
            !old(self).running ==> action != FrameAction::Draw,
    {
        match event {
            FrameEvent::CloseRequested => {
                self.running = false;
                FrameAction::HideWindowAndStop
            },
            FrameEvent::RedrawEventsCleared => {
                if self.running {
                    FrameAction::Draw
                } else {
                    FrameAction::Idle
                }
            },
            FrameEvent::LoopDestroyed => FrameAction::Idle,
            FrameEvent::Other => FrameAction::Idle,
        }
    }

    /// Plan one frame for an acquired image index: submit the command
    /// buffer recorded for that image, then present the same image. The
    /// acquired index always selects a valid command buffer.
    pub fn plan_frame(&self, acquired_image: usize) -> (r: FrameSubmission)
        requires
            self.wf(),
            acquired_image < self.num_images,
        ensures
            r.image_index == acquired_image,
            r.command_buffer_index == acquired_image,
            r.command_buffer_index < self.num_command_buffers,
            r.image_index < self.num_images,
    {
        FrameSubmission { image_index: acquired_image, command_buffer_index: acquired_image }
    }
}

/// The presenter invariant makes every acquired image index a valid index
/// into the command buffer list: the two lists have the same length.
pub proof fn lemma_acquired_index_valid(p: FramePresenter, image_index: int)
    requires
        p.wf(),
        0 <= image_index < p.num_images,
    ensures
        0 <= image_index < p.num_command_buffers,
        0 <= image_index < p.num_framebuffers,
{
}

} // verus!
