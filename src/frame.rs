use vstd::prelude::*;

verus! {

/// Where the frame driver stands between two frames.
#[derive(Clone, Copy, Debug, PartialEq, Eq, Structural)]
pub enum FrameState {
    /// No valid command buffers are recorded.
    Idle,
    /// One command buffer per swapchain image is recorded against the current framebuffers.
    Ready,
    /// The swapchain must be rebuilt before anything is drawn again.
    Stale,
}

/// What the render loop does first in a frame.
#[derive(Clone, Copy, Debug, PartialEq, Eq, Structural)]
pub enum FrameStep {
    /// Rebuild the swapchain, the pipeline and the framebuffers, re-record the command
    /// buffers, and draw nothing this frame.
    Rebuild,
    /// Record the command buffers again, then acquire an image and draw.
    Record,
    /// Acquire an image and draw.
    Acquire,
}

/// What acquiring the next swapchain image gave.
#[derive(Clone, Copy, Debug, PartialEq, Eq, Structural)]
pub enum AcquireOutcome {
    /// The image with this index is ours to draw into.
    Acquired(usize),
    /// The swapchain no longer matches the surface.
    OutOfDate,
}

/// What submitting and presenting a frame gave.
#[derive(Clone, Copy, Debug, PartialEq, Eq, Structural)]
pub enum PresentOutcome {
    Presented,
    /// The swapchain no longer matches the surface.
    OutOfDate,
    /// Any other failure: the frame is dropped.
    Failed,
}

/// What becomes of the "previous frame" signal after a submission.
#[derive(Clone, Copy, Debug, PartialEq, Eq, Structural)]
pub enum FrameSync {
    /// The submission's own completion signal guards the next frame.
    Chain,
    /// The submission is abandoned; the next frame starts from a fresh signal.
    Restart,
}

/// A window event, as far as the renderer cares.
#[derive(Clone, Copy, Debug, PartialEq, Eq, Structural)]
pub enum WindowSignal {
    CloseRequested,
    Resized(u32, u32),
    Other,
}

/// The decisions of the render loop: when command buffers are recorded, when the swapchain
/// is rebuilt, which image is drawn, and when the loop ends.
#[derive(Clone, Copy, Debug)]
pub struct FrameDriver {
    state: FrameState,
    mesh_count: usize,
    image_count: usize,
    command_buffers: usize,
    recorded_meshes: usize,
    width: u32,
    height: u32,
    done: bool,
}

/// The window size after a run of events: the last resize, or `size` where there is none.
pub open spec fn size_after(events: Seq<WindowSignal>, size: (u32, u32)) -> (u32, u32)
    decreases events.len(),
{
    if events.len() == 0 {
        size
    } else {
        match events.last() {
            WindowSignal::Resized(w, h) => (w, h),
            _ => size_after(events.drop_last(), size),
        }
    }
}

/// Without a resize among the events, the size stays.
proof fn lemma_size_without_resize(events: Seq<WindowSignal>, size: (u32, u32))
    requires
        forall|i: int| 0 <= i < events.len() ==> !(#[trigger] events[i] is Resized),
    ensures
        size_after(events, size) == size,
    decreases events.len(),
{
    if events.len() > 0 {
        assert(!(events[events.len() - 1] is Resized));
        let rest = events.drop_last();
        assert forall|i: int| 0 <= i < rest.len() implies !(#[trigger] rest[i] is Resized) by {
            assert(rest[i] == events[i]);
        }
        lemma_size_without_resize(rest, size);
    }
}

pub open spec fn close_requested(events: Seq<WindowSignal>) -> bool {
    exists|i: int| 0 <= i < events.len() && #[trigger] events[i] == WindowSignal::CloseRequested
}

impl FrameDriver {
    pub closed spec fn spec_state(&self) -> FrameState {
        self.state
    }

    pub closed spec fn spec_mesh_count(&self) -> nat {
        self.mesh_count as nat
    }

    pub closed spec fn spec_image_count(&self) -> nat {
        self.image_count as nat
    }

    pub closed spec fn spec_command_buffers(&self) -> nat {
        self.command_buffers as nat
    }

    /// How many meshes the recorded command buffers draw.
    pub closed spec fn spec_recorded_meshes(&self) -> nat {
        self.recorded_meshes as nat
    }

    pub closed spec fn spec_done(&self) -> bool {
        self.done
    }

    pub closed spec fn spec_size(&self) -> (u32, u32) {
        (self.width, self.height)
    }

    /// Recorded command buffers are current in the ready state: one per swapchain image,
    /// drawing every registered mesh. An idle driver keeps none.
    pub open spec fn wf(&self) -> bool {
        &&& self.spec_state() == FrameState::Ready ==> self.spec_command_buffers()
            == self.spec_image_count() && self.spec_recorded_meshes() == self.spec_mesh_count()
        &&& self.spec_state() == FrameState::Idle ==> self.spec_command_buffers() == 0
    }

    /// What the render loop does first in a frame, by state.
    pub open spec fn next_step(&self) -> FrameStep {
        match self.spec_state() {
            FrameState::Stale => FrameStep::Rebuild,
            FrameState::Idle => FrameStep::Record,
            FrameState::Ready => FrameStep::Acquire,
        }
    }

    /// The driver after a mesh joins the draw set: the recorded command buffers are dropped.
    pub closed spec fn with_mesh(self) -> FrameDriver {
        FrameDriver {
            mesh_count: (self.mesh_count + 1) as usize,
            command_buffers: 0,
            state: if self.state == FrameState::Ready {
                FrameState::Idle
            } else {
                self.state
            },
            ..self
        }
    }

    /// The driver after command buffers were recorded against the current framebuffers.
    pub closed spec fn recorded(self) -> FrameDriver {
        if self.state == FrameState::Stale {
            self
        } else {
            FrameDriver {
                state: FrameState::Ready,
                command_buffers: self.image_count,
                recorded_meshes: self.mesh_count,
                ..self
            }
        }
    }

    /// The driver after the swapchain, pipeline, framebuffers and command buffers were
    /// rebuilt with `image_count` images.
    pub closed spec fn rebuilt(self, image_count: usize) -> FrameDriver {
        FrameDriver {
            state: FrameState::Ready,
            image_count,
            command_buffers: image_count,
            recorded_meshes: self.mesh_count,
            ..self
        }
    }

    /// The driver marked for a rebuild; what is recorded stays until the rebuild.
    pub closed spec fn staled(self) -> FrameDriver {
        FrameDriver { state: FrameState::Stale, ..self }
    }

    pub open spec fn after_acquire(self, outcome: AcquireOutcome) -> FrameDriver {
        match outcome {
            AcquireOutcome::Acquired(_) => self,
            AcquireOutcome::OutOfDate => self.staled(),
        }
    }

    pub open spec fn after_present(self, outcome: PresentOutcome) -> FrameDriver {
        if outcome == PresentOutcome::OutOfDate {
            self.staled()
        } else {
            self
        }
    }

    /// The driver after the window events of a frame.
    pub closed spec fn after_events(self, events: Seq<WindowSignal>) -> FrameDriver {
        let size = size_after(events, (self.width, self.height));
        let moved = FrameDriver { done: close_requested(events), width: size.0, height: size.1, ..self };
        if size != (self.width, self.height) {
            moved.staled()
        } else {
            moved
        }
    }

    proof fn lemma_transitions(self)
        requires
            self.wf(),
        ensures
            self.mesh_count < usize::MAX ==> self.with_mesh().wf()
                && self.with_mesh().spec_mesh_count() == self.spec_mesh_count() + 1
                && self.with_mesh().spec_command_buffers() == 0
                && self.with_mesh().spec_state() == (if self.spec_state() == FrameState::Ready {
                    FrameState::Idle
                } else {
                    self.spec_state()
                })
                && self.with_mesh().spec_image_count() == self.spec_image_count()
                && self.with_mesh().spec_size() == self.spec_size()
                && self.with_mesh().spec_done() == self.spec_done(),
            self.recorded().wf(),
            self.spec_state() != FrameState::Stale ==> self.recorded().spec_state() == FrameState::Ready
                && self.recorded().spec_command_buffers() == self.spec_image_count()
                && self.recorded().spec_recorded_meshes() == self.spec_mesh_count(),
            self.spec_state() == FrameState::Stale ==> self.recorded() == self,
            self.recorded().spec_mesh_count() == self.spec_mesh_count(),
            self.recorded().spec_image_count() == self.spec_image_count(),
            self.recorded().spec_size() == self.spec_size(),
            self.recorded().spec_done() == self.spec_done(),
            forall|n: usize| #[trigger] self.rebuilt(n).wf()
                && self.rebuilt(n).spec_state() == FrameState::Ready
                && self.rebuilt(n).spec_image_count() == n
                && self.rebuilt(n).spec_command_buffers() == n
                && self.rebuilt(n).spec_recorded_meshes() == self.spec_mesh_count()
                && self.rebuilt(n).spec_mesh_count() == self.spec_mesh_count()
                && self.rebuilt(n).spec_size() == self.spec_size()
                && self.rebuilt(n).spec_done() == self.spec_done(),
            self.staled().wf(),
            self.staled().spec_state() == FrameState::Stale,
            self.staled().spec_command_buffers() == self.spec_command_buffers(),
            self.staled().spec_recorded_meshes() == self.spec_recorded_meshes(),
            self.staled().spec_mesh_count() == self.spec_mesh_count(),
            self.staled().spec_image_count() == self.spec_image_count(),
            self.staled().spec_size() == self.spec_size(),
            self.staled().spec_done() == self.spec_done(),
    {
    }

    /// A driver for a swapchain of `image_count` images on a window of the given size, with
    /// no mesh and nothing recorded.
    pub fn new(image_count: usize, width: u32, height: u32) -> (r: FrameDriver)
        ensures
            r.wf(),
            r.spec_state() == FrameState::Idle,
            r.spec_mesh_count() == 0,
            r.spec_image_count() == image_count,
            r.spec_command_buffers() == 0,
            r.spec_recorded_meshes() == 0,
            r.spec_size() == (width, height),
            !r.spec_done(),
    {
        FrameDriver {
            state: FrameState::Idle,
            mesh_count: 0,
            image_count,
            command_buffers: 0,
            recorded_meshes: 0,
            width,
            height,
            done: false,
        }
    }

    pub fn state(&self) -> (r: FrameState)
        ensures
            r == self.spec_state(),
    {
        self.state
    }

    /// Whether the window asked to close during the last frame: the loop ends there.
    pub fn done(&self) -> (r: bool)
        ensures
            r == self.spec_done(),
    {
        self.done
    }

    /// How many meshes are in the draw set.
    pub fn mesh_count(&self) -> (r: usize)
        ensures
            r == self.spec_mesh_count(),
    {
        self.mesh_count
    }

    /// How many images the current swapchain has.
    pub fn image_count(&self) -> (r: usize)
        ensures
            r == self.spec_image_count(),
    {
        self.image_count
    }

    /// How many command buffers are recorded.
    pub fn command_buffer_count(&self) -> (r: usize)
        ensures
            r == self.spec_command_buffers(),
    {
        self.command_buffers
    }

    /// How many meshes the recorded command buffers draw.
    pub fn recorded_mesh_count(&self) -> (r: usize)
        ensures
            r == self.spec_recorded_meshes(),
    {
        self.recorded_meshes
    }

    /// The window size that the next swapchain is built for.
    pub fn size(&self) -> (r: (u32, u32))
        ensures
            r == self.spec_size(),
    {
        (self.width, self.height)
    }

    /// Adds one mesh to the draw set. Recorded command buffers do not draw it, so they are
    /// dropped and a ready driver falls back to idle.
    pub fn register_mesh(&mut self)
        requires
            old(self).wf(),
            old(self).spec_mesh_count() < usize::MAX,
        ensures
            *final(self) == old(self).with_mesh(),
            final(self).wf(),
            final(self).spec_mesh_count() == old(self).spec_mesh_count() + 1,
            final(self).spec_command_buffers() == 0,
            final(self).spec_state() == (if old(self).spec_state() == FrameState::Ready {
                FrameState::Idle
            } else {
                old(self).spec_state()
            }),
            final(self).spec_image_count() == old(self).spec_image_count(),
            final(self).spec_size() == old(self).spec_size(),
            final(self).spec_done() == old(self).spec_done(),
    {
        proof {
            old(self).lemma_transitions();
        }
        self.mesh_count = self.mesh_count + 1;
        self.command_buffers = 0;
        if self.state == FrameState::Ready {
            self.state = FrameState::Idle;
        }
    }

    /// Notes that one command buffer per framebuffer was recorded, drawing every registered
    /// mesh. An idle or ready driver is then ready; a stale one stays as it is, and its
    /// rebuild records again.
    pub fn record_command_buffers(&mut self)
        requires
            old(self).wf(),
        ensures
            *final(self) == old(self).recorded(),
            final(self).wf(),
            old(self).spec_state() != FrameState::Stale ==> final(self).spec_state()
                == FrameState::Ready && final(self).spec_command_buffers()
                == old(self).spec_image_count() && final(self).spec_recorded_meshes()
                == old(self).spec_mesh_count(),
            old(self).spec_state() == FrameState::Stale ==> *final(self) == *old(self),
            final(self).spec_mesh_count() == old(self).spec_mesh_count(),
            final(self).spec_image_count() == old(self).spec_image_count(),
            final(self).spec_size() == old(self).spec_size(),
            final(self).spec_done() == old(self).spec_done(),
    {
        proof {
            old(self).lemma_transitions();
        }
        if self.state != FrameState::Stale {
            self.state = FrameState::Ready;
            self.command_buffers = self.image_count;
            self.recorded_meshes = self.mesh_count;
        }
    }

    /// What the render loop does first in this frame.
    pub fn begin_frame(&self) -> (r: FrameStep)
        ensures
            r == self.next_step(),
    {
        match self.state {
            FrameState::Stale => FrameStep::Rebuild,
            FrameState::Idle => FrameStep::Record,
            FrameState::Ready => FrameStep::Acquire,
        }
    }

    /// Notes that the swapchain was rebuilt with `image_count` images, and the pipeline,
    /// the framebuffers and the command buffers with it: the driver is ready.
    pub fn chain_rebuilt(&mut self, image_count: usize)
        requires
            old(self).wf(),
        ensures
            *final(self) == old(self).rebuilt(image_count),
            final(self).wf(),
            final(self).spec_state() == FrameState::Ready,
            final(self).spec_image_count() == image_count,
            final(self).spec_command_buffers() == image_count,
            final(self).spec_recorded_meshes() == old(self).spec_mesh_count(),
            final(self).spec_mesh_count() == old(self).spec_mesh_count(),
            final(self).spec_size() == old(self).spec_size(),
            final(self).spec_done() == old(self).spec_done(),
    {
        proof {
            old(self).lemma_transitions();
        }
        self.image_count = image_count;
        self.command_buffers = image_count;
        self.recorded_meshes = self.mesh_count;
        self.state = FrameState::Ready;
    }

    /// Takes the result of acquiring an image and returns the command buffer to submit. An
    /// out-of-date swapchain makes the driver stale, and nothing is submitted or presented;
    /// the swapchain and what is recorded stay until the next frame rebuilds them.
    pub fn image_acquired(&mut self, outcome: AcquireOutcome) -> (r: Option<usize>)
        requires
            old(self).wf(),
            old(self).spec_state() == FrameState::Ready,
            outcome matches AcquireOutcome::Acquired(i) ==> i < old(self).spec_image_count(),
        ensures
            *final(self) == old(self).after_acquire(outcome),
            final(self).wf(),
            match outcome {
                AcquireOutcome::Acquired(i) => r == Some(i) && *final(self) == *old(self),
                AcquireOutcome::OutOfDate => r is None && final(self).spec_state()
                    == FrameState::Stale,
            },
            final(self).spec_command_buffers() == old(self).spec_command_buffers(),
            final(self).spec_recorded_meshes() == old(self).spec_recorded_meshes(),
            final(self).spec_mesh_count() == old(self).spec_mesh_count(),
            final(self).spec_image_count() == old(self).spec_image_count(),
            final(self).spec_size() == old(self).spec_size(),
            final(self).spec_done() == old(self).spec_done(),
            r matches Some(i) ==> i < final(self).spec_command_buffers(),
    {
        proof {
            old(self).lemma_transitions();
        }
        match outcome {
            AcquireOutcome::Acquired(i) => Some(i),
            AcquireOutcome::OutOfDate => {
                self.state = FrameState::Stale;
                None
            },
        }
    }

    /// Takes the result of submitting and presenting a frame. An out-of-date swapchain makes
    /// the driver stale; any failure drops the frame and restarts the frame signal.
    pub fn frame_presented(&mut self, outcome: PresentOutcome) -> (r: FrameSync)
        requires
            old(self).wf(),
        ensures
            *final(self) == old(self).after_present(outcome),
            final(self).wf(),
            r == (if outcome == PresentOutcome::Presented {
                FrameSync::Chain
            } else {
                FrameSync::Restart
            }),
            outcome == PresentOutcome::OutOfDate ==> final(self).spec_state() == FrameState::Stale,
            outcome != PresentOutcome::OutOfDate ==> *final(self) == *old(self),
            final(self).spec_command_buffers() == old(self).spec_command_buffers(),
            final(self).spec_recorded_meshes() == old(self).spec_recorded_meshes(),
            final(self).spec_mesh_count() == old(self).spec_mesh_count(),
            final(self).spec_image_count() == old(self).spec_image_count(),
            final(self).spec_size() == old(self).spec_size(),
            final(self).spec_done() == old(self).spec_done(),
    {
        proof {
            old(self).lemma_transitions();
        }
        match outcome {
            PresentOutcome::Presented => FrameSync::Chain,
            PresentOutcome::OutOfDate => {
                self.state = FrameState::Stale;
                FrameSync::Restart
            },
            PresentOutcome::Failed => FrameSync::Restart,
        }
    }

    /// Takes the window events polled at the end of a frame. The loop is done when one of
    /// them asks to close; a resize to another size makes the driver stale, so that the next
    /// frame rebuilds the swapchain at the new size.
    pub fn window_events(&mut self, events: &Vec<WindowSignal>)
        requires
            old(self).wf(),
        ensures
            *final(self) == old(self).after_events(events@),
            final(self).wf(),
            final(self).spec_done() == close_requested(events@),
            final(self).spec_size() == size_after(events@, old(self).spec_size()),
            (forall|i: int| 0 <= i < events.len() ==> !(#[trigger] events@[i] is Resized))
                ==> final(self).spec_size() == old(self).spec_size(),
            final(self).spec_size() != old(self).spec_size() ==> final(self).spec_state()
                == FrameState::Stale,
            final(self).spec_size() == old(self).spec_size() ==> final(self).spec_state()
                == old(self).spec_state(),
            final(self).spec_command_buffers() == old(self).spec_command_buffers(),
            final(self).spec_recorded_meshes() == old(self).spec_recorded_meshes(),
            final(self).spec_mesh_count() == old(self).spec_mesh_count(),
            final(self).spec_image_count() == old(self).spec_image_count(),
    {
        let mut done = false;
        let mut size = (self.width, self.height);
        let mut i: usize = 0;
        while i < events.len()
            invariant
                i <= events.len(),
                done == close_requested(events@.subrange(0, i as int)),
                size == size_after(events@.subrange(0, i as int), (old(self).width, old(self).height)),
            decreases events.len() - i,
        {
            let ghost before = events@.subrange(0, i as int);
            let ghost after = events@.subrange(0, i as int + 1);
            assert(after.drop_last() =~= before);
            match events[i] {
                WindowSignal::CloseRequested => {
                    done = true;
                },
                WindowSignal::Resized(w, h) => {
                    size = (w, h);
                },
                WindowSignal::Other => {},
            }
            proof {
                if close_requested(after) && events@[i as int] != WindowSignal::CloseRequested {
                    let k = choose|k: int|
                        0 <= k < after.len() && #[trigger] after[k] == WindowSignal::CloseRequested;
                    assert(before[k] == after[k]);
                }
                if close_requested(before) {
                    let k = choose|k: int|
                        0 <= k < before.len() && #[trigger] before[k] == WindowSignal::CloseRequested;
                    assert(after[k] == before[k]);
                }
                if events@[i as int] == WindowSignal::CloseRequested {
                    assert(after[i as int] == WindowSignal::CloseRequested);
                }
            }
            i = i + 1;
        }
        assert(events@.subrange(0, events.len() as int) =~= events@);
        proof {
            if forall|i: int| 0 <= i < events.len() ==> !(#[trigger] events@[i] is Resized) {
                lemma_size_without_resize(events@, (old(self).width, old(self).height));
            }
        }
        self.done = done;
        if size.0 != self.width || size.1 != self.height {
            self.width = size.0;
            self.height = size.1;
            self.state = FrameState::Stale;
        }
    }
}

/// One frame after meshes are registered and recorded: a driver that is not waiting for a
/// rebuild, given one more mesh and a recording, acquires an image; when that image is
/// acquired, the frame is presented and the window reports no resize, the driver ends the
/// frame ready, with one command buffer per swapchain image drawing every registered mesh.
pub proof fn lemma_frame_after_recording(
    d: FrameDriver,
    image: usize,
    events: Seq<WindowSignal>,
)
    requires
        d.wf(),
        d.spec_state() != FrameState::Stale,
        d.spec_mesh_count() < usize::MAX,
        image < d.spec_image_count(),
        forall|i: int| 0 <= i < events.len() ==> !(#[trigger] events[i] is Resized),
    ensures
        ({
            let r = d.with_mesh().recorded();
            let e = r.after_acquire(AcquireOutcome::Acquired(image)).after_present(
                PresentOutcome::Presented,
            ).after_events(events);
            &&& r.next_step() == FrameStep::Acquire
            &&& e.wf()
            &&& e.spec_state() == FrameState::Ready
            &&& e.spec_command_buffers() == e.spec_image_count()
            &&& e.spec_image_count() == d.spec_image_count()
            &&& e.spec_mesh_count() == d.spec_mesh_count() + 1
            &&& e.spec_recorded_meshes() == e.spec_mesh_count()
            &&& e.spec_done() == close_requested(events)
        }),
{
    d.lemma_transitions();
    let m = d.with_mesh();
    m.lemma_transitions();
    let r = m.recorded();
    lemma_size_without_resize(events, (r.width, r.height));
}

/// An out-of-date acquire makes a ready driver stale without touching what it recorded or
/// its swapchain; the next frame rebuilds before drawing, and after the rebuild the driver
/// is ready again with one command buffer per new image.
pub proof fn lemma_out_of_date_acquire(d: FrameDriver, image_count: usize)
    requires
        d.wf(),
        d.spec_state() == FrameState::Ready,
    ensures
        ({
            let s = d.after_acquire(AcquireOutcome::OutOfDate);
            let b = s.rebuilt(image_count);
            &&& s.wf()
            &&& s.spec_state() == FrameState::Stale
            &&& s.spec_command_buffers() == d.spec_command_buffers()
            &&& s.spec_recorded_meshes() == d.spec_recorded_meshes()
            &&& s.spec_image_count() == d.spec_image_count()
            &&& s.next_step() == FrameStep::Rebuild
            &&& s.recorded() == s
            &&& b.wf()
            &&& b.spec_state() == FrameState::Ready
            &&& b.spec_command_buffers() == image_count
            &&& b.spec_recorded_meshes() == d.spec_mesh_count()
            &&& b.next_step() == FrameStep::Acquire
        }),
{
    d.lemma_transitions();
    let s = d.after_acquire(AcquireOutcome::OutOfDate);
    s.lemma_transitions();
}

/// A mesh registered after recording invalidates the recording: the driver is idle with
/// nothing recorded, so the next frame records again, and that recording draws every mesh,
/// the new one included, before an image is acquired.
pub proof fn lemma_register_after_record(d: FrameDriver)
    requires
        d.wf(),
        d.spec_state() == FrameState::Ready,
        d.spec_mesh_count() < usize::MAX,
    ensures
        ({
            let m = d.with_mesh();
            let r = m.recorded();
            &&& m.wf()
            &&& m.spec_state() == FrameState::Idle
            &&& m.spec_command_buffers() == 0
            &&& m.next_step() == FrameStep::Record
            &&& r.wf()
            &&& r.spec_state() == FrameState::Ready
            &&& r.spec_command_buffers() == d.spec_image_count()
            &&& r.spec_recorded_meshes() == d.spec_mesh_count() + 1
            &&& r.next_step() == FrameStep::Acquire
        }),
{
    d.lemma_transitions();
    d.with_mesh().lemma_transitions();
}

} // verus!
