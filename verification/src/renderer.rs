//! The frame pipeline controller: a bounded ring of in-flight frame slots,
//! an image-in-use table, and the per-frame protocol of
//! wait, acquire, record, submit, present, advance.
//!
//! The device executes submitted work asynchronously. The controller never
//! reads device state directly: the host blocks on a slot's completion fence
//! and this model records the observation, and the surface's answers to
//! acquire and present requests enter the model as [`AcquireOutcome`] and
//! [`PresentOutcome`] values. Everything the protocol decides — which slot a
//! frame uses, when an image's previous writer must be waited for, when the
//! surface must be recreated, and in which order resources are torn down —
//! is verified here over those observations.

pub mod shader;
pub mod swapchain;
pub mod utility;
pub mod vkcontext;

use vstd::prelude::*;
use vstd::arithmetic::div_mod::{lemma_add_mod_noop, lemma_mod_bound, lemma_small_mod};

verus! {

/// How many frames may be in flight at once: the size N of the slot ring.
pub const MAX_FRAMES_IN_FLIGHT: u32 = 2;

/// The surface's answer to a request for the next presentable image.
pub enum AcquireOutcome {
    /// The index of the image that will become available.
    Image(usize),
    /// The surface no longer matches the true output configuration; it must
    /// be recreated before any further acquire.
    Stale,
}

/// The surface's answer to a request to display an image.
pub enum PresentOutcome {
    Presented,
    /// The surface went stale; the frame's content is discarded from
    /// display, which is not an error.
    Stale,
}

/// Where the controller stands inside the current frame.
pub enum Phase {
    /// Between frames.
    Idle,
    /// An image was acquired; the frame is being recorded.
    Acquired,
    /// Work was submitted; the presentation request is outstanding.
    Submitted,
}

/// One entry of the submission history: the k-th submitted frame used
/// `slot` and wrote the surface image `image`.
pub struct SubmitRecord {
    pub slot: usize,
    pub image: usize,
}

/// What the caller needs to hand the device for one submission: the slot
/// whose work buffer, signals and completion fence the frame used, and the
/// surface image the submitted work writes.
pub struct SubmitTicket {
    pub slot: usize,
    pub image: usize,
}

/// A resource owned by the pipeline, for the teardown model.
pub enum ResourceKind {
    WorkBuffer,
    AcquireSignal,
    SubmitSignal,
    CompletionFence,
    Surface,
}

pub struct ResourceId {
    pub kind: ResourceKind,
    pub index: int,
}

/// The slot of the latest record that wrote `image`, if any.
pub open spec fn last_writer(log: Seq<SubmitRecord>, image: usize) -> Option<usize>
    decreases log.len(),
{
    if log.len() == 0 {
        None
    } else if log.last().image == image {
        Some(log.last().slot)
    } else {
        last_writer(log.drop_last(), image)
    }
}

/// The p-th resource released at shutdown, for a ring of n slots:
/// command-recording resources first, then the ordering signals, then the
/// completion fences, then the surface — the reverse of acquisition order.
pub open spec fn nth_teardown(n: int, p: int) -> ResourceId {
    if p < n {
        ResourceId { kind: ResourceKind::WorkBuffer, index: p }
    } else if p < 2 * n {
        ResourceId { kind: ResourceKind::AcquireSignal, index: p - n }
    } else if p < 3 * n {
        ResourceId { kind: ResourceKind::SubmitSignal, index: p - 2 * n }
    } else if p < 4 * n {
        ResourceId { kind: ResourceKind::CompletionFence, index: p - 3 * n }
    } else {
        ResourceId { kind: ResourceKind::Surface, index: 0 }
    }
}

/// The full teardown sequence for a ring of n slots.
pub open spec fn teardown_order(n: int) -> Seq<ResourceId> {
    Seq::new((4 * n + 1) as nat, |p: int| nth_teardown(n, p))
}

/// The controller's state as the contracts see it.
pub struct PipelineModel {
    pub slot_count: usize,
    pub image_count: usize,
    pub current_slot: usize,
    pub surface_dirty: bool,
    pub phase: Phase,
    pub acquired_image: usize,
    /// Per slot: the completion fence was reset for a submission that the
    /// host has not yet observed finished.
    pub fence_pending: Seq<bool>,
    /// Per image: the slot whose completion fence guards the image's last
    /// submitted write, within the current surface generation.
    pub image_in_use: Seq<Option<usize>>,
    pub shut_down: bool,
    /// Every submission ever issued, across surface generations.
    pub submits: Seq<SubmitRecord>,
    /// How many submissions preceded the current surface generation.
    pub generation_base: int,
    /// The resources released so far, in release order.
    pub released: Seq<ResourceId>,
}

impl PipelineModel {
    pub open spec fn wf(self) -> bool {
        &&& 1 <= self.slot_count
        &&& 1 <= self.image_count
        &&& self.fence_pending.len() == self.slot_count
        &&& self.image_in_use.len() == self.image_count
        &&& self.current_slot < self.slot_count
        &&& self.current_slot as int == self.submits.len() as int % self.slot_count as int
        &&& 0 <= self.generation_base <= self.submits.len()
        &&& (forall|k: int|
            0 <= k < self.submits.len() ==> (#[trigger] self.submits[k]).slot as int == k
                % self.slot_count as int)
        &&& (forall|k: int|
            self.generation_base <= k < self.submits.len() ==> (
            #[trigger] self.submits[k]).image < self.image_count)
        &&& (forall|i: int|
            0 <= i < self.image_count ==> #[trigger] self.image_in_use[i] == last_writer(
                self.submits.skip(self.generation_base),
                i as usize,
            ))
        &&& (forall|i: int|
            0 <= i < self.image_count && self.image_in_use[i] is Some
                ==> (#[trigger] self.image_in_use[i]).unwrap() < self.slot_count)
        &&& ((self.phase is Acquired || self.phase is Submitted) ==> self.acquired_image
            < self.image_count)
        &&& (self.phase is Acquired ==> !self.fence_pending[self.current_slot as int])
        &&& ((self.phase is Acquired || self.phase is Submitted) ==> !self.shut_down)
        &&& (self.shut_down ==> self.phase is Idle)
        &&& (self.shut_down ==> self.released == teardown_order(self.slot_count as int))
        &&& (!self.shut_down ==> self.released == Seq::<ResourceId>::empty())
    }

    /// A new frame may be prepared: between frames, surface current, alive.
    pub open spec fn can_prepare(self) -> bool {
        &&& self.phase is Idle
        &&& !self.surface_dirty
        &&& !self.shut_down
    }

    /// Work for the acquired image may be submitted: the image's previous
    /// writer, if any, has been observed finished.
    pub open spec fn can_submit(self) -> bool {
        &&& self.phase is Acquired
        &&& match self.image_in_use[self.acquired_image as int] {
            Some(s) => !self.fence_pending[s as int],
            None => true,
        }
    }
}

pub struct FramePipeline {
    slot_count: usize,
    image_count: usize,
    current_slot: usize,
    surface_dirty: bool,
    phase: Phase,
    acquired_image: usize,
    fence_pending: Vec<bool>,
    image_in_use: Vec<Option<usize>>,
    shut_down: bool,
    submit_history: Ghost<Seq<SubmitRecord>>,
    generation_base: Ghost<int>,
    release_history: Ghost<Seq<ResourceId>>,
}

impl View for FramePipeline {
    type V = PipelineModel;

    closed spec fn view(&self) -> PipelineModel {
        PipelineModel {
            slot_count: self.slot_count,
            image_count: self.image_count,
            current_slot: self.current_slot,
            surface_dirty: self.surface_dirty,
            phase: self.phase,
            acquired_image: self.acquired_image,
            fence_pending: self.fence_pending@,
            image_in_use: self.image_in_use@,
            shut_down: self.shut_down,
            submits: self.submit_history@,
            generation_base: self.generation_base@,
            released: self.release_history@,
        }
    }
}

impl FramePipeline {
    /// Sets up a ring of `slot_count` slots over a surface of `image_count`
    /// images. All completion fences start signalled and no image is in use.
    pub fn new(slot_count: usize, image_count: usize) -> (r: Self)
        requires
            1 <= slot_count,
            1 <= image_count,
        ensures
            r@.wf(),
            r@.slot_count == slot_count,
            r@.image_count == image_count,
            r@.current_slot == 0,
            !r@.surface_dirty,
            r@.phase is Idle,
            !r@.shut_down,
            r@.submits == Seq::<SubmitRecord>::empty(),
            r@.generation_base == 0,
            forall|s: int| 0 <= s < slot_count ==> !(#[trigger] r@.fence_pending[s]),
            forall|i: int| 0 <= i < image_count ==> (#[trigger] r@.image_in_use[i]) is None,
    {
        let fence_pending = all_false(slot_count);
        let image_in_use = all_none(image_count);
        let r = FramePipeline {
            slot_count,
            image_count,
            current_slot: 0,
            surface_dirty: false,
            phase: Phase::Idle,
            acquired_image: 0,
            fence_pending,
            image_in_use,
            shut_down: false,
            submit_history: Ghost(Seq::empty()),
            generation_base: Ghost(0),
            release_history: Ghost(Seq::empty()),
        };
        proof {
            lemma_small_mod(0, slot_count as nat);
            assert(r@.submits.skip(0) =~= Seq::<SubmitRecord>::empty());
        }
        r
    }

    pub fn slot_count(&self) -> (r: usize)
        ensures
            r == self@.slot_count,
    {
        self.slot_count
    }

    pub fn image_count(&self) -> (r: usize)
        ensures
            r == self@.image_count,
    {
        self.image_count
    }

    /// The slot the next frame will use; its completion fence is the one the
    /// host must block on before preparing that frame.
    pub fn current_slot(&self) -> (r: usize)
        ensures
            r == self@.current_slot,
    {
        self.current_slot
    }

    /// The image the current frame writes.
    pub fn current_image_index(&self) -> (r: usize)
        requires
            self@.phase is Acquired || self@.phase is Submitted,
        ensures
            r == self@.acquired_image,
    {
        self.acquired_image
    }

    /// True when the surface must be recreated before any further acquire.
    pub fn needs_recreate(&self) -> (r: bool)
        ensures
            r == self@.surface_dirty,
    {
        self.surface_dirty
    }

    /// Records the external notice that the output was resized: the surface
    /// no longer matches it and is dirty.
    pub fn note_resized(&mut self)
        requires
            old(self)@.wf(),
        ensures
            final(self)@.wf(),
            final(self)@ == (PipelineModel { surface_dirty: true, ..old(self)@ }),
    {
        self.surface_dirty = true;
    }

    /// Replaces the surface generation: to be called only after the device
    /// was confirmed idle with respect to every image of the old generation
    /// (the caller performs that blocking idle wait, which also means no
    /// completion fence is still pending). Rebuilds the image table for the
    /// new image count and clears the dirty flag.
    pub fn recreate(&mut self, image_count: usize)
        requires
            old(self)@.wf(),
            old(self)@.surface_dirty,
            old(self)@.phase is Idle,
            !old(self)@.shut_down,
            1 <= image_count,
        ensures
            final(self)@.wf(),
            final(self)@.can_prepare(),
            final(self)@ == (PipelineModel {
                image_count: image_count,
                surface_dirty: false,
                fence_pending: Seq::new(old(self)@.slot_count as nat, |s: int| false),
                image_in_use: Seq::new(image_count as nat, |i: int| None::<usize>),
                generation_base: old(self)@.submits.len() as int,
                ..old(self)@
            }),
    {
        self.image_count = image_count;
        self.surface_dirty = false;
        self.fence_pending = all_false(self.slot_count);
        self.image_in_use = all_none(image_count);
        self.generation_base = Ghost(self.submit_history@.len() as int);
        proof {
            assert(self.fence_pending@ =~= Seq::new(old(self)@.slot_count as nat, |s: int| false));
            assert(self.image_in_use@ =~= Seq::new(image_count as nat, |i: int| None::<usize>));
            assert(self@.submits.skip(self@.generation_base) =~= Seq::<SubmitRecord>::empty());
        }
    }

    /// One frame's wait and acquire steps. The host has blocked on the
    /// current slot's completion fence (so that slot's previous work is
    /// finished and its fence may later be reset) and then asked the surface
    /// for the next image; `acquired` is the surface's answer. On `Stale`
    /// the frame is skipped wholesale — the dirty flag is set and nothing is
    /// submitted or presented this tick — and the result is true.
    pub fn prepare_frame(&mut self, acquired: AcquireOutcome) -> (skip: bool)
        requires
            old(self)@.wf(),
            old(self)@.can_prepare(),
            acquired matches AcquireOutcome::Image(i) ==> i < old(self)@.image_count,
        ensures
            final(self)@.wf(),
            final(self)@.fence_pending == old(self)@.fence_pending.update(
                old(self)@.current_slot as int,
                false,
            ),
            match acquired {
                AcquireOutcome::Image(i) => {
                    &&& !skip
                    &&& final(self)@ == (PipelineModel {
                        phase: Phase::Acquired,
                        acquired_image: i,
                        fence_pending: final(self)@.fence_pending,
                        ..old(self)@
                    })
                },
                AcquireOutcome::Stale => {
                    &&& skip
                    &&& final(self)@ == (PipelineModel {
                        surface_dirty: true,
                        fence_pending: final(self)@.fence_pending,
                        ..old(self)@
                    })
                },
            },
    {
        self.fence_pending.set(self.current_slot, false);
        match acquired {
            AcquireOutcome::Image(i) => {
                self.acquired_image = i;
                self.phase = Phase::Acquired;
                false
            },
            AcquireOutcome::Stale => {
                self.surface_dirty = true;
                true
            },
        }
    }

    /// The reuse check: the slot whose completion fence still guards the
    /// acquired image, when that fence has not yet been observed signalled.
    /// The host must block on that fence — whichever slot owns it — before
    /// the image's resources are written again.
    pub fn image_fence_to_wait(&self) -> (r: Option<usize>)
        requires
            self@.wf(),
            self@.phase is Acquired,
        ensures
            r == match self@.image_in_use[self@.acquired_image as int] {
                Some(s) => if self@.fence_pending[s as int] {
                    Some(s)
                } else {
                    None::<usize>
                },
                None => None::<usize>,
            },
            r is None ==> self@.can_submit(),
    {
        match self.image_in_use[self.acquired_image] {
            Some(s) => {
                if self.fence_pending[s] {
                    Some(s)
                } else {
                    None
                }
            },
            None => None,
        }
    }

    /// Records that the host blocked on the fence named by
    /// [`Self::image_fence_to_wait`] until it signalled.
    pub fn note_image_fence_signalled(&mut self)
        requires
            old(self)@.wf(),
            old(self)@.phase is Acquired,
        ensures
            final(self)@.wf(),
            final(self)@.can_submit(),
            final(self)@ == (PipelineModel {
                fence_pending: final(self)@.fence_pending,
                ..old(self)@
            }),
            final(self)@.fence_pending == match old(self)@.image_in_use[old(
                self,
            )@.acquired_image as int] {
                Some(s) => old(self)@.fence_pending.update(s as int, false),
                None => old(self)@.fence_pending,
            },
    {
        match self.image_in_use[self.acquired_image] {
            Some(s) => {
                self.fence_pending.set(s, false);
            },
            None => {},
        }
    }

    /// The submit and table-update steps. The current slot's fence is reset
    /// and handed to the device with the work (so it becomes pending), the
    /// image-in-use table is pointed at the current slot, the submission is
    /// logged, and the ring advances. The returned ticket names the slot
    /// whose buffer, signals and fence the caller must pass to the device:
    /// the submitted work waits on the slot's acquire signal and signals its
    /// submit-complete signal and completion fence.
    pub fn submit_frame(&mut self) -> (t: SubmitTicket)
        requires
            old(self)@.wf(),
            old(self)@.can_submit(),
        ensures
            final(self)@.wf(),
            t.slot == old(self)@.current_slot,
            t.image == old(self)@.acquired_image,
            final(self)@ == (PipelineModel {
                current_slot: final(self)@.current_slot,
                phase: Phase::Submitted,
                fence_pending: old(self)@.fence_pending.update(
                    old(self)@.current_slot as int,
                    true,
                ),
                image_in_use: old(self)@.image_in_use.update(
                    old(self)@.acquired_image as int,
                    Some(old(self)@.current_slot),
                ),
                submits: old(self)@.submits.push(
                    SubmitRecord { slot: old(self)@.current_slot, image: old(self)@.acquired_image },
                ),
                ..old(self)@
            }),
            final(self)@.current_slot as int == (old(self)@.current_slot + 1) as int % old(
                self,
            )@.slot_count as int,
    {
        let ticket = SubmitTicket { slot: self.current_slot, image: self.acquired_image };
        self.fence_pending.set(self.current_slot, true);
        self.image_in_use.set(self.acquired_image, Some(self.current_slot));
        proof {
            self.submit_history@ = self.submit_history@.push(
                SubmitRecord { slot: self.current_slot, image: self.acquired_image },
            );
        }
        self.phase = Phase::Submitted;
        self.current_slot = (self.current_slot + 1) % self.slot_count;
        proof {
            lemma_submit_preserves_wf(old(self)@, self@);
        }
        ticket
    }

    /// The present step's outcome: on `Stale` the surface is marked dirty,
    /// so the next tick recreates it before acquiring; the already submitted
    /// work is never re-attempted. The frame is complete either way.
    pub fn finish_frame(&mut self, present: PresentOutcome)
        requires
            old(self)@.wf(),
            old(self)@.phase is Submitted,
        ensures
            final(self)@.wf(),
            final(self)@ == (PipelineModel {
                phase: Phase::Idle,
                surface_dirty: old(self)@.surface_dirty || present is Stale,
                ..old(self)@
            }),
    {
        match present {
            PresentOutcome::Stale => {
                self.surface_dirty = true;
            },
            PresentOutcome::Presented => {},
        }
        self.phase = Phase::Idle;
    }

    /// Tears the pipeline down. The caller has forced the device to finish
    /// all outstanding work (a blocking idle wait) — destruction therefore
    /// races with nothing, and every slot's resources are released exactly
    /// once, in the reverse of acquisition order: work buffers, then
    /// acquire signals, then submit-complete signals, then completion
    /// fences, then the surface.
    pub fn shutdown(&mut self)
        requires
            old(self)@.wf(),
            old(self)@.phase is Idle,
            !old(self)@.shut_down,
        ensures
            final(self)@.wf(),
            final(self)@ == (PipelineModel {
                shut_down: true,
                fence_pending: Seq::new(old(self)@.slot_count as nat, |s: int| false),
                released: teardown_order(old(self)@.slot_count as int),
                ..old(self)@
            }),
    {
        self.fence_pending = all_false(self.slot_count);
        self.shut_down = true;
        proof {
            self.release_history@ = teardown_order(self.slot_count as int);
            assert(self.fence_pending@ =~= Seq::new(old(self)@.slot_count as nat, |s: int| false));
        }
    }
}

fn all_false(n: usize) -> (r: Vec<bool>)
    ensures
        r@.len() == n,
        forall|j: int| 0 <= j < n ==> !(#[trigger] r@[j]),
{
    let mut v: Vec<bool> = Vec::new();
    let mut i: usize = 0;
    while i < n
        invariant
            i <= n,
            v@.len() == i,
            forall|j: int| 0 <= j < i ==> !(#[trigger] v@[j]),
        decreases n - i,
    {
        v.push(false);
        i = i + 1;
    }
    v
}

fn all_none(n: usize) -> (r: Vec<Option<usize>>)
    ensures
        r@.len() == n,
        forall|j: int| 0 <= j < n ==> (#[trigger] r@[j]) is None,
{
    let mut v: Vec<Option<usize>> = Vec::new();
    let mut i: usize = 0;
    while i < n
        invariant
            i <= n,
            v@.len() == i,
            forall|j: int| 0 <= j < i ==> (#[trigger] v@[j]) is None,
        decreases n - i,
    {
        v.push(None);
        i = i + 1;
    }
    v
}

/// Appending a record leaves every other image's last writer unchanged and
/// makes the record's slot the last writer of the record's image.
proof fn lemma_last_writer_push(log: Seq<SubmitRecord>, rec: SubmitRecord, image: usize)
    ensures
        last_writer(log.push(rec), image) == if rec.image == image {
            Some(rec.slot)
        } else {
            last_writer(log, image)
        },
{
    assert(log.push(rec).drop_last() =~= log);
    assert(log.push(rec).last() == rec);
}

proof fn lemma_submit_preserves_wf(pre: PipelineModel, post: PipelineModel)
    requires
        pre.wf(),
        pre.can_submit(),
        post == (PipelineModel {
            current_slot: post.current_slot,
            phase: Phase::Submitted,
            fence_pending: pre.fence_pending.update(pre.current_slot as int, true),
            image_in_use: pre.image_in_use.update(
                pre.acquired_image as int,
                Some(pre.current_slot),
            ),
            submits: pre.submits.push(
                SubmitRecord { slot: pre.current_slot, image: pre.acquired_image },
            ),
            ..pre
        }),
        post.current_slot as int == (pre.current_slot + 1) as int % pre.slot_count as int,
    ensures
        post.wf(),
{
    let n = pre.slot_count as int;
    let rec = SubmitRecord { slot: pre.current_slot, image: pre.acquired_image };
    lemma_mod_bound((pre.current_slot + 1) as int, n);
    lemma_add_mod_noop(pre.submits.len() as int, 1, n);
    if n == 1 {
        lemma_small_mod(0, n as nat);
    } else {
        lemma_small_mod(1, n as nat);
    }
    assert(post.current_slot as int == post.submits.len() as int % n);
    assert(post.submits.skip(pre.generation_base) =~= pre.submits.skip(pre.generation_base).push(
        rec,
    ));
    assert forall|i: int| 0 <= i < post.image_count implies #[trigger] post.image_in_use[i]
        == last_writer(post.submits.skip(post.generation_base), i as usize) by {
        lemma_last_writer_push(pre.submits.skip(pre.generation_base), rec, i as usize);
    }
}

/// Ring cycling: however many images the surface exposes, the k-th submitted
/// frame always used slot k mod N — the ring hands slots out round robin.
pub proof fn lemma_ring_cycling(p: &FramePipeline)
    requires
        p@.wf(),
    ensures
        forall|k: int|
            0 <= k < p@.submits.len() ==> (#[trigger] p@.submits[k]).slot as int == k
                % p@.slot_count as int,
{
}

/// No premature reuse: whenever the protocol is about to submit work that
/// writes the acquired image, the completion fence recorded for that image's
/// previous write — by whichever slot issued it — has been observed
/// signalled, so the device no longer uses the image's resources.
pub proof fn lemma_no_premature_reuse(p: &FramePipeline)
    requires
        p@.wf(),
        p@.can_submit(),
    ensures
        match last_writer(p@.submits.skip(p@.generation_base), p@.acquired_image) {
            Some(s) => s < p@.slot_count && !p@.fence_pending[s as int],
            None => true,
        },
{
}

/// Staleness propagates to recreation: while the surface is dirty no frame
/// can be prepared, and [`FramePipeline::recreate`] is the only transition
/// that clears the flag — so after an acquire or present reported `Stale`,
/// the surface is recreated before the next acquire.
pub proof fn lemma_stale_blocks_acquire(p: &FramePipeline)
    requires
        p@.wf(),
        p@.surface_dirty,
    ensures
        !p@.can_prepare(),
{
}

/// After teardown nothing runs: a shut-down pipeline can neither prepare a
/// new frame nor submit one, so no released resource is ever touched again.
pub proof fn lemma_shutdown_is_final(p: &FramePipeline)
    requires
        p@.wf(),
        p@.shut_down,
    ensures
        !p@.can_prepare(),
        !p@.can_submit(),
{
}

/// Idempotent shutdown ordering: the teardown sequence releases each of the
/// N slots' resources and the surface exactly once — no double free, no
/// resource left behind — in the reverse of acquisition order.
pub proof fn lemma_teardown_releases_each_once(n: int)
    requires
        1 <= n,
    ensures
        teardown_order(n).no_duplicates(),
        forall|p: int|
            0 <= p < teardown_order(n).len() ==> !((#[trigger] teardown_order(n)[p]).kind
                is Surface) ==> 0 <= teardown_order(n)[p].index < n,
        forall|i: int|
            0 <= i < n ==> teardown_order(n).contains(
                ResourceId { kind: ResourceKind::WorkBuffer, index: i },
            ),
        forall|i: int|
            0 <= i < n ==> teardown_order(n).contains(
                ResourceId { kind: ResourceKind::AcquireSignal, index: i },
            ),
        forall|i: int|
            0 <= i < n ==> teardown_order(n).contains(
                ResourceId { kind: ResourceKind::SubmitSignal, index: i },
            ),
        forall|i: int|
            0 <= i < n ==> teardown_order(n).contains(
                ResourceId { kind: ResourceKind::CompletionFence, index: i },
            ),
        teardown_order(n).contains(ResourceId { kind: ResourceKind::Surface, index: 0 }),
{
    let s = teardown_order(n);
    assert forall|i: int| 0 <= i < n implies s.contains(
        ResourceId { kind: ResourceKind::WorkBuffer, index: i },
    ) by {
        assert(s[i] == ResourceId { kind: ResourceKind::WorkBuffer, index: i });
    }
    assert forall|i: int| 0 <= i < n implies s.contains(
        ResourceId { kind: ResourceKind::AcquireSignal, index: i },
    ) by {
        assert(s[n + i] == ResourceId { kind: ResourceKind::AcquireSignal, index: i });
    }
    assert forall|i: int| 0 <= i < n implies s.contains(
        ResourceId { kind: ResourceKind::SubmitSignal, index: i },
    ) by {
        assert(s[2 * n + i] == ResourceId { kind: ResourceKind::SubmitSignal, index: i });
    }
    assert forall|i: int| 0 <= i < n implies s.contains(
        ResourceId { kind: ResourceKind::CompletionFence, index: i },
    ) by {
        assert(s[3 * n + i] == ResourceId { kind: ResourceKind::CompletionFence, index: i });
    }
    assert(s[4 * n] == ResourceId { kind: ResourceKind::Surface, index: 0 });
    assert(s.contains(ResourceId { kind: ResourceKind::Surface, index: 0 }));
}

} // verus!
