//! Per-resource end-state records.
//!
//! After each execution the external execution-compilation stage records, per
//! buffer and per image (sub)resource range, the state the execution left the
//! resource in: the device queue that last had ownership, whether writes have
//! been made available to the host memory domain, and — for images — the
//! layout. The next compilation reads these records to decide what barriers
//! and ownership transfers are required.
//!
//! Device-domain availability and visibility are deliberately not tracked: a
//! submission boundary (fence or semaphore signal) already makes all prior
//! writes available to every device stage. Host availability is the one
//! exception and is tracked explicitly.
//!
//! Whether a record stands for a whole resource or for a subresource range is
//! determined by the context supplying the record, not by the record type.

use vstd::prelude::*;

verus! {

/// The layout an image (sub)resource is in, gating which operations may
/// legally access it.
#[derive(Clone, Copy, PartialEq, Eq, Structural, Debug)]
pub enum ImageLayout {
    /// The initial layout of a freshly created image; its contents are
    /// undefined.
    Undefined,
    /// Usable by every operation, rarely optimal for any.
    General,
    ColorAttachmentOptimal,
    DepthStencilAttachmentOptimal,
    ShaderReadOnlyOptimal,
    TransferSrcOptimal,
    TransferDstOptimal,
    /// Host-written data made directly consumable without a transition.
    Preinitialized,
}

impl Default for ImageLayout {
    /// An image starts in the undefined layout.
    fn default() -> (r: Self)
        ensures
            r == ImageLayout::Undefined,
    {
        ImageLayout::Undefined
    }
}

/// Describes the state of a buffer range after an execution.
#[derive(Clone, Copy, PartialEq, Eq, Debug)]
pub struct BufferEndState {
    /// True iff the buffer's writes have been made available to the host
    /// memory domain.
    pub host_available: bool,
    /// The device queue that last had ownership, or `None` if ownership has
    /// never been transferred or is undefined.
    pub queue: Option<u32>,
}

impl Default for BufferEndState {
    /// Before the first execution touching the resource: not host available,
    /// no recorded owning queue.
    fn default() -> (r: Self)
        ensures
            !r.host_available,
            r.queue is None,
    {
        BufferEndState { host_available: false, queue: None }
    }
}

impl BufferEndState {
    /// Records the outcome of one execution: `host_flushed` says whether the
    /// operation is known to have made its writes visible to host memory
    /// (further unflushed device writes record `false` again), and
    /// `queue_transfer` the queue ownership was moved to, if it was. The
    /// owning queue is untouched unless ownership was transferred.
    pub fn apply_execution(&mut self, host_flushed: bool, queue_transfer: Option<u32>)
        ensures
            final(self).host_available == host_flushed,
            final(self).queue == (match queue_transfer {
                Some(q) => Some(q),
                None => old(self).queue,
            }),
    {
        self.host_available = host_flushed;
        if let Some(q) = queue_transfer {
            self.queue = Some(q);
        }
    }
}

/// Describes the state of an image subresource range after an execution.
///
/// Identical to [`BufferEndState`] but for the layout, which images carry
/// and buffers do not.
#[derive(Clone, Copy, PartialEq, Eq, Debug)]
pub struct ImageEndState {
    /// True iff the image's writes have been made available to the host
    /// memory domain.
    pub host_available: bool,
    /// The layout the last execution left the (sub)resource in.
    pub layout: ImageLayout,
    /// The device queue that last had ownership, or `None` if ownership has
    /// never been transferred or is undefined.
    pub queue: Option<u32>,
}

impl Default for ImageEndState {
    /// Before the first execution touching the resource: not host available,
    /// no recorded owning queue, undefined layout.
    fn default() -> (r: Self)
        ensures
            !r.host_available,
            r.layout == ImageLayout::Undefined,
            r.queue is None,
    {
        ImageEndState { host_available: false, layout: ImageLayout::Undefined, queue: None }
    }
}

impl ImageEndState {
    /// Records the outcome of one execution, as for
    /// [`BufferEndState::apply_execution`]; additionally `layout_transition`
    /// is the layout the operation left the (sub)resource in, if it moved it.
    /// Layout and owning queue are untouched unless the operation changed
    /// them, whatever it did to host availability.
    pub fn apply_execution(
        &mut self,
        host_flushed: bool,
        queue_transfer: Option<u32>,
        layout_transition: Option<ImageLayout>,
    )
        ensures
            final(self).host_available == host_flushed,
            final(self).queue == (match queue_transfer {
                Some(q) => Some(q),
                None => old(self).queue,
            }),
            final(self).layout == (match layout_transition {
                Some(l) => l,
                None => old(self).layout,
            }),
    {
        self.host_available = host_flushed;
        if let Some(q) = queue_transfer {
            self.queue = Some(q);
        }
        if let Some(l) = layout_transition {
            self.layout = l;
        }
    }
}

} // verus!
