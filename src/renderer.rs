//! The per-frame state of the renderer: the queue of pending instances, the
//! capacity of the instance buffer, and what each draw uploads and issues.

use vstd::prelude::*;

use crate::geometry::QUAD_VERTEX_COUNT;
use crate::layout::INSTANCE_RECORD_SIZE;

verus! {

/// Instance records the default instance buffer holds.
pub const DEFAULT_INSTANCE_CAPACITY: u64 = 64;

/// Bytes of the default instance buffer.
pub const DEFAULT_CAPACITY_BYTES: u64 = DEFAULT_INSTANCE_CAPACITY * INSTANCE_RECORD_SIZE;

/// The largest instance buffer a renderer accepts: one whose record count
/// still fits the `u32` instance range of a draw call.
pub const MAX_CAPACITY_BYTES: u64 = 4294967295 * INSTANCE_RECORD_SIZE;

/// Why a frame could not be drawn.
#[derive(Clone, Copy, Debug, PartialEq, Eq, Structural)]
pub enum RenderError {
    /// The queued records need more bytes than the instance buffer holds.
    CapacityExceeded,
}

/// A copy of encoded instance records into the instance buffer.
#[derive(Clone, Copy, Debug, PartialEq, Eq, Structural)]
pub struct Upload {
    /// Byte offset in the instance buffer.
    pub offset: u64,
    /// Number of bytes written.
    pub size: u64,
}

/// One instanced draw: a vertex range of the geometry replicated over an
/// instance range.
#[derive(Clone, Copy, Debug, PartialEq, Eq, Structural)]
pub struct DrawCall {
    pub first_vertex: u32,
    pub vertex_count: u32,
    pub first_instance: u32,
    pub instance_count: u32,
}

/// What one frame does: the instances to encode, in queue order, the upload of
/// their records, and the draw that reads them. No upload and no draw where
/// nothing was queued.
pub struct Frame<T> {
    pub instances: Vec<T>,
    pub upload: Option<Upload>,
    pub draw: Option<DrawCall>,
}

/// Whether `n` instance records fit in a buffer of `capacity` bytes.
pub open spec fn fits(n: nat, capacity: nat) -> bool {
    n * INSTANCE_RECORD_SIZE <= capacity
}

/// The upload for `n` records: all their bytes, at offset 0, and none for zero.
pub open spec fn upload_for(n: nat) -> Option<Upload> {
    if n == 0 {
        None
    } else {
        Some(Upload { offset: 0, size: (n * INSTANCE_RECORD_SIZE) as u64 })
    }
}

/// The draw for `n` instances: the whole quad over instances `[0, n)`, and none
/// for zero.
pub open spec fn draw_for(n: nat) -> Option<DrawCall> {
    if n == 0 {
        None
    } else {
        Some(
            DrawCall {
                first_vertex: 0,
                vertex_count: QUAD_VERTEX_COUNT,
                first_instance: 0,
                instance_count: n as u32,
            },
        )
    }
}

/// The instances a planned draw renders.
pub open spec fn instances_drawn(d: Option<DrawCall>) -> nat {
    match d {
        Some(c) => c.instance_count as nat,
        None => 0,
    }
}

/// The queue after one draw of `queued` against a buffer of `capacity` bytes:
/// emptied when the draw succeeds, untouched when it fails.
pub open spec fn queue_after_draw<T>(queued: Seq<T>, capacity: nat) -> Seq<T> {
    if fits(queued.len(), capacity) {
        Seq::empty()
    } else {
        queued
    }
}

/// The instances one draw of `queued` renders: none when it fails.
pub open spec fn rendered_by_draw<T>(queued: Seq<T>, capacity: nat) -> nat {
    if fits(queued.len(), capacity) {
        instances_drawn(draw_for(queued.len()))
    } else {
        0
    }
}

/// The queue after queuing each of `xs` in turn.
pub open spec fn queue_all<T>(queued: Seq<T>, xs: Seq<T>) -> Seq<T>
    decreases xs.len(),
{
    if xs.len() == 0 {
        queued
    } else {
        queue_all(queued, xs.drop_last()).push(xs.last())
    }
}

/// Queuing each of `xs` in turn appends them, in order.
proof fn lemma_queue_all_appends<T>(queued: Seq<T>, xs: Seq<T>)
    ensures
        queue_all(queued, xs) == queued + xs,
    decreases xs.len(),
{
    if xs.len() == 0 {
        assert(queued + xs =~= queued);
    } else {
        lemma_queue_all_appends(queued, xs.drop_last());
        assert((queued + xs.drop_last()).push(xs.last()) =~= queued + xs);
    }
}

/// After a successful draw, queuing any run of instances that fits the buffer
/// and drawing again renders exactly those instances, in the order they were
/// queued, and leaves the queue empty.
pub proof fn lemma_draw_renders_all_queued<T>(earlier: Seq<T>, xs: Seq<T>, capacity: nat)
    requires
        capacity <= MAX_CAPACITY_BYTES,
        fits(earlier.len(), capacity),
        fits(xs.len(), capacity),
    ensures
        queue_all(queue_after_draw(earlier, capacity), xs) == xs,
        rendered_by_draw(queue_all(queue_after_draw(earlier, capacity), xs), capacity) == xs.len(),
        queue_after_draw(queue_all(queue_after_draw(earlier, capacity), xs), capacity) == Seq::<
            T,
        >::empty(),
{
    lemma_queue_all_appends(Seq::<T>::empty(), xs);
    assert(Seq::<T>::empty() + xs =~= xs);
    let n = xs.len();
    assert(n <= 4294967295) by (nonlinear_arith)
        requires
            n * 76 <= capacity,
            capacity <= 4294967295 * 76,
    ;
}

/// Two draws with nothing queued between them: the second renders nothing.
pub proof fn lemma_second_draw_renders_nothing<T>(queued: Seq<T>, capacity: nat)
    ensures
        rendered_by_draw(queue_after_draw(queued, capacity), capacity) == 0,
{
}

/// The renderer's frame state: the instances queued for the next draw and the
/// capacity of the instance buffer. The instances are carried, not read:
/// encoding each into its record is the caller's part. The view is the
/// sequence of queued instances.
pub struct ShapeRenderer<T> {
    instances: Vec<T>,
    capacity_bytes: u64,
}

impl<T> View for ShapeRenderer<T> {
    type V = Seq<T>;

    closed spec fn view(&self) -> Seq<T> {
        self.instances@
    }
}

impl<T> ShapeRenderer<T> {
    /// Bytes the instance buffer holds.
    pub closed spec fn capacity(&self) -> nat {
        self.capacity_bytes as nat
    }

    /// The instance count of any draw that fits the buffer fits a `u32`.
    pub open spec fn wf(&self) -> bool {
        self.capacity() <= MAX_CAPACITY_BYTES
    }

    /// A renderer with an empty queue and an instance buffer of
    /// `capacity_bytes` bytes.
    pub fn new(capacity_bytes: u64) -> (r: Self)
        requires
            capacity_bytes <= MAX_CAPACITY_BYTES,
        ensures
            r.wf(),
            r@ == Seq::<T>::empty(),
            r.capacity() == capacity_bytes,
    {
        ShapeRenderer { instances: Vec::new(), capacity_bytes }
    }

    /// Bytes the instance buffer holds.
    pub fn capacity_bytes(&self) -> (r: u64)
        ensures
            r == self.capacity(),
    {
        self.capacity_bytes
    }

    /// Number of instances queued for the next draw.
    pub fn len(&self) -> (r: usize)
        ensures
            r == self@.len(),
    {
        self.instances.len()
    }

    /// Appends an instance to the queue of the next draw.
    pub fn queue(&mut self, instance: T)
        requires
            old(self).wf(),
        ensures
            final(self).wf(),
            final(self)@ == old(self)@.push(instance),
            final(self).capacity() == old(self).capacity(),
    {
        self.instances.push(instance);
    }

    /// Drops every queued instance.
    pub fn clear(&mut self)
        requires
            old(self).wf(),
        ensures
            final(self).wf(),
            final(self)@ == Seq::<T>::empty(),
            final(self).capacity() == old(self).capacity(),
    {
        self.instances.clear();
    }

    /// Plans the frame: takes every queued instance, in order, with the upload
    /// of their records and the one draw that renders them, and leaves the
    /// queue empty. Fails, with the queue untouched, when the records would not
    /// fit in the instance buffer.
    pub fn draw(&mut self) -> (r: Result<Frame<T>, RenderError>)
        requires
            old(self).wf(),
        ensures
            final(self).wf(),
            final(self).capacity() == old(self).capacity(),
            final(self)@ == queue_after_draw(old(self)@, old(self).capacity()),
            match r {
                Ok(frame) => {
                    &&& fits(old(self)@.len(), old(self).capacity())
                    &&& frame.instances@ == old(self)@
                    &&& frame.upload == upload_for(old(self)@.len())
                    &&& frame.draw == draw_for(old(self)@.len())
                },
                Err(e) => {
                    &&& !fits(old(self)@.len(), old(self).capacity())
                    &&& e == RenderError::CapacityExceeded
                },
            },
            r matches Ok(frame) ==> (frame.upload matches Some(u) ==> u.offset + u.size
                <= old(self).capacity()),
            r matches Ok(frame) ==> (frame.draw matches Some(c) ==> {
                &&& c.first_vertex == 0
                &&& c.vertex_count == QUAD_VERTEX_COUNT
                &&& c.first_instance == 0
                &&& c.instance_count == old(self)@.len()
            }),
    {
        let n = self.instances.len();
        let bytes = match (n as u64).checked_mul(INSTANCE_RECORD_SIZE) {
            Some(b) => b,
            None => {
                return Err(RenderError::CapacityExceeded);
            },
        };
        if bytes > self.capacity_bytes {
            return Err(RenderError::CapacityExceeded);
        }
        assert(n <= 4294967295) by (nonlinear_arith)
            requires
                n * 76 <= self.capacity_bytes,
                self.capacity_bytes <= 4294967295 * 76,
        ;
        let mut instances: Vec<T> = Vec::new();
        std::mem::swap(&mut instances, &mut self.instances);
        if n == 0 {
            Ok(Frame { instances, upload: None, draw: None })
        } else {
            let upload = Upload { offset: 0, size: bytes };
            let draw = DrawCall {
                first_vertex: 0,
                vertex_count: QUAD_VERTEX_COUNT,
                first_instance: 0,
                instance_count: n as u32,
            };
            Ok(Frame { instances, upload: Some(upload), draw: Some(draw) })
        }
    }
}

} // verus!
