//! A double-buffered [`ShmPool`] that lets surfaces grow without reallocating
//! shared-memory storage on every resize step.
//!
//! The pool decides; the storage itself is kept by the program, which carries
//! out what [`ShmPool::prepare`] asks for.

use vstd::prelude::*;

verus! {

/// Tracks whether the compositor still owns a buffer. There is one flag for each
/// slot, and it cannot be copied: whoever learns of a release tells the pool,
/// which flips the flag of the slot that the buffer is from.
#[derive(Debug, PartialEq, Eq, Structural)]
pub struct ReleaseFlag {
    pub released: bool,
}

impl ReleaseFlag {
    /// A flag whose buffer the compositor does not own.
    pub fn new_released() -> (r: Self)
        ensures
            r == (ReleaseFlag { released: true }),
    {
        ReleaseFlag { released: true }
    }

    pub open spec fn spec_is_released(&self) -> bool {
        self.released
    }

    #[verifier::when_used_as_spec(spec_is_released)]
    pub fn is_released(&self) -> (r: bool)
        ensures
            r == self.is_released(),
    {
        self.released
    }

    pub fn set_in_flight(&mut self)
        ensures
            *final(self) == old(self).after(FlagCall::SetInFlight),
    {
        self.released = false;
    }

    pub fn set_released(&mut self)
        ensures
            *final(self) == old(self).after(FlagCall::SetReleased),
    {
        self.released = true;
    }
}

/// What can happen to a release flag.
pub enum FlagCall {
    /// The buffer was handed to the compositor.
    SetInFlight,
    /// The compositor gave the buffer back.
    SetReleased,
}

impl ReleaseFlag {
    /// The flag after one call.
    pub open spec fn after(self, call: FlagCall) -> ReleaseFlag {
        match call {
            FlagCall::SetInFlight => ReleaseFlag { released: false },
            FlagCall::SetReleased => ReleaseFlag { released: true },
        }
    }

    /// The flag after several calls, one after the other.
    pub open spec fn after_all(self, calls: Seq<FlagCall>) -> ReleaseFlag
        decreases calls.len(),
    {
        if calls.len() == 0 {
            self
        } else {
            self.after_all(calls.drop_last()).after(calls.last())
        }
    }
}

/// A flag tells what the latest call said: a new flag, on which nothing was
/// called, is released, and any other is in flight exactly if the latest call
/// set it in flight.
pub proof fn law_flag_tells_the_latest_call(calls: Seq<FlagCall>)
    ensures
        !(ReleaseFlag { released: true }).after_all(calls).is_released() <==> calls.len() > 0
            && calls.last() is SetInFlight,
{
}

/// One of the two halves of a pool.
#[derive(Debug, PartialEq, Eq, Structural)]
pub struct Slot {
    /// Serial of the buffer carved from this half, if there is one. A release
    /// that arrives late, for a buffer that has been replaced, names another
    /// serial and changes nothing.
    pub buffer: Option<u64>,
    pub width: i32,
    pub height: i32,
    pub stride: i32,
    /// `is_released()` means that the compositor has released the buffer and
    /// the slot's bytes are safe to rewrite. A fresh slot starts released so
    /// the first `prepare()` can use it without waiting.
    pub release_flag: ReleaseFlag,
}

/// A slot without a buffer.
pub open spec fn fresh_slot() -> Slot {
    Slot {
        buffer: None,
        width: 0,
        height: 0,
        stride: 0,
        release_flag: ReleaseFlag { released: true },
    }
}

impl Default for Slot {
    fn default() -> (r: Self)
        ensures
            r == fresh_slot(),
    {
        Slot {
            buffer: None,
            width: 0,
            height: 0,
            stride: 0,
            release_flag: ReleaseFlag::new_released(),
        }
    }
}

/// What it takes to get a buffer ready for drawing.
#[derive(Clone, Copy, Debug, PartialEq, Eq, Structural)]
pub enum Preparation {
    /// There is no buffer of that size.
    Refused,
    /// Fresh storage of `total` bytes is needed first. The old storage is given
    /// up. Once the new one is there, [`ShmPool::allocated`] is told about it.
    Allocate { slot_capacity: i32, total: i32 },
    /// The slot can be drawn into. If `create` is set, a new buffer has to be
    /// carved from it first.
    Ready { slot: usize, create: bool },
}

/// Double-buffered pool used by surfaces (titlebars, shadows) that frequently
/// resize. Two slots live side-by-side so the next frame writes to memory the
/// compositor isn't currently sampling — `prepare` prefers the slot that wasn't
/// returned last time.
///
/// Growing the pool would overlay memory the compositor still reads from any
/// in-flight buffer, so on growth the old storage is dropped entirely and fresh
/// storage allocated. A 50% headroom on each grow keeps allocations rare across
/// a resize drag.
#[derive(Debug, PartialEq, Eq, Structural)]
pub struct ShmPool {
    /// Whether there is storage.
    pub pool: bool,
    /// Bytes available per slot. Slot N lives at offset `slot_capacity * N`.
    pub slot_capacity: i32,
    pub slot0: Slot,
    pub slot1: Slot,
    /// Index returned by the previous `prepare()` call; the next call rotates
    /// to the other one so the slot the compositor still reads is left
    /// untouched.
    pub last_prepared: usize,
    /// Cumulative count of fresh allocations.
    pub allocate_fresh_count: u32,
    /// Serial of the next buffer.
    pub next_serial: u64,
}

impl ShmPool {
    /// The slot of a number.
    pub open spec fn slot(&self, n: usize) -> Slot {
        if n == 0 {
            self.slot0
        } else {
            self.slot1
        }
    }

    /// The pool with another slot.
    pub open spec fn with_slot(self, n: usize, slot: Slot) -> ShmPool {
        if n == 0 {
            ShmPool { slot0: slot, ..self }
        } else {
            ShmPool { slot1: slot, ..self }
        }
    }

    /// Whether a slot has the bytes that its buffer needs.
    pub open spec fn fits(&self, n: usize) -> bool {
        self.slot(n).buffer is Some ==> 0 < self.slot(n).width && 0 < self.slot(n).height && 0
            < self.slot(n).stride && self.slot(n).stride * self.slot(n).height
            <= self.slot_capacity
    }

    /// What always holds of a pool: there are two slots, each large enough for
    /// its buffer, and no buffers without storage.
    pub open spec fn wf(&self) -> bool {
        &&& self.last_prepared <= 1
        &&& 0 <= self.slot_capacity <= 0x3fff_ffff
        &&& self.fits(0)
        &&& self.fits(1)
        &&& !self.pool ==> self.slot0.buffer is None && self.slot1.buffer is None
    }

    /// The pool without storage.
    pub open spec fn emptied(self) -> ShmPool {
        ShmPool { pool: false, slot0: fresh_slot(), slot1: fresh_slot(), ..self }
    }

    /// The slot to draw into next, unless the compositor still has both: the
    /// one that was not used last, if it can be.
    pub open spec fn free_slot(self) -> Option<usize> {
        let preferred = (1 - self.last_prepared) as usize;
        if self.slot(preferred).release_flag.is_released() {
            Some(preferred)
        } else if self.slot(self.last_prepared).release_flag.is_released() {
            Some(self.last_prepared)
        } else {
            None
        }
    }

    /// Bytes of a buffer.
    pub open spec fn buffer_size(width: i32, height: i32, stride: i32) -> Option<int> {
        if width > 0 && height > 0 && stride > 0 && stride * height <= i32::MAX {
            Some(stride * height)
        } else {
            None
        }
    }

    /// What fresh storage for buffers of a size takes: half as much again for
    /// each slot.
    pub open spec fn allocation(size: int) -> Preparation {
        let slot_capacity = size + size / 2;
        if slot_capacity * 2 <= i32::MAX {
            Preparation::Allocate { slot_capacity: slot_capacity as i32, total: (slot_capacity * 2) as i32 }
        } else {
            Preparation::Refused
        }
    }

    /// What it takes to get a buffer ready.
    pub open spec fn preparation(self, width: i32, height: i32, stride: i32) -> Preparation {
        match ShmPool::buffer_size(width, height, stride) {
            Some(size) => match self.free_slot() {
                Some(slot) => if self.pool && size <= self.slot_capacity {
                    let s = self.slot(slot);
                    Preparation::Ready {
                        slot,
                        create: s.buffer is None || s.width != width || s.height != height
                            || s.stride != stride,
                    }
                } else {
                    ShmPool::allocation(size)
                },
                None => ShmPool::allocation(size),
            },
            None => Preparation::Refused,
        }
    }

    /// The pool after getting a buffer ready.
    pub open spec fn prepared(self, width: i32, height: i32, stride: i32) -> ShmPool {
        match self.preparation(width, height, stride) {
            Preparation::Refused => self,
            Preparation::Allocate { .. } => self.emptied(),
            Preparation::Ready { slot, create } => if create {
                ShmPool {
                    next_serial: if self.next_serial == u64::MAX {
                        0
                    } else {
                        (self.next_serial + 1) as u64
                    },
                    last_prepared: slot,
                    ..self.with_slot(
                        slot,
                        Slot {
                            buffer: Some(self.next_serial),
                            width,
                            height,
                            stride,
                            release_flag: ReleaseFlag { released: true },
                        },
                    )
                }
            } else {
                ShmPool { last_prepared: slot, ..self }
            },
        }
    }

    /// The pool with fresh storage.
    pub open spec fn supplied(self, slot_capacity: i32) -> ShmPool {
        ShmPool {
            pool: true,
            slot_capacity,
            last_prepared: 1,
            allocate_fresh_count: if self.allocate_fresh_count == u32::MAX {
                0
            } else {
                (self.allocate_fresh_count + 1) as u32
            },
            ..self.emptied()
        }
    }

    pub fn new() -> (r: Self)
        ensures
            r == (ShmPool {
                pool: false,
                slot_capacity: 0,
                slot0: fresh_slot(),
                slot1: fresh_slot(),
                last_prepared: 0,
                allocate_fresh_count: 0,
                next_serial: 0,
            }),
            r.wf(),
    {
        ShmPool {
            pool: false,
            slot_capacity: 0,
            slot0: Slot::default(),
            slot1: Slot::default(),
            last_prepared: 0,
            allocate_fresh_count: 0,
            next_serial: 0,
        }
    }

    /// The slot of a number.
    pub fn slot_at(&self, n: usize) -> (r: &Slot)
        ensures
            *r == self.slot(n),
    {
        if n == 0 {
            &self.slot0
        } else {
            &self.slot1
        }
    }

    fn set_slot(&mut self, n: usize, slot: Slot)
        ensures
            *final(self) == old(self).with_slot(n, slot),
    {
        if n == 0 {
            self.slot0 = slot;
        } else {
            self.slot1 = slot;
        }
    }

    /// How many times this pool has hit the slow path of fresh storage.
    /// Callers can sample before/after `prepare()` to detect whether the
    /// frame got brand-new storage.
    pub fn allocate_fresh_count(&self) -> (r: u32)
        ensures
            r == self.allocate_fresh_count,
    {
        self.allocate_fresh_count
    }

    fn find_free_slot(&self) -> (r: Option<usize>)
        requires
            self.wf(),
        ensures
            r == self.free_slot(),
    {
        let preferred: usize = 1 - self.last_prepared;
        if self.slot_at(preferred).release_flag.is_released() {
            Some(preferred)
        } else if self.slot_at(self.last_prepared).release_flag.is_released() {
            Some(self.last_prepared)
        } else {
            None
        }
    }

    fn allocate_fresh(&mut self, size: i32) -> (r: Preparation)
        requires
            size > 0,
        ensures
            r == ShmPool::allocation(size as int),
            *final(self) == (if r is Allocate {
                old(self).emptied()
            } else {
                *old(self)
            }),
    {
        // 50% headroom keeps small-step resizes from hitting this path each
        // frame.
        let slot_capacity: i64 = size as i64 + (size / 2) as i64;
        let total: i64 = slot_capacity * 2;
        if total > i32::MAX as i64 {
            return Preparation::Refused;
        }
        self.pool = false;
        self.slot0 = Slot::default();
        self.slot1 = Slot::default();
        Preparation::Allocate { slot_capacity: slot_capacity as i32, total: total as i32 }
    }

    /// Prepare a slot for writing a buffer of the given dimensions. The caller
    /// writes pixels into [`Self::slot_range`], attaches
    /// [`Self::current_buffer`], then calls [`Self::mark_attached`] after the
    /// surface commit so the slot stays off-limits until its release arrives.
    ///
    /// A slot that is ready is never one that the compositor still has.
    pub fn prepare(&mut self, width: i32, height: i32, stride: i32) -> (r: Preparation)
        requires
            old(self).wf(),
        ensures
            r == old(self).preparation(width, height, stride),
            *final(self) == old(self).prepared(width, height, stride),
            final(self).wf(),
            r matches Preparation::Allocate { slot_capacity, .. } ==> 0 <= slot_capacity
                <= 0x3fff_ffff,
            r matches Preparation::Ready { slot, .. } ==> slot <= 1 && old(self).slot(
                slot,
            ).release_flag.is_released() && final(self).last_prepared == slot,
    {
        if width <= 0 || height <= 0 || stride <= 0 {
            return Preparation::Refused;
        }
        assert(0 < stride * height <= 0x7fff_ffff * 0x7fff_ffff) by (nonlinear_arith)
            requires
                0 < stride <= 0x7fff_ffff,
                0 < height <= 0x7fff_ffff,
        ;
        let size: i64 = stride as i64 * height as i64;
        if size > i32::MAX as i64 {
            return Preparation::Refused;
        }
        let free: Option<usize> = self.find_free_slot();
        let n: usize = match free {
            Some(n) => n,
            None => {
                return self.allocate_fresh(size as i32);
            },
        };
        if !self.pool || size > self.slot_capacity as i64 {
            return self.allocate_fresh(size as i32);
        }
        let slot = self.slot_at(n);
        let create: bool = slot.buffer.is_none() || slot.width != width || slot.height != height
            || slot.stride != stride;
        if create {
            // The old buffer (if any) is gone, so the old flag has no meaning
            // either.
            let serial: u64 = self.next_serial;
            self.next_serial = if serial == u64::MAX {
                0
            } else {
                serial + 1
            };
            self.set_slot(
                n,
                Slot {
                    buffer: Some(serial),
                    width,
                    height,
                    stride,
                    release_flag: ReleaseFlag::new_released(),
                },
            );
        }
        self.last_prepared = n;
        Preparation::Ready { slot: n, create }
    }

    /// Fresh storage is there
    pub fn allocated(&mut self, slot_capacity: i32)
        requires
            old(self).wf(),
            0 <= slot_capacity <= 0x3fff_ffff,
        ensures
            *final(self) == old(self).supplied(slot_capacity),
            final(self).wf(),
    {
        self.slot0 = Slot::default();
        self.slot1 = Slot::default();
        self.pool = true;
        self.slot_capacity = slot_capacity;
        // Neither slot is in flight after a fresh allocation; the next
        // `prepare()` will return slot 0.
        self.last_prepared = 1;
        self.allocate_fresh_count = if self.allocate_fresh_count == u32::MAX {
            0
        } else {
            self.allocate_fresh_count + 1
        };
    }

    /// Mark the most recently prepared slot as in-flight. Surfaces should
    /// call this immediately after the surface commit so the next `prepare()`
    /// knows it can't reuse this slot until the compositor releases it.
    pub fn mark_attached(&mut self)
        requires
            old(self).wf(),
        ensures
            *final(self) == old(self).attached(),
            final(self).wf(),
    {
        if self.last_prepared == 0 {
            self.slot0.release_flag.set_in_flight();
        } else {
            self.slot1.release_flag.set_in_flight();
        }
    }

    /// The pool after the buffer of the slot prepared last was handed to the
    /// compositor.
    pub open spec fn attached(self) -> ShmPool {
        self.with_slot(
            self.last_prepared,
            Slot { release_flag: ReleaseFlag { released: false }, ..self.slot(self.last_prepared) },
        )
    }

    /// The pool after something happened to the buffer of the slot prepared
    /// last, which everybody else knows by its serial.
    pub open spec fn after(self, serial: u64, call: FlagCall) -> ShmPool {
        match call {
            FlagCall::SetInFlight => self.attached(),
            FlagCall::SetReleased => self.released(serial),
        }
    }

    /// The pool after several things happened to the buffer of the slot prepared
    /// last, one after the other.
    pub open spec fn after_all(self, serial: u64, calls: Seq<FlagCall>) -> ShmPool
        decreases calls.len(),
    {
        if calls.len() == 0 {
            self
        } else {
            self.after_all(serial, calls.drop_last()).after(serial, calls.last())
        }
    }

    /// The pool after the compositor released a buffer.
    pub open spec fn released(self, serial: u64) -> ShmPool {
        if self.slot0.buffer == Some(serial) {
            self.with_slot(
                0,
                Slot { release_flag: ReleaseFlag { released: true }, ..self.slot0 },
            )
        } else if self.slot1.buffer == Some(serial) {
            self.with_slot(
                1,
                Slot { release_flag: ReleaseFlag { released: true }, ..self.slot1 },
            )
        } else {
            self
        }
    }

    /// The compositor released a buffer
    pub fn release(&mut self, serial: u64)
        requires
            old(self).wf(),
        ensures
            *final(self) == old(self).released(serial),
            final(self).wf(),
    {
        if self.slot0.buffer == Some(serial) {
            self.slot0.release_flag.set_released();
        } else if self.slot1.buffer == Some(serial) {
            self.slot1.release_flag.set_released();
        }
    }

    /// Offset and length of the bytes of a slot's buffer.
    pub open spec fn bytes_of(self, n: usize) -> Option<(int, int)> {
        let slot = self.slot(n);
        if self.pool && slot.stride * slot.height > 0 {
            Some((n * self.slot_capacity, slot.stride * slot.height))
        } else {
            None
        }
    }

    /// Offset and length of the bytes of a slot's buffer, if it has any
    pub fn slot_range(&self, slot_idx: usize) -> (r: Option<(usize, usize)>)
        requires
            self.wf(),
            slot_idx <= 1,
        ensures
            (match r {
                Some((offset, len)) => Some((offset as int, len as int)),
                None => None,
            }) == (if self.slot(slot_idx).buffer is Some {
                self.bytes_of(slot_idx)
            } else {
                None
            }),
    {
        let slot = self.slot_at(slot_idx);
        if !self.pool || slot.buffer.is_none() {
            return None;
        }
        assert(0 < slot.stride * slot.height) by (nonlinear_arith)
            requires
                0 < slot.stride,
                0 < slot.height,
        ;
        assert(slot_idx * self.slot_capacity <= self.slot_capacity) by (nonlinear_arith)
            requires
                slot_idx <= 1,
                0 <= self.slot_capacity,
        ;
        assert(0 <= slot_idx * self.slot_capacity) by (nonlinear_arith)
            requires
                0 <= self.slot_capacity,
        ;
        let len: i32 = slot.stride * slot.height;
        let offset: usize = slot_idx * self.slot_capacity as usize;
        Some((offset, len as usize))
    }

    /// Serial of the buffer of the most recently prepared slot.
    pub fn current_buffer(&self) -> (r: Option<u64>)
        ensures
            r == self.slot(self.last_prepared).buffer,
    {
        self.slot_at(self.last_prepared).buffer
    }

    /// True once a buffer is available for the current slot.
    pub fn is_ready(&self) -> (r: bool)
        ensures
            r == (self.slot(self.last_prepared).buffer is Some),
    {
        self.current_buffer().is_some()
    }

    /// Drop all client-side resources. Any in-flight buffer in the compositor
    /// stays valid until it sends a release event for it.
    pub fn destroy(&mut self)
        ensures
            *final(self) == (ShmPool { slot_capacity: 0, last_prepared: 0, ..old(self).emptied() }),
            final(self).wf(),
    {
        self.slot0 = Slot::default();
        self.slot1 = Slot::default();
        self.pool = false;
        self.slot_capacity = 0;
        self.last_prepared = 0;
    }
}

/// The bytes of the two slots lie inside the storage and do not overlap.
pub proof fn law_slots_do_not_overlap(p: ShmPool)
    requires
        p.wf(),
        p.slot0.buffer is Some,
        p.slot1.buffer is Some,
        p.pool,
    ensures
        p.bytes_of(0) matches Some((first, first_len)) && p.bytes_of(1) matches Some(
            (second, second_len),
        ) && 0 <= first && first + first_len <= second && second + second_len <= p.slot_capacity
            * 2,
{
    assert(0 < p.slot0.stride * p.slot0.height) by (nonlinear_arith)
        requires
            0 < p.slot0.stride,
            0 < p.slot0.height,
    ;
    assert(0 < p.slot1.stride * p.slot1.height) by (nonlinear_arith)
        requires
            0 < p.slot1.stride,
            0 < p.slot1.height,
    ;
}

/// After fresh storage was made for a size, a buffer of that size is ready in
/// the first slot.
pub proof fn law_fresh_storage_is_enough(p: ShmPool, width: i32, height: i32, stride: i32)
    requires
        p.wf(),
    ensures
        p.preparation(width, height, stride) matches Preparation::Allocate { slot_capacity, .. }
            ==> p.prepared(width, height, stride).supplied(slot_capacity).preparation(
            width,
            height,
            stride,
        ) == (Preparation::Ready { slot: 0, create: true }),
{
}

/// A buffer handed to the compositor is not drawn into again until it comes
/// back.
pub proof fn law_attached_buffer_waits_for_its_release(p: ShmPool, width: i32, height: i32, stride: i32)
    requires
        p.wf(),
        !p.slot(p.last_prepared).release_flag.is_released(),
    ensures
        p.preparation(width, height, stride) matches Preparation::Ready { slot, .. } ==> slot
            != p.last_prepared,
{
}

/// The two slots take turns: while one of them is shown, the other one is drawn
/// into, if the compositor has given it back.
pub proof fn law_slots_take_turns(p: ShmPool, width: i32, height: i32, stride: i32)
    requires
        p.wf(),
        p.slot((1 - p.last_prepared) as usize).release_flag.is_released(),
    ensures
        p.preparation(width, height, stride) matches Preparation::Ready { slot, .. } ==> {
            &&& slot == 1 - p.last_prepared
            &&& p.prepared(width, height, stride).last_prepared == slot
        },
{
}

/// A slot that was prepared is not the next one to be prepared, whatever was
/// done with it in between, if the compositor has given the other one back and
/// the storage is large enough.
pub proof fn law_next_slot_is_the_other_one(
    p: ShmPool,
    q: ShmPool,
    width: i32,
    height: i32,
    stride: i32,
    next_width: i32,
    next_height: i32,
    next_stride: i32,
)
    requires
        p.wf(),
        p.preparation(width, height, stride) is Ready,
        q.wf(),
        q.pool,
        q.last_prepared == p.prepared(width, height, stride).last_prepared,
        q.slot((1 - q.last_prepared) as usize).release_flag.is_released(),
        ShmPool::buffer_size(next_width, next_height, next_stride) matches Some(size) && size
            <= q.slot_capacity,
    ensures
        p.preparation(width, height, stride) matches Preparation::Ready { slot, .. } && q.preparation(
            next_width,
            next_height,
            next_stride,
        ) matches Preparation::Ready { slot: next, .. } && next == 1 - slot,
{
}

/// A slot and all who know its buffer share one state: whoever names the
/// buffer's serial reaches the flag of its slot, so that the flag tells what
/// happened to the buffer last, and no other slot changes.
pub proof fn law_slot_and_buffer_share_the_flag(p: ShmPool, serial: u64, calls: Seq<FlagCall>)
    requires
        p.wf(),
        p.slot(p.last_prepared).buffer == Some(serial),
        p.slot((1 - p.last_prepared) as usize).buffer != Some(serial),
    ensures
        ({
            let q = p.after_all(serial, calls);
            &&& q == p.with_slot(
                p.last_prepared,
                Slot {
                    release_flag: p.slot(p.last_prepared).release_flag.after_all(calls),
                    ..p.slot(p.last_prepared)
                },
            )
            &&& calls.len() > 0 ==> (q.slot(p.last_prepared).release_flag.is_released()
                <==> calls.last() is SetReleased)
        }),
    decreases calls.len(),
{
    if calls.len() > 0 {
        law_slot_and_buffer_share_the_flag(p, serial, calls.drop_last());
    }
}

} // verus!
