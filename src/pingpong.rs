//! Ping-pong accumulation: two textures, two precomputed binding sets, and a
//! frame counter whose parity picks the set that a frame draws with.
//!
//! The set in slot 0 reads texture 0 and writes texture 1; the set in slot 1
//! reads texture 1 and writes texture 0. A frame after which the counter is
//! odd draws with slot 0, one after which it is even with slot 1.

use vstd::prelude::*;

verus! {

/// The frame counter runs from 0 up to one below this bound and then wraps to
/// 0. The bound is even, so parity alternates across the wrap too.
pub const FRAME_WRAP: u32 = 1000000;

/// The binding-set slot that a frame uses when the counter reads `frame`.
pub open spec fn binding_slot(frame: nat) -> nat {
    if frame % 2 == 1 {
        0
    } else {
        1
    }
}

/// The texture that the binding set in `slot` reads.
pub open spec fn read_texture(slot: nat) -> nat {
    slot
}

/// The texture that the binding set in `slot` writes.
pub open spec fn write_texture(slot: nat) -> nat {
    (slot + 1) % 2
}

/// The counter's value one frame after `frame`.
pub open spec fn next_frame(frame: nat) -> nat {
    (frame + 1) % (FRAME_WRAP as nat)
}

/// The counter's value `n` frames after `frame`.
pub open spec fn frame_after(frame: nat, n: nat) -> nat
    decreases n,
{
    if n == 0 {
        frame
    } else {
        next_frame(frame_after(frame, (n - 1) as nat))
    }
}

/// Counts presented frames, wrapping at `FRAME_WRAP`.
pub struct FrameCounter {
    count: u32,
}

impl FrameCounter {
    #[verifier::type_invariant]
    spec fn below_wrap(self) -> bool {
        self.count < FRAME_WRAP
    }

    /// The counter's value.
    pub closed spec fn index(self) -> nat {
        self.count as nat
    }

    /// A counter at 0.
    pub fn new() -> (r: FrameCounter)
        ensures
            r.index() == 0,
    {
        FrameCounter { count: 0 }
    }

    /// The counter's value.
    pub fn value(&self) -> (r: u32)
        ensures
            r as nat == self.index(),
            r < FRAME_WRAP,
    {
        proof {
            use_type_invariant(self);
        }
        self.count
    }

    /// Counts one frame.
    pub fn advance(&mut self)
        ensures
            final(self).index() == next_frame(old(self).index()),
    {
        proof {
            use_type_invariant(&*self);
        }
        self.count = (self.count + 1) % FRAME_WRAP;
    }

    /// The slot of the binding set for the counter's present value.
    pub fn slot(&self) -> (r: usize)
        ensures
            r as nat == binding_slot(self.index()),
    {
        if self.count % 2 == 1 {
            0
        } else {
            1
        }
    }
}

/// The textures that the binding set in `slot` reads and writes, in that
/// order.
pub fn texture_roles(slot: usize) -> (r: (usize, usize))
    requires
        slot < 2,
    ensures
        r.0 as nat == read_texture(slot as nat),
        r.1 as nat == write_texture(slot as nat),
{
    if slot == 0 {
        (0, 1)
    } else {
        (1, 0)
    }
}

/// The two binding sets of the accumulation textures, built once and never
/// rebuilt.
pub struct BindingPair<T> {
    first: T,
    second: T,
}

impl<T> BindingPair<T> {
    /// The binding set in `slot`; any slot past 0 is slot 1.
    pub closed spec fn set(self, slot: nat) -> T {
        if slot == 0 {
            self.first
        } else {
            self.second
        }
    }

    /// The pair of the set that reads texture 0 and writes texture 1
    /// (`first`), and the set that does the reverse (`second`).
    pub fn new(first: T, second: T) -> (r: BindingPair<T>)
        ensures
            r.set(0) == first,
            r.set(1) == second,
    {
        BindingPair { first, second }
    }

    /// The binding set in `slot`.
    pub fn get(&self, slot: usize) -> (r: &T)
        requires
            slot < 2,
        ensures
            *r == self.set(slot as nat),
    {
        if slot == 0 {
            &self.first
        } else {
            &self.second
        }
    }

    /// The binding set for the counter's present value.
    pub fn active(&self, frame: &FrameCounter) -> (r: &T)
        ensures
            *r == self.set(binding_slot(frame.index())),
    {
        let slot = frame.slot();
        self.get(slot)
    }
}

/// Successive frames draw with different binding sets, frames two apart with
/// the same one, and the texture that a frame writes is the one that the next
/// frame reads (and the reverse): the roles swap together every frame,
/// across the counter's wrap as well.
pub proof fn lemma_ping_pong(frame: nat)
    requires
        frame < FRAME_WRAP,
    ensures
        binding_slot(next_frame(frame)) != binding_slot(frame),
        binding_slot(next_frame(next_frame(frame))) == binding_slot(frame),
        read_texture(binding_slot(next_frame(frame))) == write_texture(binding_slot(frame)),
        write_texture(binding_slot(next_frame(frame))) == read_texture(binding_slot(frame)),
{
}

/// Over any run of frames, the binding set `n` frames on is the one of the
/// start when `n` is even and the other one when `n` is odd.
pub proof fn lemma_slot_after(frame: nat, n: nat)
    requires
        frame < FRAME_WRAP,
    ensures
        frame_after(frame, n) < FRAME_WRAP,
        n % 2 == 0 ==> binding_slot(frame_after(frame, n)) == binding_slot(frame),
        n % 2 == 1 ==> binding_slot(frame_after(frame, n)) != binding_slot(frame),
    decreases n,
{
    if n > 0 {
        lemma_slot_after(frame, (n - 1) as nat);
        lemma_ping_pong(frame_after(frame, (n - 1) as nat));
    }
}

} // verus!
