//! The frame driver: it owns the animation clock, remembers which mesh and
//! material pairs are registered, and assembles one render packet per tick.
//!
//! The clock is logical: it counts ticks of a fixed increment and wraps to
//! zero exactly when it would reach the configured period. The renderer maps
//! a tick count to its real time value (one tick is one fixed fraction of
//! the period) and turns each packet entry's transform description into its
//! matrix; the driver's job is only the state transition, so it is exact.

use vstd::prelude::*;

verus! {

/// The transform of one packet entry for one frame: a uniform zoom whose
/// scale factor the renderer derives from this clock value. The driver
/// decides the clock value; the scale itself is the renderer's real-valued
/// computation.
#[derive(Clone, Copy, Debug, PartialEq, Eq, Structural)]
pub struct Transform {
    pub clock: u32,
}

/// A registered drawable: a mesh handle and the material it is drawn with.
/// The handle types are the renderer's; the driver only stores and returns
/// them.
#[derive(Clone, Copy)]
pub struct MeshPair<M, T> {
    pub mesh: M,
    pub material: T,
}

/// One entry of a frame packet: what to draw, with which material, under
/// which transform.
pub struct RenderObject<M, T> {
    pub mesh: M,
    pub material: T,
    pub transform: Transform,
}

/// Everything the renderer needs for one frame, in registration order.
pub struct FramePacket<M, T> {
    pub objects: Vec<RenderObject<M, T>>,
}

/// The per-frame state machine.
pub struct FrameDriver<M, T> {
    clock: u32,
    period: u32,
    pairs: Vec<MeshPair<M, T>>,
}

impl<M: Copy, T: Copy> FrameDriver<M, T> {
    /// The current clock, in ticks since the start of the current cycle.
    pub closed spec fn clock(self) -> u32 {
        self.clock
    }

    /// The number of ticks in one clock cycle.
    pub closed spec fn period(self) -> u32 {
        self.period
    }

    /// The registered mesh and material pairs, in registration order.
    pub closed spec fn pairs(self) -> Seq<MeshPair<M, T>> {
        self.pairs@
    }

    /// The driver's invariant: the clock always lies inside its cycle.
    pub open spec fn wf(self) -> bool {
        1 <= self.period() && self.clock() < self.period()
    }

    /// A fresh driver: clock at zero, nothing registered yet.
    pub fn new(period: u32) -> (d: Self)
        requires
            period >= 1,
        ensures
            d.wf(),
            d.clock() == 0,
            d.period() == period,
            d.pairs().len() == 0,
    {
        FrameDriver { clock: 0, period, pairs: Vec::new() }
    }

    /// Register one mesh and material pair; it is appended after the pairs
    /// already registered, and the clock does not move.
    pub fn register(&mut self, mesh: M, material: T)
        ensures
            final(self).pairs() =~= old(self).pairs().push((MeshPair { mesh, material })),
            final(self).clock() == old(self).clock(),
            final(self).period() == old(self).period(),
    {
        self.pairs.push(MeshPair { mesh, material });
    }

    /// One frame: assemble one render object per registered pair, in
    /// registration order, every object drawn at the current clock; then
    /// advance the clock by one tick, wrapping to zero exactly when it
    /// reaches the period.
    pub fn tick(&mut self) -> (p: FramePacket<M, T>)
        requires
            old(self).wf(),
        ensures
            final(self).wf(),
            final(self).clock() == if old(self).clock() + 1 < old(self).period() {
                old(self).clock() + 1
            } else {
                0
            },
            final(self).period() == old(self).period(),
            final(self).pairs() == old(self).pairs(),
            p.objects@.len() == old(self).pairs().len(),
            forall|j: int|
                0 <= j < p.objects@.len() ==> (#[trigger] p.objects@[j]).mesh == old(
                    self,
                ).pairs()[j].mesh && p.objects@[j].material == old(self).pairs()[j].material
                    && p.objects@[j].transform == (Transform { clock: old(self).clock() }),
    {
        let mut objects: Vec<RenderObject<M, T>> = Vec::new();
        let mut j: usize = 0;
        while j < self.pairs.len()
            invariant
                *self == *old(self),
                j <= self.pairs@.len(),
                objects@.len() == j,
                forall|k: int|
                    0 <= k < objects@.len() ==> (#[trigger] objects@[k]).mesh
                        == self.pairs@[k].mesh && objects@[k].material == self.pairs@[k].material
                        && objects@[k].transform == (Transform { clock: self.clock }),
            decreases self.pairs@.len() - j,
        {
            let pair = self.pairs[j];
            objects.push(
                RenderObject {
                    mesh: pair.mesh,
                    material: pair.material,
                    transform: Transform { clock: self.clock },
                },
            );
            j = j + 1;
        }
        if self.clock + 1 < self.period {
            self.clock = self.clock + 1;
        } else {
            self.clock = 0;
        }
        FramePacket { objects }
    }

    /// The current clock, for the renderer's time uniform.
    pub fn current_clock(&self) -> (c: u32)
        ensures
            c == self.clock(),
    {
        self.clock
    }

    /// The configured cycle length, in ticks.
    pub fn cycle_period(&self) -> (n: u32)
        ensures
            n == self.period(),
    {
        self.period
    }

    /// How many pairs are registered.
    pub fn pair_count(&self) -> (n: usize)
        ensures
            n == self.pairs().len(),
    {
        self.pairs.len()
    }
}

} // verus!
