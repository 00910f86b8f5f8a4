use vstd::prelude::*;
use vstd::arithmetic::div_mod::lemma_add_mod_noop;
use crate::constants::{BASE_H, BASE_W, PHASE_ONE};

verus! {

/// Number of tile-size classes.
pub const TILE_SIZE_COUNT: u16 = 10;

/// The `(width, height)` of tile-size class `size`, in pixels.
pub open spec fn tile_dims(size: int) -> (int, int) {
    if size == 0 { (1 * BASE_W, 1 * BASE_H) }
    else if size == 1 { (2 * BASE_W, 1 * BASE_H) }
    else if size == 2 { (1 * BASE_W, 2 * BASE_H) }
    else if size == 3 { (2 * BASE_W, 2 * BASE_H) }
    else if size == 4 { (4 * BASE_W, 2 * BASE_H) }
    else if size == 5 { (2 * BASE_W, 4 * BASE_H) }
    else if size == 6 { (4 * BASE_W, 4 * BASE_H) }
    else if size == 7 { (8 * BASE_W, 4 * BASE_H) }
    else if size == 8 { (4 * BASE_W, 8 * BASE_H) }
    else { (8 * BASE_W, 8 * BASE_H) }
}

/// The tile dimensions of size class `size`, or `None` past the last class.
pub fn tile_size(size: u16) -> (r: Option<(i32, i32)>)
    ensures
        r.is_some() <==> size < TILE_SIZE_COUNT,
        r.is_some() ==> r.unwrap().0 == tile_dims(size as int).0 && r.unwrap().1 == tile_dims(size as int).1,
{
    match size {
        0 => Some((1 * BASE_W, 1 * BASE_H)),
        1 => Some((2 * BASE_W, 1 * BASE_H)),
        2 => Some((1 * BASE_W, 2 * BASE_H)),
        3 => Some((2 * BASE_W, 2 * BASE_H)),
        4 => Some((4 * BASE_W, 2 * BASE_H)),
        5 => Some((2 * BASE_W, 4 * BASE_H)),
        6 => Some((4 * BASE_W, 4 * BASE_H)),
        7 => Some((8 * BASE_W, 4 * BASE_H)),
        8 => Some((4 * BASE_W, 8 * BASE_H)),
        9 => Some((8 * BASE_W, 8 * BASE_H)),
        _ => None,
    }
}

/// A set of bit flags.
#[derive(Clone, Copy, Debug, PartialEq, Eq, Structural)]
pub struct Flags(pub u16);

impl Flags {
    pub const DIRTY: u16 = 1;
    pub const HIDDEN: u16 = 2;

    pub fn new(bits: u16) -> (r: Self)
        ensures
            r.0 == bits,
    {
        Flags(bits)
    }

    /// Raises every flag of `f`.
    pub fn set(&mut self, f: u16)
        ensures
            final(self).0 == old(self).0 | f,
    {
        self.0 = self.0 | f;
    }

    /// Whether every flag of `f` is raised.
    pub fn all_of(&self, f: u16) -> (r: bool)
        ensures
            r == (self.0 & f == f),
    {
        self.0 & f == f
    }

    /// Whether at least one flag of `f` is raised.
    pub fn some_of(&self, f: u16) -> (r: bool)
        ensures
            r == (self.0 & f != 0),
    {
        self.0 & f != 0
    }

    /// Whether no flag of `f` is raised.
    pub fn none_of(&self, f: u16) -> (r: bool)
        ensures
            r == (self.0 & f == 0),
    {
        self.0 & f == 0
    }
}

/// A sprite: a screen position, a tile-size class and a tile index into the
/// tileset texture.
#[derive(Clone, Copy, Debug, PartialEq, Eq, Structural)]
pub struct Sprite {
    pub x: i16,
    pub y: i16,
    pub size: u16,
    pub tile: u16,
}

impl Sprite {
    pub fn new(x: i16, y: i16, size: u16, tile: u16) -> (r: Self)
        ensures
            r == (Sprite { x, y, size, tile }),
    {
        Sprite { x, y, size, tile }
    }
}

/// A looping animation: `len` tiles from `start`, played at `speed` phase
/// units per update. `phase` is a fixed-point fraction of `PHASE_ONE`.
#[derive(Clone, Copy, Debug, PartialEq, Eq, Structural)]
pub struct Animation {
    pub start: u16,
    pub len: u16,
    pub speed: u64,
    pub phase: u64,
}

/// The frame shown at `phase` (taken within one cycle) by an animation of
/// `len` tiles from `start`: `start + floor(phase * len)`.
pub open spec fn animation_frame(start: int, len: int, phase: int) -> int {
    start + (phase % (PHASE_ONE as int)) * len / (PHASE_ONE as int)
}

impl Animation {
    pub fn new(start: u16, len: u16, speed: u64) -> (r: Self)
        ensures
            r == (Animation { start, len, speed, phase: 0 }),
    {
        Animation { start, len, speed, phase: 0 }
    }

    /// Advances the phase by `speed`, wrapping modulo one cycle.
    pub fn update(&mut self)
        ensures
            final(self).phase == (old(self).phase + old(self).speed) % (PHASE_ONE as int),
            final(self).start == old(self).start,
            final(self).len == old(self).len,
            final(self).speed == old(self).speed,
    {
        let a = self.phase % PHASE_ONE;
        let b = self.speed % PHASE_ONE;
        proof {
            lemma_add_mod_noop(self.phase as int, self.speed as int, PHASE_ONE as int);
        }
        self.phase = (a + b) % PHASE_ONE;
    }

    /// The tile index currently shown.
    pub fn frame(&self) -> (r: u32)
        ensures
            r == animation_frame(self.start as int, self.len as int, self.phase as int),
    {
        let p = self.phase % PHASE_ONE;
        assert((p as int) * (self.len as int) < (PHASE_ONE as int) * 65536) by (nonlinear_arith)
            requires
                p < PHASE_ONE,
                self.len < 65536,
        ;
        assert((p as int) * (self.len as int) / (PHASE_ONE as int) <= self.len) by (nonlinear_arith)
            requires
                p < PHASE_ONE,
                self.len < 65536,
        ;
        let offset: u64 = p * (self.len as u64) / PHASE_ONE;
        self.start as u32 + offset as u32
    }
}

} // verus!
