use crate::cycle::Ring;
use vstd::prelude::*;

verus! {

/// Sprite-sheet frame shown while facing down.
pub const SPRITE_DOWN_INDEX: usize = 0;

/// Sprite-sheet frame shown while facing up.
pub const SPRITE_UP_INDEX: usize = 1;

/// First of the two alternating sideways walk frames.
pub const SPRITE_LEFT1_INDEX: usize = 2;

/// Second of the two alternating sideways walk frames.
pub const SPRITE_LEFT2_INDEX: usize = 3;

/// Nanoseconds in one second.
pub const NANOS_PER_SECOND: u64 = 1_000_000_000;

/// Why a configuration was rejected.
#[derive(Clone, Copy, Debug, PartialEq, Eq, Structural)]
pub enum ConfigError {
    /// A tile crossing must be cut into at least one substep.
    ZeroSubsteps,
    /// A tile crossing must take some time.
    ZeroDuration,
    /// The crossing time times the substep count does not fit in 64 bits.
    DurationOverflow,
    /// Tiles must have a positive extent.
    ZeroTileSize,
    /// The zoom cycle needs at least one scale.
    EmptyZoomScales,
}

/// Timing of one tile crossing: its total duration and its substep count.
#[derive(Clone, Copy, Debug, PartialEq, Eq, Structural)]
pub struct MapMoveSettings {
    pub nanos_per_tile: u64,
    pub steps_per_tile: u32,
}

/// Timing values that a crossing can be built from.
pub open spec fn valid_timing(nanos: u64, steps: u32) -> bool {
    &&& steps >= 1
    &&& nanos >= 1
    &&& nanos * steps <= u64::MAX
}

impl MapMoveSettings {
    pub open spec fn wf(&self) -> bool {
        valid_timing(self.nanos_per_tile, self.steps_per_tile)
    }

    /// Checks a timing configuration.
    pub fn new(nanos_per_tile: u64, steps_per_tile: u32) -> (r: Result<Self, ConfigError>)
        ensures
            steps_per_tile == 0 <==> r == Err::<Self, ConfigError>(ConfigError::ZeroSubsteps),
            steps_per_tile != 0 && nanos_per_tile == 0 <==> r == Err::<Self, ConfigError>(
                ConfigError::ZeroDuration,
            ),
            steps_per_tile != 0 && nanos_per_tile != 0 && nanos_per_tile * steps_per_tile
                > u64::MAX <==> r == Err::<Self, ConfigError>(ConfigError::DurationOverflow),
            r is Ok <==> valid_timing(nanos_per_tile, steps_per_tile),
            r matches Ok(s) ==> s.wf() && s.nanos_per_tile == nanos_per_tile && s.steps_per_tile
                == steps_per_tile,
    {
        if steps_per_tile == 0 {
            return Err(ConfigError::ZeroSubsteps);
        }
        if nanos_per_tile == 0 {
            return Err(ConfigError::ZeroDuration);
        }
        if nanos_per_tile > u64::MAX / (steps_per_tile as u64) {
            assert(nanos_per_tile * steps_per_tile > u64::MAX) by (nonlinear_arith)
                requires
                    nanos_per_tile > u64::MAX / (steps_per_tile as u64),
                    steps_per_tile >= 1,
            ;
            return Err(ConfigError::DurationOverflow);
        }
        assert(nanos_per_tile * steps_per_tile <= u64::MAX) by (nonlinear_arith)
            requires
                nanos_per_tile <= u64::MAX / (steps_per_tile as u64),
                steps_per_tile >= 1,
        ;
        Ok(MapMoveSettings { nanos_per_tile, steps_per_tile })
    }
}

impl Default for MapMoveSettings {
    /// An eighth of a second per tile, in three substeps.
    fn default() -> (r: Self)
        ensures
            r.nanos_per_tile == NANOS_PER_SECOND / 8,
            r.steps_per_tile == 3,
            r.wf(),
    {
        MapMoveSettings { nanos_per_tile: NANOS_PER_SECOND / 8, steps_per_tile: 3 }
    }
}

/// Tile extent and the zoom scales to cycle through.
pub struct CameraSettings<S> {
    pub tile_size: u32,
    pub transform_scale_ring: Ring<S>,
}

impl<S: Copy> CameraSettings<S> {
    pub open spec fn wf(&self) -> bool {
        &&& self.tile_size >= 1
        &&& self.transform_scale_ring.wf()
    }

    /// Checks a camera configuration; the first scale is the initial one.
    pub fn new(tile_size: u32, scales: Vec<S>) -> (r: Result<Self, ConfigError>)
        ensures
            tile_size == 0 <==> r is Err && r->Err_0 == ConfigError::ZeroTileSize,
            tile_size != 0 && scales@.len() == 0 <==> r is Err && r->Err_0
                == ConfigError::EmptyZoomScales,
            r is Ok <==> tile_size >= 1 && scales@.len() >= 1,
            r matches Ok(c) ==> c.wf() && c.tile_size == tile_size && c.transform_scale_ring@
                == scales@,
    {
        if tile_size == 0 {
            return Err(ConfigError::ZeroTileSize);
        }
        match Ring::from_iter(scales) {
            Some(ring) => Ok(CameraSettings { tile_size, transform_scale_ring: ring }),
            None => Err(ConfigError::EmptyZoomScales),
        }
    }
}

/// Edge length of one sprite cell, in pixels.
#[derive(Clone, Copy, Debug, PartialEq, Eq, Structural)]
pub struct SpriteSettings {
    pub sprite_size: u32,
}

impl Default for SpriteSettings {
    /// Sixteen-pixel sprites.
    fn default() -> (r: Self)
        ensures
            r.sprite_size == 16,
    {
        SpriteSettings { sprite_size: 16 }
    }
}

} // verus!
