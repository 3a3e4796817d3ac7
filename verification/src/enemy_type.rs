//! Enemy variants and per-variant spawn bookkeeping.

use vstd::prelude::*;

verus! {

/// The closed set of enemy variants. Only [`EnemyType::Regular`] is actively
/// spawned; `Fast` and `Strong` are declared extension points that the spawn
/// dispatch deliberately leaves inert.
#[derive(Clone, Copy, PartialEq, Eq, Structural, Debug)]
pub enum EnemyType {
    Regular,
    Fast,
    Strong,
}

/// Spawn cadence record for one enemy type.
///
/// `last_spawn_time` is initialised lazily to the timestamp of the very first
/// processed frame, so the first spawn waits a full interval rather than
/// firing immediately. It is updated exactly once per successful spawn.
#[derive(Clone, Copy, PartialEq, Eq, Structural, Debug)]
pub struct EnemySpawnInfo {
    pub enemy_type: EnemyType,
    /// Minimum number of milliseconds between successive spawns of this type.
    pub spawn_interval: u64,
    /// Frame timestamp, in milliseconds, of the most recent spawn.
    pub last_spawn_time: u64,
}

} // verus!
