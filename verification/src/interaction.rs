//! Interaction state around break/place: the selected block for
//! placement, the per-action cooldown gate, and the face-adjacency test
//! between a hit cell and the placement cell.
use vstd::prelude::*;

use crate::block::Block;
use crate::coords::Vec3i;

verus! {

/// Interaction cooldown length in milliseconds.
pub const INTERACTION_COOLDOWN_MS: i64 = 200;

/// Upper bound on simulation timestamps accepted by the cooldown gate.
pub const MAX_TIME_MS: i64 = 0x4000_0000_0000;

/// Return `true` only when `candidate` is one of the six face-neighbors
/// of `center` (Manhattan distance exactly one).
pub fn is_face_neighbor(center: Vec3i, candidate: Vec3i) -> (r: bool)
    ensures
        r == (crate::block::abs_int(candidate.x - center.x) + crate::block::abs_int(
            candidate.y - center.y,
        ) + crate::block::abs_int(candidate.z - center.z) == 1),
{
    let dx: i64 = candidate.x as i64 - center.x as i64;
    let dy: i64 = candidate.y as i64 - center.y as i64;
    let dz: i64 = candidate.z as i64 - center.z as i64;
    let ax = if dx < 0 { -dx } else { dx };
    let ay = if dy < 0 { -dy } else { dy };
    let az = if dz < 0 { -dz } else { dz };
    ax + ay + az == 1
}

/// Placement and preview selection state for the current block variant.
pub struct SelectedBlock {
    /// Block state currently selected for placement and preview.
    pub current: Block,
}

impl SelectedBlock {
    /// Construct selected-block state with an initial block choice.
    pub fn new(current: Block) -> (r: SelectedBlock)
        ensures
            r.current == current,
    {
        SelectedBlock { current }
    }

    /// The block selected by one hotkey slot: slot 1 selects grassed
    /// dirt, slot 2 plain dirt, slot 3 sand; other slots select nothing.
    pub open spec fn spec_selection_for_slot(slot: u8) -> Option<Block> {
        if slot == 1 {
            Some(Block { kind: crate::block::BlockKind::DirtWithGrass, front: crate::block::Facing::PosZ })
        } else if slot == 2 {
            Some(Block { kind: crate::block::BlockKind::Dirt, front: crate::block::Facing::PosZ })
        } else if slot == 3 {
            Some(Block { kind: crate::block::BlockKind::Sand, front: crate::block::Facing::PosZ })
        } else {
            None
        }
    }

    /// Apply one selection hotkey slot; an unassigned slot changes
    /// nothing. Returns `true` when the selection changed.
    pub fn apply_hotkey(&mut self, slot: u8) -> (r: bool)
        ensures
            final(self).current == (match SelectedBlock::spec_selection_for_slot(slot) {
                Some(b) => b,
                None => old(self).current,
            }),
            r == SelectedBlock::spec_selection_for_slot(slot) is Some,
    {
        if slot == 1 {
            self.current = Block::dirt_with_grass();
            true
        } else if slot == 2 {
            self.current = Block::dirt();
            true
        } else if slot == 3 {
            self.current = Block::sand();
            true
        } else {
            false
        }
    }
}

/// Cooldown timestamps (in milliseconds of simulation time) gating
/// repeated break and place interactions.
pub struct InteractionCooldown {
    /// Last simulation time when breaking was applied.
    pub last_break_ms: i64,
    /// Last simulation time when placing was applied.
    pub last_place_ms: i64,
}

impl InteractionCooldown {
    /// Well-formedness: timestamps stay in the accepted simulation range.
    pub open spec fn wf(self) -> bool {
        &&& -INTERACTION_COOLDOWN_MS <= self.last_break_ms <= MAX_TIME_MS
        &&& -INTERACTION_COOLDOWN_MS <= self.last_place_ms <= MAX_TIME_MS
    }

    /// Construct interaction cooldown state with "ready" timestamps.
    pub fn new() -> (r: InteractionCooldown)
        ensures
            r.wf(),
            r.last_break_ms == -INTERACTION_COOLDOWN_MS,
            r.last_place_ms == -INTERACTION_COOLDOWN_MS,
    {
        InteractionCooldown {
            last_break_ms: -INTERACTION_COOLDOWN_MS,
            last_place_ms: -INTERACTION_COOLDOWN_MS,
        }
    }

    /// Return whether a break interaction is currently allowed: the
    /// break button is held and the cooldown interval has elapsed.
    pub fn can_break(&self, break_held: bool, now_ms: i64) -> (r: bool)
        requires
            self.wf(),
            0 <= now_ms <= MAX_TIME_MS,
        ensures
            r == (break_held && now_ms - self.last_break_ms >= INTERACTION_COOLDOWN_MS),
    {
        break_held && now_ms - self.last_break_ms >= INTERACTION_COOLDOWN_MS
    }

    /// Return whether a place interaction is currently allowed: the
    /// place button is held and the cooldown interval has elapsed.
    pub fn can_place(&self, place_held: bool, now_ms: i64) -> (r: bool)
        requires
            self.wf(),
            0 <= now_ms <= MAX_TIME_MS,
        ensures
            r == (place_held && now_ms - self.last_place_ms >= INTERACTION_COOLDOWN_MS),
    {
        place_held && now_ms - self.last_place_ms >= INTERACTION_COOLDOWN_MS
    }

    /// Record the break action timestamp.
    pub fn mark_break(&mut self, now_ms: i64)
        requires
            old(self).wf(),
            0 <= now_ms <= MAX_TIME_MS,
        ensures
            final(self).wf(),
            final(self).last_break_ms == now_ms,
            final(self).last_place_ms == old(self).last_place_ms,
    {
        self.last_break_ms = now_ms;
    }

    /// Record the place action timestamp.
    pub fn mark_place(&mut self, now_ms: i64)
        requires
            old(self).wf(),
            0 <= now_ms <= MAX_TIME_MS,
        ensures
            final(self).wf(),
            final(self).last_place_ms == now_ms,
            final(self).last_break_ms == old(self).last_break_ms,
    {
        self.last_place_ms = now_ms;
    }
}

} // verus!
