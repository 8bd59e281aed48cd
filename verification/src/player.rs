//! Tracking of the single controlled player entity.
//!
//! The engine invokes lifecycle hooks when a player component is added to or
//! removed from the world. The decisions those hooks make — whether the new
//! entity becomes the active player, whether a removal clears the reference —
//! live here, on plain entity identifiers; the hook shells only forward to
//! these methods and log the outcome.

use vstd::prelude::*;

verus! {

/// An entity identifier of the host engine's world, as a plain number.
pub type EntityId = u64;

/// Reference to the entity currently controlled as the player.
///
/// At most one entity is tracked at a time; the `Option` itself carries that
/// invariant.
pub struct ActivePlayer {
    pub player_id: Option<EntityId>,
}

/// What a player-added hook decided.
#[derive(Debug, Clone, Copy, PartialEq, Eq, Structural)]
pub enum AddOutcome {
    /// No player was active, so the added entity became the active player.
    Activated,
    /// A player was already active; the reference is left as it was, and the
    /// caller should warn that more than one player exists.
    AlreadyActive,
}

/// What a player-removed hook decided.
#[derive(Debug, Clone, Copy, PartialEq, Eq, Structural)]
pub enum RemoveOutcome {
    /// A player was active; the reference was cleared.
    Cleared,
    /// No player was active; the caller should warn that there was nothing to
    /// remove.
    NoneActive,
}

impl ActivePlayer {
    /// A fresh tracker with no active player.
    pub fn new() -> (r: ActivePlayer)
        ensures
            r.player_id is None,
    {
        ActivePlayer { player_id: None }
    }

    /// A player entity was added to the world: make it the active player if
    /// none is tracked, otherwise keep the existing reference.
    pub fn on_player_add(&mut self, entity: EntityId) -> (o: AddOutcome)
        ensures
            old(self).player_id is None ==> final(self).player_id == Some(entity)
                && o == AddOutcome::Activated,
            old(self).player_id is Some ==> *final(self) == *old(self)
                && o == AddOutcome::AlreadyActive,
    {
        match self.player_id {
            None => {
                self.player_id = Some(entity);
                AddOutcome::Activated
            }
            Some(_) => AddOutcome::AlreadyActive,
        }
    }

    /// A player entity was removed from the world: clear the reference if one
    /// was tracked.
    pub fn on_player_remove(&mut self) -> (o: RemoveOutcome)
        ensures
            old(self).player_id is Some ==> final(self).player_id is None
                && o == RemoveOutcome::Cleared,
            old(self).player_id is None ==> *final(self) == *old(self)
                && o == RemoveOutcome::NoneActive,
    {
        match self.player_id {
            Some(_) => {
                self.player_id = None;
                RemoveOutcome::Cleared
            }
            None => RemoveOutcome::NoneActive,
        }
    }

    /// Whether `entity` is the active player. The pan and zoom updates act on
    /// an entity exactly when this holds.
    pub fn is_active(&self, entity: EntityId) -> (r: bool)
        ensures
            r == (self.player_id == Some(entity)),
    {
        match self.player_id {
            Some(id) => id == entity,
            None => false,
        }
    }
}

/// Whether `camera_id` is among `children`, the child entities of the player
/// rig. The zoom update adjusts a camera exactly when it is such a child.
pub fn is_child_camera(children: &Vec<EntityId>, camera_id: EntityId) -> (r: bool)
    ensures
        r == children@.contains(camera_id),
{
    let mut i: usize = 0;
    while i < children.len()
        invariant
            i <= children@.len(),
            forall|j: int| 0 <= j < i ==> children@[j] != camera_id,
        decreases children@.len() - i,
    {
        if children[i] == camera_id {
            return true;
        }
        i = i + 1;
    }
    false
}

} // verus!
