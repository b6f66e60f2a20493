use vstd::prelude::*;
use std::collections::HashMap;
use crate::ids::EntityId;

verus! {

broadcast use vstd::std_specs::hash::group_hash_axioms;

/// Whether the client plays against a server.
#[derive(Clone, Copy, Debug, PartialEq, Eq, Structural)]
pub enum GameState {
    Connecting,
    Online,
    Offline,
}

/// The client's bookkeeping of the shared world: its own player, the
/// entities it made for identities that the server sent, and whether it
/// is online. `E` is the handle of an entity in the client's world.
///
/// The identity map holds every entity that the server names by identity:
/// remote players, our own player (once the server tells us its identity)
/// and birds. Bells carry no identity on the wire and are never in it.
pub struct WorldManager<E> {
    me: Option<E>,
    entityid_map: HashMap<u128, E>,
    state: GameState,
}

impl<E: Copy> WorldManager<E> {
    pub closed spec fn spec_state(&self) -> GameState {
        self.state
    }

    pub closed spec fn spec_me(&self) -> Option<E> {
        self.me
    }

    /// The entity made for each identity that the server sent, by its value.
    pub closed spec fn known(&self) -> Map<u128, E> {
        self.entityid_map@
    }

    /// Connecting, with no player and no identities known.
    pub fn new() -> (w: Self)
        ensures
            w.spec_state() == GameState::Connecting,
            w.spec_me() is None,
            w.known() == Map::<u128, E>::empty(),
    {
        WorldManager { me: None, entityid_map: HashMap::new(), state: GameState::Connecting }
    }

    pub fn state(&self) -> (s: GameState)
        ensures
            s == self.spec_state(),
    {
        self.state
    }

    /// Our player's entity, if it has one.
    pub fn me(&self) -> (m: Option<E>)
        ensures
            m == self.spec_me(),
    {
        self.me
    }

    /// Switches to playing alone. Returns whether our player must be made
    /// (and then reported with `set_me`): a player already there is kept,
    /// so that play goes on seamlessly.
    pub fn init_offline(&mut self) -> (needs_player: bool)
        ensures
            final(self).spec_state() == GameState::Offline,
            needs_player <==> old(self).spec_me() is None,
            final(self).spec_me() == old(self).spec_me(),
            final(self).known() == old(self).known(),
    {
        self.state = GameState::Offline;
        self.me.is_none()
    }

    /// Records our player's entity.
    pub fn set_me(&mut self, me: E)
        ensures
            final(self).spec_me() == Some(me),
            final(self).spec_state() == old(self).spec_state(),
            final(self).known() == old(self).known(),
    {
        self.me = Some(me);
    }

    /// Switches to playing online with `me`, the player made in the freshly
    /// emptied world.
    pub fn init_online(&mut self, me: E)
        ensures
            final(self).spec_state() == GameState::Online,
            final(self).spec_me() == Some(me),
            final(self).known() == old(self).known(),
    {
        self.me = Some(me);
        self.state = GameState::Online;
    }

    /// Messages of the server count only while online.
    pub fn accepts_messages(&self) -> (b: bool)
        ensures
            b <==> self.spec_state() == GameState::Online,
    {
        self.state == GameState::Online
    }

    /// The entity made for an identity, if any.
    pub fn entity_of(&self, id: EntityId) -> (e: Option<E>)
        ensures
            e == lookup(self.known(), id.0),
    {
        match self.entityid_map.get(&id.0) {
            Some(e) => Some(*e),
            None => None,
        }
    }

    /// Records the entity made for an identity that was not known.
    pub fn register(&mut self, id: EntityId, e: E)
        ensures
            final(self).known() == old(self).known().insert(id.0, e),
            final(self).spec_state() == old(self).spec_state(),
            final(self).spec_me() == old(self).spec_me(),
    {
        self.entityid_map.insert(id.0, e);
    }

    /// The server told us our identity: it now names our player's entity
    /// `ours`. Returns the entity it named before, which is to be deleted.
    pub fn claim_id(&mut self, id: EntityId, ours: E) -> (previous: Option<E>)
        ensures
            final(self).known() == old(self).known().insert(id.0, ours),
            previous == lookup(old(self).known(), id.0),
            final(self).spec_state() == old(self).spec_state(),
            final(self).spec_me() == old(self).spec_me(),
    {
        self.entityid_map.insert(id.0, ours)
    }
}

/// The kind of a server message entry that names an identity.
#[derive(Clone, Copy, Debug, PartialEq, Eq, Structural)]
pub enum EntryKind {
    /// Where a player is and how it moves.
    PlayerUpdate,
    /// A player left.
    PlayerDelete,
    /// Where a bird is and where it heads.
    Bird,
}

/// What the client does with one entry of a server message. Entities made
/// here (remote players and birds) are registered in the identity map, so
/// that later entries with the same identity reach them.
#[derive(Clone, Copy, Debug, PartialEq, Eq)]
pub enum EntryAction<E> {
    /// Nothing.
    Ignore,
    /// Make an entity for the identity, register it, and apply the entry to
    /// it; a bird made so also gets the jump marker.
    MakeAndApply,
    /// Apply the entry to `entity`, giving it the jump marker first when
    /// `mark_jumpable`.
    Apply { entity: E, mark_jumpable: bool },
    /// Delete the entity.
    Delete(E),
}

/// Decides what an entry of a server message does. `found` is the entity
/// known for the entry's identity (see `WorldManager::entity_of`);
/// `found_is_ours` and `found_is_bird` say whether that entity is our own
/// player and whether it is a bird already. Updates of our own player are
/// ignored (we move it ourselves), a player that is not known is not
/// deleted, and an entity becomes jumpable when it first becomes a bird.
pub fn entry_action<E: Copy>(kind: EntryKind, found: Option<E>, found_is_ours: bool, found_is_bird: bool) -> (a: EntryAction<E>)
    ensures
        found is None ==> a == (if kind == EntryKind::PlayerDelete {
            EntryAction::<E>::Ignore
        } else {
            EntryAction::<E>::MakeAndApply
        }),
        found matches Some(e) ==> a == (match kind {
            EntryKind::PlayerUpdate => if found_is_ours {
                EntryAction::<E>::Ignore
            } else {
                EntryAction::Apply { entity: e, mark_jumpable: false }
            },
            EntryKind::PlayerDelete => EntryAction::Delete(e),
            EntryKind::Bird => EntryAction::Apply { entity: e, mark_jumpable: !found_is_bird },
        }),
{
    match found {
        None => match kind {
            EntryKind::PlayerDelete => EntryAction::Ignore,
            _ => EntryAction::MakeAndApply,
        },
        Some(e) => match kind {
            EntryKind::PlayerUpdate => if found_is_ours {
                EntryAction::Ignore
            } else {
                EntryAction::Apply { entity: e, mark_jumpable: false }
            },
            EntryKind::PlayerDelete => EntryAction::Delete(e),
            EntryKind::Bird => EntryAction::Apply { entity: e, mark_jumpable: !found_is_bird },
        },
    }
}

/// The entity that a map of identities gives for `id`, if any.
pub open spec fn lookup<E>(known: Map<u128, E>, id: u128) -> Option<E> {
    if known.contains_key(id) {
        Some(known[id])
    } else {
        None
    }
}

/// After an identity is claimed or registered for an entity, looking it up
/// gives that entity, and every other identity keeps what it had.
pub proof fn law_lookup_after_insert<E>(known: Map<u128, E>, id: EntityId, e: E, other: u128)
    requires
        other != id.0,
    ensures
        lookup(known.insert(id.0, e), id.0) == Some(e),
        lookup(known.insert(id.0, e), other) == lookup(known, other),
{
}

} // verus!
