use vstd::prelude::*;
use crate::render::{RenderCommand, RenderQueue};

verus! {

/// A command issued by the client for one tick; only the button bits are read.
pub struct UserCommand {
    pub buttons: i32,
}

impl UserCommand {
    /// Bit of the jump button in `buttons`.
    pub const IN_JUMP: i32 = 2;
}

/// Weapon identifiers of the game, as reported by a weapon entity.
#[derive(Clone, Copy, Debug, PartialEq, Eq, Structural)]
pub enum WeaponId {
    Scout,
    Aug,
    SG550,
    Awp,
    G3SG1,
    SG552,
    AK47,
    Knife,
}

/// The number the game uses for each weapon identifier.
pub open spec fn weapon_code(id: WeaponId) -> i32 {
    match id {
        WeaponId::Scout => 3,
        WeaponId::Aug => 8,
        WeaponId::SG550 => 13,
        WeaponId::Awp => 17,
        WeaponId::G3SG1 => 23,
        WeaponId::SG552 => 26,
        WeaponId::AK47 => 27,
        WeaponId::Knife => 28,
    }
}

impl WeaponId {
    /// The game's number for this weapon.
    pub fn code(&self) -> (c: i32)
        ensures
            c == weapon_code(*self),
    {
        match self {
            WeaponId::Scout => 3,
            WeaponId::Aug => 8,
            WeaponId::SG550 => 13,
            WeaponId::Awp => 17,
            WeaponId::G3SG1 => 23,
            WeaponId::SG552 => 26,
            WeaponId::AK47 => 27,
            WeaponId::Knife => 28,
        }
    }

    /// The weapon identifier with the game's number `code`, if there is one.
    pub fn from_code(code: i32) -> (id: Option<WeaponId>)
        ensures
            id matches Some(w) ==> weapon_code(w) == code,
            id is None <==> (forall|w: WeaponId| weapon_code(w) != code),
    {
        let r = if code == 3 {
            Some(WeaponId::Scout)
        } else if code == 8 {
            Some(WeaponId::Aug)
        } else if code == 13 {
            Some(WeaponId::SG550)
        } else if code == 17 {
            Some(WeaponId::Awp)
        } else if code == 23 {
            Some(WeaponId::G3SG1)
        } else if code == 26 {
            Some(WeaponId::SG552)
        } else if code == 27 {
            Some(WeaponId::AK47)
        } else if code == 28 {
            Some(WeaponId::Knife)
        } else {
            None
        };
        proof {
            if let Some(w) = r {
                assert(weapon_code(w) == code);
            }
            if r is None {
                assert forall|w: WeaponId| weapon_code(w) != code by {
                    match w {
                        WeaponId::Scout => {},
                        WeaponId::Aug => {},
                        WeaponId::SG550 => {},
                        WeaponId::Awp => {},
                        WeaponId::G3SG1 => {},
                        WeaponId::SG552 => {},
                        WeaponId::AK47 => {},
                        WeaponId::Knife => {},
                    }
                }
            }
        }
        r
    }
}

/// The handle value that refers to no entity.
pub const INVALID_HANDLE: i32 = -1;

/// The networking side of an entity.
#[derive(Clone, Copy, Debug, PartialEq, Eq, Structural)]
pub struct NetworkableEntity {
    pub index: i32,
    pub dormant: bool,
    pub class_id: i32,
}

impl NetworkableEntity {
    /// Whether the server stopped sending updates for the entity.
    pub fn is_dormant(&self) -> (b: bool)
        ensures
            b == self.dormant,
    {
        self.dormant
    }

    /// The entity's index in the entity list.
    pub fn index(&self) -> (i: i32)
        ensures
            i == self.index,
    {
        self.index
    }
}

/// The rendering side of an entity.
#[derive(Clone, Copy, Debug, PartialEq, Eq, Structural)]
pub struct RenderableEntity {
    pub entity_index: i32,
    pub should_draw: bool,
}

/// Flags passed to `DrawModel`: draw through the studio renderer.
pub const STUDIO_RENDER: i32 = 1;

impl RenderableEntity {
    /// Whether the engine would draw the entity this frame.
    pub fn should_draw(&self) -> (b: bool)
        ensures
            b == self.should_draw,
    {
        self.should_draw
    }

    /// Draws the entity's model through the studio renderer.
    pub fn draw_model(&self, queue: &mut RenderQueue)
        ensures
            final(queue)@ == old(queue)@.push(
                RenderCommand::DrawModel { entity_index: self.entity_index, flags: STUDIO_RENDER },
            ),
    {
        queue.push(RenderCommand::DrawModel { entity_index: self.entity_index, flags: STUDIO_RENDER });
    }
}

/// What the toolkit reads of a game entity in one frame.
#[derive(Clone, Copy, Debug, PartialEq, Eq, Structural)]
pub struct Entity {
    /// The handle by which other entities refer to this one.
    pub handle: i32,
    pub team: i32,
    /// `CBasePlayer::m_fFlags`.
    pub flags: i32,
    /// `CWeaponCSBase::m_weaponMode`.
    pub weapon_mode: i32,
    /// The weapon number the entity reports.
    pub weapon_id: i32,
    pub local_player: bool,
    pub player: bool,
    pub weapon: bool,
    pub viewmodel: bool,
    /// Handle of the entity that owns this one.
    pub owner_handle: i32,
    /// Handle of the first entity attached to this one.
    pub move_child: i32,
    /// Handle of the next entity attached to the same parent.
    pub move_peer: i32,
    pub networkable: NetworkableEntity,
    pub renderable: RenderableEntity,
}

/// Bit of `flags` that is set while the entity stands on the ground.
pub const ON_GROUND: i32 = 1;

/// Whether the weapon number belongs to a sniper rifle.
pub open spec fn is_sniper_rifle_code(code: i32) -> bool {
    code == weapon_code(WeaponId::Scout) || code == weapon_code(WeaponId::Awp)
        || code == weapon_code(WeaponId::G3SG1) || code == weapon_code(WeaponId::SG550)
}

/// Whether the weapon number belongs to a rifle with a scope.
pub open spec fn is_rifle_with_scope_code(code: i32) -> bool {
    is_sniper_rifle_code(code) || code == weapon_code(WeaponId::Aug) || code == weapon_code(
        WeaponId::SG552,
    )
}

/// Each weapon has its own number; the AK-47 is 27 and the knife 28.
pub proof fn law_weapon_codes_distinct(a: WeaponId, b: WeaponId)
    ensures
        a != b ==> weapon_code(a) != weapon_code(b),
        weapon_code(WeaponId::AK47) == 27 && weapon_code(WeaponId::Knife) == 28,
{
}

/// The sniper rifles are exactly the Scout (3), the AWP (17), the G3SG1 (23) and the SG550
/// (13); the rifles with a scope are those and the AUG (8) and the SG552 (26).
pub proof fn law_scoped_weapon_codes(code: i32)
    ensures
        is_sniper_rifle_code(code) <==> (code == 3 || code == 17 || code == 23 || code == 13),
        is_rifle_with_scope_code(code) <==> (code == 3 || code == 17 || code == 23 || code == 13 || code == 8
            || code == 26),
{
}

impl Entity {
    /// Whether the ground flag is set.
    pub fn is_on_ground(&self) -> (b: bool)
        ensures
            b == (self.flags & ON_GROUND != 0),
    {
        (self.flags & ON_GROUND) != 0
    }

    /// Whether the entity is the local player.
    pub fn is_local_player(&self) -> (b: bool)
        ensures
            b == self.local_player,
    {
        self.local_player
    }

    pub fn is_player(&self) -> (b: bool)
        ensures
            b == self.player,
    {
        self.player
    }

    pub fn is_weapon(&self) -> (b: bool)
        ensures
            b == self.weapon,
    {
        self.weapon
    }

    pub fn is_viewmodel(&self) -> (b: bool)
        ensures
            b == self.viewmodel,
    {
        self.viewmodel
    }

    pub fn team(&self) -> (t: i32)
        ensures
            t == self.team,
    {
        self.team
    }

    /// Whether the entity has no owner.
    pub fn has_no_owner(&self) -> (b: bool)
        ensures
            b == (self.owner_handle == INVALID_HANDLE),
    {
        self.owner_handle == INVALID_HANDLE
    }

    pub fn networkable(&self) -> (n: &NetworkableEntity)
        ensures
            *n == self.networkable,
    {
        &self.networkable
    }

    pub fn renderable(&self) -> (r: &RenderableEntity)
        ensures
            *r == self.renderable,
    {
        &self.renderable
    }

    /// The weapon identifier the entity reports, if the game's number is a known one.
    pub fn weapon_id(&self) -> (id: Option<WeaponId>)
        ensures
            id matches Some(w) ==> weapon_code(w) == self.weapon_id,
            id is None <==> (forall|w: WeaponId| weapon_code(w) != self.weapon_id),
    {
        WeaponId::from_code(self.weapon_id)
    }

    /// Whether the weapon is the Scout, the AWP, the G3SG1 or the SG550.
    pub fn is_sniper_rifle(&self) -> (b: bool)
        ensures
            b == is_sniper_rifle_code(self.weapon_id),
    {
        let c = self.weapon_id;
        c == 3 || c == 17 || c == 23 || c == 13
    }

    /// Whether the weapon is a sniper rifle, the AUG or the SG552.
    pub fn is_rifle_with_scope(&self) -> (b: bool)
        ensures
            b == is_rifle_with_scope_code(self.weapon_id),
    {
        let c = self.weapon_id;
        self.is_sniper_rifle() || c == 8 || c == 26
    }

    /// Whether the weapon has a scope and is in its secondary mode (zoomed in).
    pub fn is_in_scope(&self) -> (b: bool)
        ensures
            b == (is_rifle_with_scope_code(self.weapon_id) && self.weapon_mode == 1),
    {
        self.is_rifle_with_scope() && self.weapon_mode == 1
    }

    /// The entities attached to this one: the first child, then its peers.
    pub fn attachments<'a>(&'a self, list: &'a EntityList) -> (it: EntityAttachmentIterator<'a>)
        ensures
            it.entity == self,
            it.first_pass,
            it.list == list,
    {
        EntityAttachmentIterator::new(self, list)
    }

    /// The first entity attached to this one.
    pub fn move_child<'a>(&self, list: &'a EntityList) -> (e: Option<&'a Entity>)
        ensures
            e == list.spec_from_handle(self.move_child),
    {
        list.get_entity_from_handle(self.move_child)
    }

    /// The next entity attached to the same parent as this one.
    pub fn move_peer<'a>(&self, list: &'a EntityList) -> (e: Option<&'a Entity>)
        ensures
            e == list.spec_from_handle(self.move_peer),
    {
        list.get_entity_from_handle(self.move_peer)
    }
}

/// The index of the first entity in `s` with the given handle.
pub open spec fn first_with_handle(s: Seq<Entity>, handle: i32) -> Option<int>
    decreases s.len(),
{
    if s.len() == 0 {
        None
    } else if s.last().handle == handle && !(first_with_handle(s.drop_last(), handle) is Some) {
        Some(s.len() - 1)
    } else {
        first_with_handle(s.drop_last(), handle)
    }
}

/// The index of the first entity in `s` with the given entity-list index.
pub open spec fn first_with_index(s: Seq<Entity>, index: i32) -> Option<int>
    decreases s.len(),
{
    if s.len() == 0 {
        None
    } else if s.last().networkable.index == index && !(first_with_index(s.drop_last(), index) is Some) {
        Some(s.len() - 1)
    } else {
        first_with_index(s.drop_last(), index)
    }
}

/// The entities of the game in one frame.
pub struct EntityList {
    pub entities: Vec<Entity>,
}

proof fn lemma_first_with_handle(s: Seq<Entity>, handle: i32, i: int)
    requires
        0 <= i < s.len(),
        s[i].handle == handle,
        forall|j: int| 0 <= j < i ==> s[j].handle != handle,
    ensures
        first_with_handle(s, handle) == Some(i),
    decreases s.len(),
{
    if i < s.len() - 1 {
        lemma_first_with_handle(s.drop_last(), handle, i);
    } else {
        lemma_no_handle(s.drop_last(), handle);
    }
}

proof fn lemma_no_handle(s: Seq<Entity>, handle: i32)
    requires
        forall|j: int| 0 <= j < s.len() ==> s[j].handle != handle,
    ensures
        first_with_handle(s, handle) is None,
    decreases s.len(),
{
    if s.len() > 0 {
        lemma_no_handle(s.drop_last(), handle);
    }
}

proof fn lemma_first_with_index(s: Seq<Entity>, index: i32, i: int)
    requires
        0 <= i < s.len(),
        s[i].networkable.index == index,
        forall|j: int| 0 <= j < i ==> s[j].networkable.index != index,
    ensures
        first_with_index(s, index) == Some(i),
    decreases s.len(),
{
    if i < s.len() - 1 {
        lemma_first_with_index(s.drop_last(), index, i);
    } else {
        lemma_no_index(s.drop_last(), index);
    }
}

proof fn lemma_no_index(s: Seq<Entity>, index: i32)
    requires
        forall|j: int| 0 <= j < s.len() ==> s[j].networkable.index != index,
    ensures
        first_with_index(s, index) is None,
    decreases s.len(),
{
    if s.len() > 0 {
        lemma_no_index(s.drop_last(), index);
    }
}

impl EntityList {
    /// The entity a handle refers to: the first one that has it.
    pub open spec fn spec_from_handle(&self, handle: i32) -> Option<&Entity> {
        match first_with_handle(self.entities@, handle) {
            Some(i) => Some(&self.entities@[i]),
            None => None,
        }
    }

    /// The entity at an entity-list index: the first one that has it.
    pub open spec fn spec_by_index(&self, index: i32) -> Option<&Entity> {
        match first_with_index(self.entities@, index) {
            Some(i) => Some(&self.entities@[i]),
            None => None,
        }
    }

    /// Looks an entity up by handle.
    pub fn get_entity_from_handle(&self, handle: i32) -> (e: Option<&Entity>)
        ensures
            e == self.spec_from_handle(handle),
    {
        let mut i: usize = 0;
        while i < self.entities.len()
            invariant
                i <= self.entities.len(),
                forall|j: int| 0 <= j < i ==> self.entities@[j].handle != handle,
            decreases self.entities.len() - i,
        {
            if self.entities[i].handle == handle {
                proof {
                    lemma_first_with_handle(self.entities@, handle, i as int);
                }
                return Some(&self.entities[i]);
            }
            i = i + 1;
        }
        proof {
            lemma_no_handle(self.entities@, handle);
        }
        None
    }

    /// Looks an entity up by its index in the entity list.
    pub fn get_entity_by_index(&self, index: i32) -> (e: Option<&Entity>)
        ensures
            e == self.spec_by_index(index),
    {
        let mut i: usize = 0;
        while i < self.entities.len()
            invariant
                i <= self.entities.len(),
                forall|j: int| 0 <= j < i ==> self.entities@[j].networkable.index != index,
            decreases self.entities.len() - i,
        {
            if self.entities[i].networkable.index == index {
                proof {
                    lemma_first_with_index(self.entities@, index, i as int);
                }
                return Some(&self.entities[i]);
            }
            i = i + 1;
        }
        proof {
            lemma_no_index(self.entities@, index);
        }
        None
    }
}

/// The entities reached from `handle` by following `move_peer` handles, if the chain
/// ends within `fuel` steps.
pub open spec fn peer_chain(list: &EntityList, handle: i32, fuel: nat) -> Option<Seq<Entity>>
    decreases fuel,
{
    if fuel == 0 {
        None
    } else {
        match list.spec_from_handle(handle) {
            None => Some(Seq::<Entity>::empty()),
            Some(e) => match peer_chain(list, e.move_peer, (fuel - 1) as nat) {
                Some(rest) => Some(seq![*e] + rest),
                None => None,
            },
        }
    }
}

/// The entities attached to `e` in the order the attachment walk yields them; `None` when
/// the walk never ends (the handles form a cycle).
pub open spec fn attachment_chain(list: &EntityList, e: &Entity) -> Option<Seq<Entity>> {
    peer_chain(list, e.move_child, (list.entities@.len() + 1) as nat)
}

/// A chain that ends within some number of steps ends the same way with more.
pub proof fn lemma_peer_chain_fuel(list: &EntityList, handle: i32, fuel: nat, more: nat)
    requires
        peer_chain(list, handle, fuel) is Some,
        fuel <= more,
    ensures
        peer_chain(list, handle, more) == peer_chain(list, handle, fuel),
    decreases fuel,
{
    if fuel > 0 {
        if let Some(e) = list.spec_from_handle(handle) {
            lemma_peer_chain_fuel(list, e.move_peer, (fuel - 1) as nat, (more - 1) as nat);
        }
    }
}

/// Walks the entities attached to one entity: the first call yields its first child,
/// every later call the next peer of the entity yielded last.
pub struct EntityAttachmentIterator<'a> {
    pub entity: &'a Entity,
    pub first_pass: bool,
    pub list: &'a EntityList,
}

impl<'a> EntityAttachmentIterator<'a> {
    pub fn new(entity: &'a Entity, list: &'a EntityList) -> (it: Self)
        ensures
            it.entity == entity,
            it.first_pass,
            it.list == list,
    {
        EntityAttachmentIterator { entity, first_pass: true, list }
    }

    /// The next attached entity; `None` once the chain ends.
    pub fn next(&mut self) -> (e: Option<&'a Entity>)
        ensures
            final(self).list == old(self).list,
            !final(self).first_pass,
            ({
                let h = if old(self).first_pass {
                    old(self).entity.move_child
                } else {
                    old(self).entity.move_peer
                };
                match old(self).list.spec_from_handle(h) {
                    Some(n) => e == Some(n) && final(self).entity == n,
                    None => e is None && final(self).entity == old(self).entity,
                }
            }),
    {
        let h = if self.first_pass {
            self.entity.move_child
        } else {
            self.entity.move_peer
        };
        self.first_pass = false;
        match self.list.get_entity_from_handle(h) {
            Some(n) => {
                self.entity = n;
                Some(n)
            },
            None => None,
        }
    }
}

} // verus!
