use dopamine::entities::{iter, players_iter};
use dopamine::entity::{
    Entity, EntityAttachmentIterator, EntityList, NetworkableEntity, RenderableEntity, UserCommand, WeaponId,
    INVALID_HANDLE, ON_GROUND, STUDIO_RENDER,
};
use dopamine::features::renderable_object::RenderableObject;
use dopamine::render::{RenderCommand, RenderQueue};

fn entity(index: i32, handle: i32) -> Entity {
    Entity {
        handle,
        team: 2,
        flags: 0,
        weapon_mode: 0,
        weapon_id: 0,
        local_player: false,
        player: false,
        weapon: false,
        viewmodel: false,
        owner_handle: INVALID_HANDLE,
        move_child: INVALID_HANDLE,
        move_peer: INVALID_HANDLE,
        networkable: NetworkableEntity { index, dormant: false, class_id: 0 },
        renderable: RenderableEntity { entity_index: index, should_draw: true },
    }
}

#[test]
fn on_ground_follows_the_flag_bit() {
    let mut e = entity(1, 10);
    assert!(!e.is_on_ground());
    e.flags = ON_GROUND | 4;
    assert!(e.is_on_ground());
}

#[test]
fn sniper_rifles_and_scopes() {
    let mut e = entity(1, 10);
    e.weapon_id = WeaponId::Awp.code();
    assert!(e.is_sniper_rifle());
    assert!(e.is_rifle_with_scope());
    assert!(!e.is_in_scope());
    e.weapon_mode = 1;
    assert!(e.is_in_scope());
    e.weapon_id = WeaponId::Aug.code();
    assert!(!e.is_sniper_rifle());
    assert!(e.is_rifle_with_scope());
    assert!(e.is_in_scope());
    e.weapon_id = WeaponId::AK47.code();
    assert!(!e.is_rifle_with_scope());
    assert!(!e.is_in_scope());
}

#[test]
fn weapon_codes_round_trip() {
    for id in [
        WeaponId::Scout,
        WeaponId::Aug,
        WeaponId::SG550,
        WeaponId::Awp,
        WeaponId::G3SG1,
        WeaponId::SG552,
        WeaponId::AK47,
        WeaponId::Knife,
    ] {
        assert_eq!(WeaponId::from_code(id.code()), Some(id));
    }
    assert_eq!(WeaponId::AK47.code(), 27);
    assert_eq!(WeaponId::from_code(1), None);
}

#[test]
fn lookups_by_handle_and_index() {
    let list = EntityList { entities: vec![entity(1, 10), entity(2, 20), entity(2, 30)] };
    assert_eq!(list.get_entity_by_index(2).map(|e| e.handle), Some(20));
    assert_eq!(list.get_entity_from_handle(30).map(|e| e.networkable.index), Some(2));
    assert!(list.get_entity_by_index(7).is_none());
    assert!(list.get_entity_from_handle(INVALID_HANDLE).is_none());
}

#[test]
fn attachments_walk_child_then_peers() {
    let mut parent = entity(1, 10);
    parent.move_child = 20;
    let mut first = entity(2, 20);
    first.move_peer = 30;
    let second = entity(3, 30);
    let list = EntityList { entities: vec![parent, first, second] };
    let p = list.entities[0];
    let mut it = EntityAttachmentIterator::new(&p, &list);
    assert_eq!(it.next().map(|e| e.handle), Some(20));
    assert_eq!(it.next().map(|e| e.handle), Some(30));
    assert!(it.next().is_none());
    let mut it2 = p.attachments(&list);
    assert_eq!(it2.next().map(|e| e.handle), Some(20));
}

#[test]
fn renderable_draws_through_the_studio_renderer() {
    let e = entity(5, 50);
    let mut q = RenderQueue::new();
    e.renderable().draw_model(&mut q);
    assert_eq!(q.commands, vec![RenderCommand::DrawModel { entity_index: 5, flags: STUDIO_RENDER }]);
}

#[test]
fn renderable_object_draws_model_and_drawable_attachments() {
    let mut parent = entity(1, 10);
    parent.move_child = 20;
    let mut hidden = entity(2, 20);
    hidden.renderable.should_draw = false;
    hidden.move_peer = 30;
    let shown = entity(3, 30);
    let list = EntityList { entities: vec![parent, hidden, shown] };
    let p = list.entities[0];
    let obj = RenderableObject::new(&p);
    assert!(obj.should_draw_model());
    let mut q = RenderQueue::new();
    obj.draw_model(&mut q);
    obj.draw_attachments(&list, &mut q);
    assert_eq!(
        q.commands,
        vec![
            RenderCommand::DrawModel { entity_index: 1, flags: STUDIO_RENDER },
            RenderCommand::DrawModel { entity_index: 3, flags: STUDIO_RENDER },
        ]
    );
}

#[test]
fn iteration_skips_the_local_player_and_missing_slots() {
    let mut lp = entity(1, 10);
    lp.local_player = true;
    let list = EntityList { entities: vec![lp, entity(3, 30), entity(2, 20), entity(9, 90)] };
    let all: Vec<i32> = iter(&list, 4).iter().map(|e| e.networkable.index).collect();
    assert_eq!(all, vec![2, 3]);
    let players: Vec<i32> = players_iter(&list, 2).iter().map(|e| e.networkable.index).collect();
    assert_eq!(players, vec![2]);
    assert!(iter(&list, 0).is_empty());
}

#[test]
fn user_command_jump_bit() {
    assert_eq!(UserCommand::IN_JUMP, 2);
}
