use vstd::prelude::*;
use crate::entity::{is_rifle_with_scope_code, is_sniper_rifle_code, Entity};

verus! {

/// Whether the custom crosshair is drawn this frame: it is switched on and the local
/// player holds a weapon, which is no sniper rifle, or is one out of its scope while the
/// crosshair is forced for sniper rifles.
pub open spec fn spec_should_draw_better_crosshair(enabled: bool, force_sniper_rifles: bool, active_weapon: Option<Entity>) -> bool {
    enabled && match active_weapon {
        Some(wp) => !(is_sniper_rifle_code(wp.weapon_id) && (!force_sniper_rifles || (
        is_rifle_with_scope_code(wp.weapon_id) && wp.weapon_mode == 1))),
        None => false,
    }
}

/// Decides whether the custom crosshair is drawn; the caller draws its four bars.
pub fn should_draw_better_crosshair(enabled: bool, force_sniper_rifles: bool, active_weapon: Option<&Entity>) -> (b: bool)
    ensures
        b == spec_should_draw_better_crosshair(
            enabled,
            force_sniper_rifles,
            match active_weapon { Some(e) => Some(*e), None => None },
        ),
{
    if !enabled {
        return false;
    }
    match active_weapon {
        Some(wp) => !(wp.is_sniper_rifle() && (!force_sniper_rifles || wp.is_in_scope())),
        None => false,
    }
}

/// The crosshair is drawn only while switched on and a weapon is held; for a weapon other
/// than the Scout, the AWP, the G3SG1 and the SG550 it is always drawn, and for those four
/// only when forced for sniper rifles and the scope is not in use.
pub proof fn law_crosshair_and_sniper_rifles(enabled: bool, force_sniper_rifles: bool, wp: Entity)
    ensures
        !spec_should_draw_better_crosshair(enabled, force_sniper_rifles, None),
        spec_should_draw_better_crosshair(enabled, force_sniper_rifles, Some(wp)) <==> enabled && (!(wp.weapon_id == 3
            || wp.weapon_id == 17 || wp.weapon_id == 23 || wp.weapon_id == 13) || (force_sniper_rifles
            && wp.weapon_mode != 1)),
{
    crate::entity::law_scoped_weapon_codes(wp.weapon_id);
}

} // verus!
