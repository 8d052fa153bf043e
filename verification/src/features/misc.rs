use vstd::prelude::*;
use crate::entity::{Entity, UserCommand, ON_GROUND};
use crate::text::{chars_of, range_eq_str};

verus! {

/// Bunnyhop settings: `chance` is the percentage of ticks on which a jump is let through
/// while on the ground.
#[derive(Clone, Copy, Debug, PartialEq, Eq, Structural)]
pub struct BunnyhopConfig {
    pub enabled: bool,
    pub chance: i32,
}

impl Default for BunnyhopConfig {
    fn default() -> (c: Self)
        ensures
            c == (BunnyhopConfig { enabled: false, chance: 100 }),
    {
        BunnyhopConfig { enabled: false, chance: 100 }
    }
}

/// Miscellaneous settings.
#[derive(Clone, Copy, Debug, PartialEq, Eq, Structural)]
pub struct MiscConfig {
    pub bunnyhop: BunnyhopConfig,
    pub enable_discord_rich_presence: bool,
}

impl Default for MiscConfig {
    fn default() -> (c: Self)
        ensures
            c == (MiscConfig { bunnyhop: BunnyhopConfig { enabled: false, chance: 100 }, enable_discord_rich_presence: false }),
    {
        MiscConfig { bunnyhop: BunnyhopConfig::default(), enable_discord_rich_presence: false }
    }
}

/// `fastrand::i32(low..high)`: a random number from `low` up to but not including `high`.
/// The crate panics on an empty range, which `requires` rules out; which number comes is
/// left open.
#[verifier::external_body]
fn random_i32(low: i32, high: i32) -> (r: i32)
    requires
        low < high,
    ensures
        low <= r < high,
{
    fastrand::i32(low..high)
}

/// The buttons after the bunnyhop decision with the roll `roll`: with a local player that
/// is in the air, or whose roll exceeds the chance, the jump button is released.
pub open spec fn spec_bunnyhop(config: BunnyhopConfig, local_player: Option<&Entity>, roll: i32, buttons: i32) -> i32 {
    if !config.enabled {
        buttons
    } else {
        match local_player {
            Some(lp) => if lp.flags & ON_GROUND == 0 || !(roll <= config.chance) {
                buttons & !UserCommand::IN_JUMP
            } else {
                buttons
            },
            None => buttons,
        }
    }
}

/// The bunnyhop decision for a given roll of the dice.
pub fn apply_bunnyhop(config: &BunnyhopConfig, local_player: Option<&Entity>, roll: i32, cmd: &mut UserCommand)
    ensures
        final(cmd).buttons == spec_bunnyhop(
            *config,
            local_player,
            roll,
            old(cmd).buttons,
        ),
{
    if !config.enabled {
        return;
    }
    let should_bunnyhop = roll <= config.chance;
    match local_player {
        Some(lp) => if !lp.is_on_ground() || !should_bunnyhop {
            cmd.buttons = cmd.buttons & !UserCommand::IN_JUMP;
        },
        None => {},
    }
}

/// Releases the jump button while in the air, and on the ground on the ticks that the
/// chance rules out, so that holding jump hops at the right moment. The roll is drawn
/// from 1 to 99 whenever the feature is on.
pub fn bunnyhop(config: &BunnyhopConfig, local_player: Option<&Entity>, cmd: &mut UserCommand)
    ensures
        exists|roll: i32|
            1 <= roll < 100 && final(cmd).buttons == #[trigger] spec_bunnyhop(
                *config,
                local_player,
                roll,
                old(cmd).buttons,
            ),
{
    if !config.enabled {
        assert(final(cmd).buttons == spec_bunnyhop(*config, local_player, 1, old(cmd).buttons));
        return;
    }
    let roll = random_i32(1, 100);
    apply_bunnyhop(config, local_player, roll, cmd);
}


/// Bunnyhop only ever releases the jump button: every other button stays as it was, and
/// no button is pressed.
pub proof fn law_bunnyhop_only_releases_jump(config: BunnyhopConfig, local_player: Option<&Entity>, roll: i32, buttons: i32)
    ensures
        spec_bunnyhop(config, local_player, roll, buttons) & !UserCommand::IN_JUMP == buttons & !UserCommand::IN_JUMP,
        spec_bunnyhop(config, local_player, roll, buttons) & !buttons == 0,
{
    let r = spec_bunnyhop(config, local_player, roll, buttons);
    assert(r == buttons || r == buttons & !2i32);
    assert((buttons & !2i32) & !2i32 == buttons & !2i32) by (bit_vector);
    assert((buttons & !2i32) & !buttons == 0) by (bit_vector);
    assert(buttons & !buttons == 0) by (bit_vector);
}

/// With the feature on, a local player in the air never jumps.
pub proof fn law_bunnyhop_no_jump_in_air(config: BunnyhopConfig, lp: &Entity, roll: i32, buttons: i32)
    requires
        config.enabled,
        lp.flags & ON_GROUND == 0,
    ensures
        spec_bunnyhop(config, Some(lp), roll, buttons) & UserCommand::IN_JUMP == 0,
{
    assert((buttons & !2i32) & 2i32 == 0) by (bit_vector);
}

/// On the ground, a roll within the chance leaves the buttons as they are.
pub proof fn law_bunnyhop_jumps_on_ground_within_chance(config: BunnyhopConfig, lp: &Entity, roll: i32, buttons: i32)
    requires
        lp.flags & ON_GROUND != 0,
        roll <= config.chance,
    ensures
        spec_bunnyhop(config, Some(lp), roll, buttons) == buttons,
{
}

/// Where the game is, for the rich-presence status.
pub enum GameState<'a> {
    InMenu,
    OnServer { host_name: &'a str, map_name: &'a str, address: &'a str },
}

/// A rich-presence activity: a state line and an optional details line.
pub struct Activity {
    pub state: String,
    pub details: Option<String>,
}

/// The activity shown for a game state: the menu; a local server (address `loopback`);
/// or the map of a remote server, with the host name as details.
pub open spec fn spec_activity(state: GameState) -> (Seq<char>, Option<Seq<char>>) {
    match state {
        GameState::InMenu => ("In main menu"@, None),
        GameState::OnServer { host_name, map_name, address } => (
            if address@ == "loopback"@ {
                "Playing on a local server"@
            } else {
                "Playing on a server: "@ + map_name@
            },
            Some(host_name@),
        ),
    }
}

/// In the menu the activity reads "In main menu" with no details; on a server it shows the
/// host name as details and reads "Playing on a local server" when the address is
/// `loopback`, else "Playing on a server: " followed by the map's name.
pub proof fn law_activity_text(state: GameState)
    ensures
        state is InMenu ==> spec_activity(state) == ("In main menu"@, None::<Seq<char>>),
        state matches GameState::OnServer { host_name, map_name, address } ==> spec_activity(state).1 == Some(
            host_name@,
        ) && spec_activity(state).0 == if address@ == "loopback"@ {
            "Playing on a local server"@
        } else {
            "Playing on a server: "@ + map_name@
        },
{
}

/// The activity to show for a game state.
pub fn activity_for(state: &GameState) -> (a: Activity)
    ensures
        a.state@ == spec_activity(*state).0,
        match a.details {
            Some(d) => spec_activity(*state).1 == Some(d@),
            None => spec_activity(*state).1 is None,
        },
{
    match state {
        GameState::InMenu => Activity { state: String::from_str("In main menu"), details: None },
        GameState::OnServer { host_name, map_name, address } => {
            let addr = chars_of(address);
            let n = addr.len();
            assert(addr@.subrange(0, n as int) =~= address@);
            let is_local_server = range_eq_str(&addr, 0, n, "loopback");
            let line = if is_local_server {
                String::from_str("Playing on a local server")
            } else {
                let mut s = String::from_str("Playing on a server: ");
                s.append(map_name);
                s
            };
            Activity { state: line, details: Some(String::from_str(host_name)) }
        },
    }
}

} // verus!
