use vstd::prelude::*;
use crate::engine::ModelRenderInfo;
use crate::entity::{Entity, EntityList};
use crate::features::chams::{chams_kind, layers_usable, Chams, ChamsConfig, ChamsStep};
use crate::features::misc::GameState;
use crate::text::{chars_of, range_eq_str};
use crate::win32::{VK_HOME, VK_INSERT};

verus! {

/// The entity at an entity-list index, by value.
pub open spec fn entity_at(list: &EntityList, index: i32) -> Option<Entity> {
    match list.spec_by_index(index) {
        Some(e) => Some(*e),
        None => None,
    }
}

/// What the model-render hook does for one model. While a material is forced on every
/// model, or while the glow effect draws, the model is drawn as the game meant it.
/// Otherwise the chams pass runs for the model's entity, the model is drawn as meant when
/// no visible layer was applied, and the models' own materials are restored.
pub fn draw_model_execute(
    material_overridden: bool,
    glow_drawing: bool,
    chams: &mut Chams,
    config: &ChamsConfig,
    list: &EntityList,
    info: &ModelRenderInfo,
    local_player: Option<&Entity>,
) -> (steps: Vec<ChamsStep>)
    requires
        match chams_kind(entity_at(list, info.entity_index), match local_player { Some(e) => Some(*e), None => None }) {
            Some(k) => layers_usable(config.spec_get(k).layers@),
            None => true,
        },
    ensures
        final(chams).materials == old(chams).materials,
        material_overridden || glow_drawing ==> steps@ == seq![ChamsStep::DrawOriginal] && final(chams).applied
            == old(chams).applied,
        !(material_overridden || glow_drawing) ==> match chams_kind(
            entity_at(list, info.entity_index),
            match local_player { Some(e) => Some(*e), None => None },
        ) {
            Some(k) => {
                let (s, applied) = old(chams).materials.spec_apply_chams(k, config.spec_get(k).layers@);
                &&& final(chams).applied == applied
                &&& steps@ == s + (if applied {
                    Seq::empty()
                } else {
                    seq![ChamsStep::DrawOriginal]
                }) + seq![ChamsStep::ResetMaterial]
            },
            None => !final(chams).applied && steps@ == seq![ChamsStep::DrawOriginal, ChamsStep::ResetMaterial],
        },
{
    if material_overridden || glow_drawing {
        let mut steps: Vec<ChamsStep> = Vec::new();
        steps.push(ChamsStep::DrawOriginal);
        return steps;
    }
    let entity = list.get_entity_by_index(info.entity_index);
    let mut steps = chams.draw(config, entity, local_player);
    let ghost chams_steps = steps@;
    if !chams.applied() {
        steps.push(ChamsStep::DrawOriginal);
    }
    steps.push(ChamsStep::ResetMaterial);
    proof {
        if chams.applied {
            assert(steps@ =~= chams_steps + Seq::<ChamsStep>::empty() + seq![ChamsStep::ResetMaterial]);
        } else {
            assert(steps@ =~= chams_steps + seq![ChamsStep::DrawOriginal] + seq![ChamsStep::ResetMaterial]);
        }
    }
    steps
}

/// Whether `GetAsyncKeyState` reports the key down, as the hooks read it: any of the low
/// fifteen bits set.
pub open spec fn spec_key_down(state: i16) -> bool {
    state & 0x7FFFi16 != 0
}

/// Reads a key as the hooks do.
pub fn key_down(state: i16) -> (b: bool)
    ensures
        b == spec_key_down(state),
{
    state & i16::MAX != 0
}

/// Whether `GetAsyncKeyState` reports the key pressed since the last query.
pub fn key_pressed_since_last_query(state: i16) -> (b: bool)
    ensures
        b == (state & 1i16 != 0),
{
    state & 1 != 0
}

/// Where the window-procedure hook stands with one message.
#[derive(Clone, Copy, Debug, PartialEq, Eq, Structural)]
pub enum WndProcStage {
    Idle,
    AwaitUi,
    AwaitHome,
    AwaitUnload,
    AwaitInsert,
    Done,
}

/// What the outside reports to the window-procedure hook.
#[derive(Clone, Copy, Debug, PartialEq, Eq, Structural)]
pub enum WndProcEvent {
    /// A message came in; whether the UI has been set up.
    Message { has_ui_context: bool },
    /// The UI's handler returned this code, or failed (`None`).
    UiHandled(Option<isize>),
    /// `GetAsyncKeyState` of the key asked for.
    KeyState(i16),
    /// The toolkit was unloaded, or failed to be.
    Unloaded(bool),
}

/// What the window-procedure hook asks the outside to do next.
#[derive(Clone, Copy, Debug, PartialEq, Eq, Structural)]
pub enum WndProcAction {
    RunUiHandler,
    ReadKey(u16),
    Unload,
    /// Toggle the menu, then pass the message on to the game's window procedure.
    ToggleMenuAndPassOn,
    /// Return this code; the game never sees the message.
    Return(isize),
    /// Pass the message on to the game's window procedure.
    PassOn,
}

/// Whether the event is the one the stage waits for.
pub open spec fn wnd_proc_expects(stage: WndProcStage, event: WndProcEvent) -> bool {
    match stage {
        WndProcStage::Idle => event is Message,
        WndProcStage::AwaitUi => event is UiHandled,
        WndProcStage::AwaitHome | WndProcStage::AwaitInsert => event is KeyState,
        WndProcStage::AwaitUnload => event is Unloaded,
        WndProcStage::Done => false,
    }
}

/// The hook's next stage and action: without a UI every message goes to the game; the
/// UI's handler comes first and a positive code ends there; then Home unloads the toolkit,
/// and Insert (when Home is up, or the unload worked) toggles the menu. A failed unload
/// passes the message on.
pub open spec fn spec_wnd_proc_step(stage: WndProcStage, event: WndProcEvent) -> (WndProcStage, WndProcAction) {
    match (stage, event) {
        (WndProcStage::Idle, WndProcEvent::Message { has_ui_context }) => if has_ui_context {
            (WndProcStage::AwaitUi, WndProcAction::RunUiHandler)
        } else {
            (WndProcStage::Done, WndProcAction::PassOn)
        },
        (WndProcStage::AwaitUi, WndProcEvent::UiHandled(r)) => match r {
            Some(code) if code > 0 => (WndProcStage::Done, WndProcAction::Return(code)),
            _ => (WndProcStage::AwaitHome, WndProcAction::ReadKey(VK_HOME)),
        },
        (WndProcStage::AwaitHome, WndProcEvent::KeyState(s)) => if spec_key_down(s) {
            (WndProcStage::AwaitUnload, WndProcAction::Unload)
        } else {
            (WndProcStage::AwaitInsert, WndProcAction::ReadKey(VK_INSERT))
        },
        (WndProcStage::AwaitUnload, WndProcEvent::Unloaded(ok)) => if ok {
            (WndProcStage::AwaitInsert, WndProcAction::ReadKey(VK_INSERT))
        } else {
            (WndProcStage::Done, WndProcAction::PassOn)
        },
        (WndProcStage::AwaitInsert, WndProcEvent::KeyState(s)) => if spec_key_down(s) {
            (WndProcStage::Done, WndProcAction::ToggleMenuAndPassOn)
        } else {
            (WndProcStage::Done, WndProcAction::PassOn)
        },
        _ => (WndProcStage::Done, WndProcAction::PassOn),
    }
}

/// One decision of the window-procedure hook.
pub fn wnd_proc_step(stage: WndProcStage, event: WndProcEvent) -> (r: (WndProcStage, WndProcAction))
    requires
        wnd_proc_expects(stage, event),
    ensures
        r == spec_wnd_proc_step(stage, event),
{
    match (stage, event) {
        (WndProcStage::Idle, WndProcEvent::Message { has_ui_context }) => if has_ui_context {
            (WndProcStage::AwaitUi, WndProcAction::RunUiHandler)
        } else {
            (WndProcStage::Done, WndProcAction::PassOn)
        },
        (WndProcStage::AwaitUi, WndProcEvent::UiHandled(r)) => match r {
            Some(code) => if code > 0 {
                (WndProcStage::Done, WndProcAction::Return(code))
            } else {
                (WndProcStage::AwaitHome, WndProcAction::ReadKey(VK_HOME))
            },
            None => (WndProcStage::AwaitHome, WndProcAction::ReadKey(VK_HOME)),
        },
        (WndProcStage::AwaitHome, WndProcEvent::KeyState(s)) => if key_down(s) {
            (WndProcStage::AwaitUnload, WndProcAction::Unload)
        } else {
            (WndProcStage::AwaitInsert, WndProcAction::ReadKey(VK_INSERT))
        },
        (WndProcStage::AwaitUnload, WndProcEvent::Unloaded(ok)) => if ok {
            (WndProcStage::AwaitInsert, WndProcAction::ReadKey(VK_INSERT))
        } else {
            (WndProcStage::Done, WndProcAction::PassOn)
        },
        (WndProcStage::AwaitInsert, WndProcEvent::KeyState(s)) => if key_down(s) {
            (WndProcStage::Done, WndProcAction::ToggleMenuAndPassOn)
        } else {
            (WndProcStage::Done, WndProcAction::PassOn)
        },
        _ => (WndProcStage::Done, WndProcAction::PassOn),
    }
}


/// How far the window-procedure hook has got with a message.
pub open spec fn wnd_proc_rank(s: WndProcStage) -> int {
    match s {
        WndProcStage::Idle => 0,
        WndProcStage::AwaitUi => 1,
        WndProcStage::AwaitHome => 2,
        WndProcStage::AwaitUnload => 3,
        WndProcStage::AwaitInsert => 4,
        WndProcStage::Done => 5,
    }
}

/// Every decision of the window-procedure hook moves it on, so a message is settled within
/// five decisions; the hook keeps a message from the game only when the UI's handler
/// returned a positive code, and unloads the toolkit only when Home is down.
pub proof fn law_wnd_proc_settles(stage: WndProcStage, event: WndProcEvent)
    requires
        wnd_proc_expects(stage, event),
    ensures
        wnd_proc_rank(spec_wnd_proc_step(stage, event).0) > wnd_proc_rank(stage),
        spec_wnd_proc_step(stage, event).1 matches WndProcAction::Return(code) ==> event == WndProcEvent::UiHandled(Some(code)) && code > 0,
        spec_wnd_proc_step(stage, event).1 == WndProcAction::Unload ==> stage == WndProcStage::AwaitHome && (
        event matches WndProcEvent::KeyState(k) && spec_key_down(k)),
        spec_wnd_proc_step(stage, event).0 == WndProcStage::Done ==> spec_wnd_proc_step(stage, event).1 is Return
            || spec_wnd_proc_step(stage, event).1 is PassOn || spec_wnd_proc_step(stage, event).1 is ToggleMenuAndPassOn,
{
}


/// What the present hook draws over a frame.
#[derive(Clone, Copy, Debug, PartialEq, Eq, Structural)]
pub struct Overlays {
    /// The blurred background behind the menu.
    pub blur: bool,
    /// The visuals (the custom crosshair).
    pub visuals: bool,
    pub menu: bool,
}

/// The blur shows while the menu is not fully faded out (when switched on), the visuals
/// while a map runs and the game shows no cursor, the menu while it is open.
pub fn frame_overlays(blur_enabled: bool, menu_fully_closed: bool, in_game: bool, cursor_visible: bool, menu_open: bool) -> (o: Overlays)
    ensures
        o == (Overlays { blur: blur_enabled && !menu_fully_closed, visuals: in_game && !cursor_visible, menu: menu_open }),
{
    Overlays { blur: blur_enabled && !menu_fully_closed, visuals: in_game && !cursor_visible, menu: menu_open }
}

/// What the view-model hook does when the game changes the view model's animation sequence.
#[derive(Clone, Copy, Debug, PartialEq, Eq, Structural)]
pub enum SequenceDecision {
    /// The inspect animation is already playing: leave the sequence alone.
    LeaveAlone,
    /// Ask whether F was pressed since the last query, then decide with `sequence_with_f_key`.
    AskFKey,
    /// Set this sequence.
    SetSequence(i32),
}

/// The first decision on a sequence change: a model without an inspect animation
/// (`lookat01` is -1) gets the sequence as it is.
pub fn on_sequence_change(sequence: i32, lookat01: i32) -> (d: SequenceDecision)
    ensures
        d == if lookat01 != -1 {
            if sequence == lookat01 {
                SequenceDecision::LeaveAlone
            } else {
                SequenceDecision::AskFKey
            }
        } else {
            SequenceDecision::SetSequence(sequence)
        },
{
    if lookat01 != -1 {
        if sequence == lookat01 {
            SequenceDecision::LeaveAlone
        } else {
            SequenceDecision::AskFKey
        }
    } else {
        SequenceDecision::SetSequence(sequence)
    }
}

/// The sequence to set: the inspect animation when F was pressed since the last query.
pub fn sequence_with_f_key(sequence: i32, lookat01: i32, f_state: i16) -> (s: i32)
    ensures
        s == if f_state & 1i16 != 0 { lookat01 } else { sequence },
{
    if key_pressed_since_last_query(f_state) {
        lookat01
    } else {
        sequence
    }
}

/// The index of the first entity of `es` with the class, if any.
pub open spec fn first_of_class(es: Seq<Entity>, class_id: i32) -> Option<int>
    decreases es.len(),
{
    if es.len() == 0 {
        None
    } else {
        match first_of_class(es.drop_last(), class_id) {
            Some(i) => Some(i),
            None => if es.last().networkable.class_id == class_id {
                Some(es.len() - 1)
            } else {
                None
            },
        }
    }
}

/// The first entity of the class: how the level-start hook finds the player resource.
pub fn find_by_class<'a>(entities: &Vec<&'a Entity>, class_id: i32) -> (r: Option<&'a Entity>)
    ensures
        match first_of_class(entities@.map_values(|e: &Entity| *e), class_id) {
            Some(i) => r == Some(entities@[i]),
            None => r is None,
        },
{
    let ghost es = entities@.map_values(|e: &Entity| *e);
    let mut i: usize = 0;
    while i < entities.len()
        invariant
            i <= entities.len(),
            es == entities@.map_values(|e: &Entity| *e),
            first_of_class(es.take(i as int), class_id) is None,
        decreases entities.len() - i,
    {
        assert(es.take(i + 1).drop_last() =~= es.take(i as int));
        if entities[i].networkable.class_id == class_id {
            assert(first_of_class(es.take(i + 1), class_id) == Some(i as int));
            proof {
                lemma_first_of_class_prefix(es, class_id, i + 1);
            }
            return Some(entities[i]);
        }
        i = i + 1;
    }
    assert(es.take(entities.len() as int) =~= es);
    None
}

/// Once found within a prefix, the first entity of a class stays the first.
proof fn lemma_first_of_class_prefix(es: Seq<Entity>, class_id: i32, n: int)
    requires
        0 <= n <= es.len(),
        first_of_class(es.take(n), class_id) is Some,
    ensures
        first_of_class(es, class_id) == first_of_class(es.take(n), class_id),
    decreases es.len() - n,
{
    if n < es.len() {
        assert(es.take(n + 1).drop_last() =~= es.take(n));
        lemma_first_of_class_prefix(es, class_id, n + 1);
    } else {
        assert(es.take(n) =~= es);
    }
}

/// Whether `s` is exactly `lit`.
fn str_is(s: &str, lit: &str) -> (b: bool)
    ensures
        b == (s@ == lit@),
{
    let v = chars_of(s);
    let n = v.len();
    assert(v@.subrange(0, n as int) =~= s@);
    range_eq_str(&v, 0, n, lit)
}

/// The game state a game event announces: leaving a server goes back to the menu; a
/// server starting brings its host name, map and address; other events announce nothing.
pub fn game_state_for_event<'a>(
    name: &str,
    host_name: Option<&'a str>,
    map_name: Option<&'a str>,
    address: Option<&'a str>,
) -> (g: Option<GameState<'a>>)
    requires
        name@ == "server_spawn"@ ==> host_name is Some && map_name is Some && address is Some,
    ensures
        name@ == "client_disconnect"@ ==> g == Some(GameState::<'a>::InMenu),
        name@ == "server_spawn"@ ==> g == Some(
            GameState::OnServer { host_name: host_name->0, map_name: map_name->0, address: address->0 },
        ),
        name@ != "client_disconnect"@ && name@ != "server_spawn"@ ==> g is None,
{
    proof {
        reveal_strlit("client_disconnect");
        reveal_strlit("server_spawn");
        assert("server_spawn"@.len() != "client_disconnect"@.len());
    }
    if str_is(name, "client_disconnect") {
        Some(GameState::InMenu)
    } else if str_is(name, "server_spawn") {
        match (host_name, map_name, address) {
            (Some(h), Some(m), Some(a)) => Some(GameState::OnServer { host_name: h, map_name: m, address: a }),
            _ => None,
        }
    } else {
        None
    }
}

/// Where the rich-presence update stands.
#[derive(Clone, Copy, Debug, PartialEq, Eq, Structural)]
pub enum PresenceStage {
    Idle,
    AwaitClear,
    AwaitConnect,
    AwaitReconnect,
    AwaitSet,
    Done,
}

/// How connecting to the chat client went.
#[derive(Clone, Copy, Debug, PartialEq, Eq, Structural)]
pub enum ConnectOutcome {
    Connected,
    /// The connection failed outright.
    ConnectionFailed,
    /// Some other error.
    OtherError,
}

/// What the outside reports to the rich-presence update.
#[derive(Clone, Copy, Debug, PartialEq, Eq, Structural)]
pub enum PresenceEvent {
    /// An update starts: whether the feature is on and whether the client is connected.
    Start { enabled: bool, connected: bool },
    Connect(ConnectOutcome),
    /// Clearing, reconnecting or setting the activity worked or failed.
    Done(bool),
}

/// What the rich-presence update asks the outside to do next.
#[derive(Clone, Copy, Debug, PartialEq, Eq, Structural)]
pub enum PresenceAction {
    ClearActivity,
    Connect,
    Reconnect,
    /// Set the activity of the game state.
    SetActivity,
    /// The update is over, successfully or with the error last reported.
    Finish(bool),
}

/// Whether the event is the one the stage waits for.
pub open spec fn presence_expects(stage: PresenceStage, event: PresenceEvent) -> bool {
    match stage {
        PresenceStage::Idle => event is Start,
        PresenceStage::AwaitConnect => event is Connect,
        PresenceStage::AwaitClear | PresenceStage::AwaitReconnect | PresenceStage::AwaitSet => event is Done,
        PresenceStage::Done => false,
    }
}

/// The next stage and action of the rich-presence update: when the feature is off, a
/// connected client's activity is cleared; when it is on, a disconnected client connects
/// first (reconnecting when the connection failed outright, and giving up if that fails)
/// and then the activity is set.
pub open spec fn spec_presence_step(stage: PresenceStage, event: PresenceEvent) -> (PresenceStage, PresenceAction) {
    match (stage, event) {
        (PresenceStage::Idle, PresenceEvent::Start { enabled, connected }) => if !enabled {
            if connected {
                (PresenceStage::AwaitClear, PresenceAction::ClearActivity)
            } else {
                (PresenceStage::Done, PresenceAction::Finish(true))
            }
        } else if !connected {
            (PresenceStage::AwaitConnect, PresenceAction::Connect)
        } else {
            (PresenceStage::AwaitSet, PresenceAction::SetActivity)
        },
        (PresenceStage::AwaitConnect, PresenceEvent::Connect(o)) => if o == ConnectOutcome::ConnectionFailed {
            (PresenceStage::AwaitReconnect, PresenceAction::Reconnect)
        } else {
            (PresenceStage::AwaitSet, PresenceAction::SetActivity)
        },
        (PresenceStage::AwaitReconnect, PresenceEvent::Done(ok)) => if ok {
            (PresenceStage::AwaitSet, PresenceAction::SetActivity)
        } else {
            (PresenceStage::Done, PresenceAction::Finish(false))
        },
        (PresenceStage::AwaitClear, PresenceEvent::Done(ok)) => (PresenceStage::Done, PresenceAction::Finish(ok)),
        (PresenceStage::AwaitSet, PresenceEvent::Done(ok)) => (PresenceStage::Done, PresenceAction::Finish(ok)),
        _ => (PresenceStage::Done, PresenceAction::Finish(false)),
    }
}

/// One decision of the rich-presence update.
pub fn presence_step(stage: PresenceStage, event: PresenceEvent) -> (r: (PresenceStage, PresenceAction))
    requires
        presence_expects(stage, event),
    ensures
        r == spec_presence_step(stage, event),
{
    match (stage, event) {
        (PresenceStage::Idle, PresenceEvent::Start { enabled, connected }) => if !enabled {
            if connected {
                (PresenceStage::AwaitClear, PresenceAction::ClearActivity)
            } else {
                (PresenceStage::Done, PresenceAction::Finish(true))
            }
        } else if !connected {
            (PresenceStage::AwaitConnect, PresenceAction::Connect)
        } else {
            (PresenceStage::AwaitSet, PresenceAction::SetActivity)
        },
        (PresenceStage::AwaitConnect, PresenceEvent::Connect(o)) => match o {
            ConnectOutcome::ConnectionFailed => (PresenceStage::AwaitReconnect, PresenceAction::Reconnect),
            _ => (PresenceStage::AwaitSet, PresenceAction::SetActivity),
        },
        (PresenceStage::AwaitReconnect, PresenceEvent::Done(ok)) => if ok {
            (PresenceStage::AwaitSet, PresenceAction::SetActivity)
        } else {
            (PresenceStage::Done, PresenceAction::Finish(false))
        },
        (PresenceStage::AwaitClear, PresenceEvent::Done(ok)) => (PresenceStage::Done, PresenceAction::Finish(ok)),
        (PresenceStage::AwaitSet, PresenceEvent::Done(ok)) => (PresenceStage::Done, PresenceAction::Finish(ok)),
        _ => (PresenceStage::Done, PresenceAction::Finish(false)),
    }
}


/// How far the rich-presence update has got.
pub open spec fn presence_rank(s: PresenceStage) -> int {
    match s {
        PresenceStage::Idle => 0,
        PresenceStage::AwaitClear | PresenceStage::AwaitConnect => 1,
        PresenceStage::AwaitReconnect => 2,
        PresenceStage::AwaitSet => 3,
        PresenceStage::Done => 4,
    }
}

/// Every decision of the rich-presence update moves it on, so it is over within four
/// decisions; it ends exactly when it says `Finish`; and with the feature off it never
/// connects or sets an activity.
pub proof fn law_presence_settles(stage: PresenceStage, event: PresenceEvent)
    requires
        presence_expects(stage, event),
    ensures
        presence_rank(spec_presence_step(stage, event).0) > presence_rank(stage),
        (spec_presence_step(stage, event).0 == PresenceStage::Done) == (spec_presence_step(stage, event).1 is Finish),
        (event matches PresenceEvent::Start { enabled, connected } && !enabled) ==> (spec_presence_step(stage, event).1
            == PresenceAction::ClearActivity || spec_presence_step(stage, event).1 == PresenceAction::Finish(true)),
{
}

} // verus!
