use vstd::prelude::*;
use crate::entity::{WeaponId, weapon_code, is_sniper_rifle_code};
use crate::text::{
    chars_of, contains_seq, find_first, find_last, first_index, last_index, lemma_index_bounds,
    lemma_index_extremes, range_contains_str, range_eq_str,
};

verus! {

/// Whether a model's weapon type (the part after the first `_`) names a weapon class.
pub open spec fn is_weapon_type(t: Seq<char>) -> bool {
    t == "c4"@ || t == "eq"@ || t == "knife"@ || t == "mach"@ || t == "pist"@ || t == "rif"@
        || t == "shot"@ || t == "smg"@ || t == "snip"@
}

/// What follows the last `/` of a path.
pub open spec fn spec_file_name(path: Seq<char>) -> Seq<char> {
    path.subrange(last_index(path, '/') + 1, path.len() as int)
}

/// The model name of a file name ending in `.mdl`: what precedes its first `.`.
pub open spec fn spec_mdl_model_name(f: Seq<char>) -> Option<Seq<char>> {
    let dl = last_index(f, '.');
    if dl < 0 || f.subrange(dl + 1, f.len() as int) != "mdl"@ {
        None
    } else {
        Some(f.subrange(0, first_index(f, '.')))
    }
}

/// The second `_`-separated part of a model name, if it has one.
pub open spec fn spec_weapon_type(m: Seq<char>) -> Option<Seq<char>> {
    let u1 = first_index(m, '_');
    if u1 < 0 {
        None
    } else {
        let rest = m.subrange(u1 + 1, m.len() as int);
        let u2 = first_index(rest, '_');
        Some(
            if u2 < 0 {
                rest
            } else {
                rest.subrange(0, u2)
            },
        )
    }
}

/// The weapon name a model path stands for and whether the model is a weapon.
///
/// The file name is what follows the last `/`. It must end in `.mdl`; its model name is
/// what precedes its first `.`. A model name containing `w_` (a world model) or without
/// any `_` gives nothing. The weapon type is the second `_`-separated part of the model
/// name; the weapon name is that part for knives and the last part for everything else.
pub open spec fn spec_weapon_name(path: Seq<char>) -> Option<(Seq<char>, bool)> {
    match spec_mdl_model_name(spec_file_name(path)) {
        None => None,
        Some(m) => if contains_seq(m, "w_"@) {
            None
        } else {
            match spec_weapon_type(m) {
                None => None,
                Some(wtype) => {
                    let name = if contains_seq(m, "knife"@) {
                        wtype
                    } else {
                        m.subrange(last_index(m, '_') + 1, m.len() as int)
                    };
                    Some((name, is_weapon_type(wtype)))
                },
            }
        },
    }
}

/// Whatever a path names is the name of a `.mdl` file: the path ends in `.mdl`, and the
/// weapon name has no `_`, `.` or `/` in it (it is one part of the model's name).
pub proof fn law_weapon_name_shape(path: Seq<char>)
    ensures
        spec_weapon_name(path) is Some ==> path.len() >= 4 && path.subrange(path.len() - 4, path.len() as int)
            == ".mdl"@,
        spec_weapon_name(path) matches Some((name, _)) ==> !name.contains('_') && !name.contains('.')
            && !name.contains('/'),
{
    if spec_weapon_name(path) is Some {
        reveal_strlit("mdl");
        reveal_strlit(".mdl");
        let li = last_index(path, '/');
        lemma_index_bounds(path, '/');
        lemma_index_extremes(path, '/');
        let f = spec_file_name(path);
        assert(f == path.subrange(li + 1, path.len() as int));
        assert forall|k: int| 0 <= k < f.len() implies #[trigger] f[k] != '/' by {
            assert(f[k] == path[li + 1 + k]);
        }
        lemma_index_bounds(f, '.');
        lemma_index_extremes(f, '.');
        let dl = last_index(f, '.');
        let fi = first_index(f, '.');
        assert(dl >= 0);
        assert(f.subrange(dl + 1, f.len() as int) == "mdl"@);
        assert(f.len() == dl + 4);
        assert forall|k: int| 0 <= k < 4 implies #[trigger] path.subrange(path.len() - 4, path.len() as int)[k]
            == ".mdl"@[k] by {
            assert(path[path.len() - 4 + k] == f[dl + k]);
            if k > 0 {
                assert(f[dl + k] == f.subrange(dl + 1, f.len() as int)[k - 1]);
            }
        }
        assert(path.subrange(path.len() - 4, path.len() as int) =~= ".mdl"@);
        let m = f.subrange(0, fi);
        assert(spec_mdl_model_name(f) == Some(m));
        assert forall|k: int| 0 <= k < m.len() implies #[trigger] m[k] != '/' && m[k] != '.' by {
            assert(m[k] == f[k]);
        }
        let u1 = first_index(m, '_');
        lemma_index_bounds(m, '_');
        lemma_index_extremes(m, '_');
        let name = spec_weapon_name(path).unwrap().0;
        if contains_seq(m, "knife"@) {
            let rest = m.subrange(u1 + 1, m.len() as int);
            lemma_index_bounds(rest, '_');
            lemma_index_extremes(rest, '_');
            let u2 = first_index(rest, '_');
            assert forall|k: int| 0 <= k < rest.len() implies #[trigger] rest[k] == m[u1 + 1 + k] by {}
            if u2 < 0 {
                assert(name == rest);
            } else {
                assert(name == rest.subrange(0, u2));
                assert forall|k: int| 0 <= k < name.len() implies #[trigger] name[k] == rest[k] by {}
            }
            assert forall|k: int| 0 <= k < name.len() implies #[trigger] name[k] != '_' && name[k] != '.' && name[k]
                != '/' by {
                assert(name[k] == rest[k]);
                assert(rest[k] == m[u1 + 1 + k]);
            }
        } else {
            let lu = last_index(m, '_');
            assert(name == m.subrange(lu + 1, m.len() as int));
            assert forall|k: int| 0 <= k < name.len() implies #[trigger] name[k] != '_' && name[k] != '.' && name[k]
                != '/' by {
                assert(name[k] == m[lu + 1 + k]);
            }
        }
    }
}

fn is_weapon_type_range(v: &Vec<char>, lo: usize, hi: usize) -> (b: bool)
    requires
        lo <= hi <= v.len(),
    ensures
        b == is_weapon_type(v@.subrange(lo as int, hi as int)),
{
    range_eq_str(v, lo, hi, "c4") || range_eq_str(v, lo, hi, "eq") || range_eq_str(v, lo, hi, "knife")
        || range_eq_str(v, lo, hi, "mach") || range_eq_str(v, lo, hi, "pist") || range_eq_str(
        v,
        lo,
        hi,
        "rif",
    ) || range_eq_str(v, lo, hi, "shot") || range_eq_str(v, lo, hi, "smg") || range_eq_str(
        v,
        lo,
        hi,
        "snip",
    )
}

fn file_name_start(v: &Vec<char>) -> (fstart: usize)
    ensures
        fstart <= v.len(),
        v@.subrange(fstart as int, v.len() as int) == spec_file_name(v@),
{
    let n = v.len();
    proof {
        lemma_index_bounds(v@, '/');
        assert(v@.subrange(0, n as int) =~= v@);
    }
    let fstart = match find_last(v, 0, n, '/') {
        Some(k) => k + 1,
        None => 0,
    };
    assert(v@.subrange(fstart as int, n as int) =~= spec_file_name(v@));
    fstart
}

fn mdl_model_name_end(v: &Vec<char>, fstart: usize) -> (mend: Option<usize>)
    requires
        fstart <= v.len(),
    ensures
        match mend {
            Some(e) => fstart <= e <= v.len() && spec_mdl_model_name(
                v@.subrange(fstart as int, v.len() as int),
            ) == Some(v@.subrange(fstart as int, e as int)),
            None => spec_mdl_model_name(v@.subrange(fstart as int, v.len() as int)) is None,
        },
{
    let n = v.len();
    let ghost f = v@.subrange(fstart as int, n as int);
    proof {
        lemma_index_bounds(f, '.');
    }
    let dl = match find_last(v, fstart, n, '.') {
        None => return None,
        Some(k) => fstart + k,
    };
    assert(f.subrange(dl - fstart + 1, f.len() as int) =~= v@.subrange(dl + 1, n as int));
    if !range_eq_str(v, dl + 1, n, "mdl") {
        return None;
    }
    let mend = match find_first(v, fstart, n, '.') {
        Some(k) => fstart + k,
        None => return None,
    };
    assert(f.subrange(0, first_index(f, '.')) =~= v@.subrange(fstart as int, mend as int));
    Some(mend)
}

fn weapon_type_range(v: &Vec<char>, lo: usize, hi: usize) -> (r: Option<(usize, usize)>)
    requires
        lo <= hi <= v.len(),
    ensures
        match r {
            Some((a, b)) => lo <= a <= b <= hi && spec_weapon_type(v@.subrange(lo as int, hi as int))
                == Some(v@.subrange(a as int, b as int)),
            None => spec_weapon_type(v@.subrange(lo as int, hi as int)) is None,
        },
{
    let ghost m = v@.subrange(lo as int, hi as int);
    proof {
        lemma_index_bounds(m, '_');
    }
    let ts = match find_first(v, lo, hi, '_') {
        None => return None,
        Some(k) => lo + k + 1,
    };
    let ghost rest = m.subrange(first_index(m, '_') + 1, m.len() as int);
    assert(rest =~= v@.subrange(ts as int, hi as int));
    proof {
        lemma_index_bounds(rest, '_');
    }
    let te = match find_first(v, ts, hi, '_') {
        Some(k) => ts + k,
        None => hi,
    };
    assert(spec_weapon_type(m)->0 =~= v@.subrange(ts as int, te as int));
    Some((ts, te))
}

/// Extracts the weapon name from a view-model path, e.g. `ak47` from
/// `models/weapons/v_rif_ak47.mdl` and `knife` from `v_knife_t.mdl`, together with
/// whether the model belongs to a weapon class.
pub fn weapon_name_from_path(path: &str) -> (r: Option<(&str, bool)>)
    ensures
        match r {
            Some((name, is_weapon)) => spec_weapon_name(path@) == Some((name@, is_weapon)),
            None => spec_weapon_name(path@) is None,
        },
{
    let v = chars_of(path);
    let n = v.len();
    let fstart = file_name_start(&v);
    let mend = match mdl_model_name_end(&v, fstart) {
        None => return None,
        Some(e) => e,
    };
    let ghost m = v@.subrange(fstart as int, mend as int);
    if range_contains_str(&v, fstart, mend, "w_") {
        return None;
    }
    let (ts, te) = match weapon_type_range(&v, fstart, mend) {
        None => return None,
        Some(r) => r,
    };
    let is_weapon = is_weapon_type_range(&v, ts, te);
    let (a, b) = if range_contains_str(&v, fstart, mend, "knife") {
        (ts, te)
    } else {
        proof {
            lemma_index_bounds(m, '_');
        }
        let ul = match find_last(&v, fstart, mend, '_') {
            Some(k) => fstart + k,
            None => fstart,
        };
        assert(m.subrange(last_index(m, '_') + 1, m.len() as int) =~= v@.subrange(
            ul + 1,
            mend as int,
        ));
        (ul + 1, mend)
    };
    let name = path.substring_char(a, b);
    assert(name@ =~= v@.subrange(a as int, b as int));
    Some((name, is_weapon))
}


/// Directory of the view models, relative to the game's content.
pub const V_MODELS_PATH: &'static str = "models/weapons/v_models";
/// Directory of the weapon sound scripts this toolkit installs.
pub const SCRIPTS_PATH: &'static str = "scripts/dopamine/weapons";

/// A path made of components that the caller joins in order.
pub struct ModelPath {
    pub components: Vec<&'static str>,
}

impl View for ModelPath {
    type V = Seq<Seq<char>>;

    open spec fn view(&self) -> Seq<Seq<char>> {
        self.components@.map_values(|c: &'static str| c@)
    }
}

/// The factions a player can play as; `Unassigned` before one is chosen.
#[derive(Clone, Copy, Debug, PartialEq, Eq, Structural)]
pub enum PlayerClass {
    Unassigned,
    PhoenixConnection,
    LeetKrew,
    ArcticAvengers,
    GuerillaWarfare,
    SealTeam6,
    GSG9,
    Sas,
    Gign,
}

/// Which gloves to wear.
#[derive(Clone, Copy, Debug, PartialEq, Eq, Structural)]
pub enum GloveConfigKind {
    Default,
    Motorcycle,
}

/// Which sleeves to wear.
#[derive(Clone, Copy, Debug, PartialEq, Eq, Structural)]
pub enum SleeveConfigKind {
    Default,
    SwatMedic,
}

impl Default for GloveConfigKind {
    fn default() -> (k: Self)
        ensures
            k == GloveConfigKind::Default,
    {
        GloveConfigKind::Default
    }
}

impl Default for SleeveConfigKind {
    fn default() -> (k: Self)
        ensures
            k == SleeveConfigKind::Default,
    {
        SleeveConfigKind::Default
    }
}

/// Settings of the model changer.
#[derive(Clone, Copy, Debug, PartialEq, Eq, Structural)]
pub struct ModelChangerConfig {
    pub enabled: bool,
    pub remove_sleeves: bool,
    pub glove_kind: GloveConfigKind,
    pub sleeve_kind: SleeveConfigKind,
}

impl Default for ModelChangerConfig {
    fn default() -> (c: Self)
        ensures
            c == (ModelChangerConfig {
                enabled: false,
                remove_sleeves: false,
                glove_kind: GloveConfigKind::Default,
                sleeve_kind: SleeveConfigKind::Default,
            }),
    {
        ModelChangerConfig {
            enabled: false,
            remove_sleeves: false,
            glove_kind: GloveConfigKind::Default,
            sleeve_kind: SleeveConfigKind::Default,
        }
    }
}

/// The view model that replaces a weapon's own: the AK-47 and the knife have one.
pub open spec fn spec_replacement_file(id: WeaponId) -> Option<Seq<char>> {
    match id {
        WeaponId::AK47 => Some("rif_ak47.mdl"@),
        WeaponId::Knife => Some("knife_css.mdl"@),
        _ => None,
    }
}

/// Path of the view model that replaces a weapon's own, if the weapon has one.
pub fn replacement_path_by_weapon_id(id: WeaponId) -> (p: Option<ModelPath>)
    ensures
        match spec_replacement_file(id) {
            Some(file) => p matches Some(mp) && mp@ == seq![V_MODELS_PATH@, file],
            None => p is None,
        },
{
    let file: &'static str = match id {
        WeaponId::AK47 => "rif_ak47.mdl",
        WeaponId::Knife => "knife_css.mdl",
        _ => return None,
    };
    let mut components: Vec<&'static str> = Vec::new();
    components.push(V_MODELS_PATH);
    components.push(file);
    let mp = ModelPath { components };
    assert(mp@ =~= seq![V_MODELS_PATH@, file@]);
    Some(mp)
}

/// The gloves and, where the faction wears them, the sleeves of each faction, as files
/// under the arms directory.
pub open spec fn faction_wearables(class: PlayerClass) -> (Seq<char>, Option<Seq<char>>) {
    match class {
        PlayerClass::PhoenixConnection => ("glove_fullfinger/glove_fullfinger.mdl"@, None),
        PlayerClass::LeetKrew => ("glove_fingerless/glove_fingerless.mdl"@, None),
        PlayerClass::ArcticAvengers => (
            "glove_fullfinger/glove_fullfinger.mdl"@,
            Some("professional/sleeve_professional.mdl"@),
        ),
        PlayerClass::GuerillaWarfare => (
            "glove_fullfinger/glove_fullfinger.mdl"@,
            Some("balkan/sleeve_balkan.mdl"@),
        ),
        PlayerClass::SealTeam6 => ("glove_hardknuckle/glove_hardknuckle.mdl"@, Some("st6/sleeve_st6.mdl"@)),
        PlayerClass::GSG9 => (
            "glove_hardknuckle/glove_hardknuckle_blue.mdl"@,
            Some("gsg9/sleeve_gsg9.mdl"@),
        ),
        PlayerClass::Sas => (
            "glove_hardknuckle/glove_hardknuckle_black.mdl"@,
            Some("sas/sleeve_sas.mdl"@),
        ),
        PlayerClass::Gign => (
            "glove_hardknuckle/glove_hardknuckle_black.mdl"@,
            Some("gign/sleeve_gign.mdl"@),
        ),
        PlayerClass::Unassigned => (Seq::empty(), None),
    }
}

/// The glove file and, where the faction wears sleeves, the sleeve file to use: the
/// configured kinds replace the faction's own, and sleeves stay absent where the faction
/// has none.
pub open spec fn spec_wearable_files(config: ModelChangerConfig, class: PlayerClass) -> (Seq<char>, Option<Seq<char>>) {
    let (gloves, sleeves) = faction_wearables(class);
    let g = match config.glove_kind {
        GloveConfigKind::Default => gloves,
        GloveConfigKind::Motorcycle => "glove_motorcycle/glove_motorcycle.mdl"@,
    };
    let s = match sleeves {
        None => None,
        Some(sl) => Some(
            match config.sleeve_kind {
                SleeveConfigKind::Default => sl,
                SleeveConfigKind::SwatMedic => "swat/sleeve_swat_medic.mdl"@,
            },
        ),
    };
    (g, s)
}

fn faction_wearable_files(class: PlayerClass) -> (r: (&'static str, Option<&'static str>))
    requires
        class != PlayerClass::Unassigned,
    ensures
        r.0@ == faction_wearables(class).0,
        match r.1 {
            Some(s) => faction_wearables(class).1 == Some(s@),
            None => faction_wearables(class).1 is None,
        },
{
    match class {
        PlayerClass::PhoenixConnection => ("glove_fullfinger/glove_fullfinger.mdl", None),
        PlayerClass::LeetKrew => ("glove_fingerless/glove_fingerless.mdl", None),
        PlayerClass::ArcticAvengers => (
            "glove_fullfinger/glove_fullfinger.mdl",
            Some("professional/sleeve_professional.mdl"),
        ),
        PlayerClass::GuerillaWarfare => (
            "glove_fullfinger/glove_fullfinger.mdl",
            Some("balkan/sleeve_balkan.mdl"),
        ),
        PlayerClass::SealTeam6 => ("glove_hardknuckle/glove_hardknuckle.mdl", Some("st6/sleeve_st6.mdl")),
        PlayerClass::GSG9 => (
            "glove_hardknuckle/glove_hardknuckle_blue.mdl",
            Some("gsg9/sleeve_gsg9.mdl"),
        ),
        PlayerClass::Sas => (
            "glove_hardknuckle/glove_hardknuckle_black.mdl",
            Some("sas/sleeve_sas.mdl"),
        ),
        PlayerClass::Gign => (
            "glove_hardknuckle/glove_hardknuckle_black.mdl",
            Some("gign/sleeve_gign.mdl"),
        ),
        PlayerClass::Unassigned => ("", None),
    }
}

fn arms_path(file: &'static str) -> (p: ModelPath)
    ensures
        p@ == seq![V_MODELS_PATH@, "arms"@, file@],
{
    let mut components: Vec<&'static str> = Vec::new();
    components.push(V_MODELS_PATH);
    components.push("arms");
    components.push(file);
    let p = ModelPath { components };
    assert(p@ =~= seq![V_MODELS_PATH@, "arms"@, file@]);
    p
}

/// Paths of the gloves and sleeves models to put on the view model of a player of `class`.
pub fn wearables_paths(config: &ModelChangerConfig, class: PlayerClass) -> (r: (ModelPath, Option<ModelPath>))
    requires
        class != PlayerClass::Unassigned,
    ensures
        r.0@ == seq![V_MODELS_PATH@, "arms"@, spec_wearable_files(*config, class).0],
        match spec_wearable_files(*config, class).1 {
            Some(s) => r.1 matches Some(p) && p@ == seq![V_MODELS_PATH@, "arms"@, s],
            None => r.1 is None,
        },
{
    let (gloves, sleeves) = faction_wearable_files(class);
    let gloves_file: &'static str = match config.glove_kind {
        GloveConfigKind::Default => gloves,
        GloveConfigKind::Motorcycle => "glove_motorcycle/glove_motorcycle.mdl",
    };
    let sleeves_path = match sleeves {
        None => None,
        Some(s) => {
            let f: &'static str = match config.sleeve_kind {
                SleeveConfigKind::Default => s,
                SleeveConfigKind::SwatMedic => "swat/sleeve_swat_medic.mdl",
            };
            Some(arms_path(f))
        },
    };
    (arms_path(gloves_file), sleeves_path)
}

/// The wearables of each faction, file by file: with the default kinds, Phoenix and the
/// Arctic Avengers and Guerilla Warfare wear full-finger gloves, the Elite Crew fingerless
/// ones, SEAL Team 6 hard-knuckle ones, the GSG-9 blue hard-knuckle ones, the SAS and the
/// GIGN black hard-knuckle ones; each counter-terrorist faction and the two other
/// terrorist factions wear their own sleeves, Phoenix and the Elite Crew none. The
/// motorcycle gloves and the SWAT medic sleeves replace them for every faction, and no
/// kind gives sleeves to a faction that has none.
pub proof fn law_faction_wearables(config: ModelChangerConfig, class: PlayerClass)
    requires
        class != PlayerClass::Unassigned,
    ensures
        config.glove_kind == GloveConfigKind::Default ==> spec_wearable_files(config, class).0 == match class {
            PlayerClass::PhoenixConnection => "glove_fullfinger/glove_fullfinger.mdl"@,
            PlayerClass::ArcticAvengers => "glove_fullfinger/glove_fullfinger.mdl"@,
            PlayerClass::GuerillaWarfare => "glove_fullfinger/glove_fullfinger.mdl"@,
            PlayerClass::LeetKrew => "glove_fingerless/glove_fingerless.mdl"@,
            PlayerClass::SealTeam6 => "glove_hardknuckle/glove_hardknuckle.mdl"@,
            PlayerClass::GSG9 => "glove_hardknuckle/glove_hardknuckle_blue.mdl"@,
            PlayerClass::Sas => "glove_hardknuckle/glove_hardknuckle_black.mdl"@,
            PlayerClass::Gign => "glove_hardknuckle/glove_hardknuckle_black.mdl"@,
            PlayerClass::Unassigned => Seq::empty(),
        },
        config.glove_kind == GloveConfigKind::Motorcycle ==> spec_wearable_files(config, class).0
            == "glove_motorcycle/glove_motorcycle.mdl"@,
        config.sleeve_kind == SleeveConfigKind::Default ==> spec_wearable_files(config, class).1 == match class {
            PlayerClass::ArcticAvengers => Some("professional/sleeve_professional.mdl"@),
            PlayerClass::GuerillaWarfare => Some("balkan/sleeve_balkan.mdl"@),
            PlayerClass::SealTeam6 => Some("st6/sleeve_st6.mdl"@),
            PlayerClass::GSG9 => Some("gsg9/sleeve_gsg9.mdl"@),
            PlayerClass::Sas => Some("sas/sleeve_sas.mdl"@),
            PlayerClass::Gign => Some("gign/sleeve_gign.mdl"@),
            _ => None,
        },
        config.sleeve_kind == SleeveConfigKind::SwatMedic ==> spec_wearable_files(config, class).1 == match class {
            PlayerClass::PhoenixConnection => None,
            PlayerClass::LeetKrew => None,
            _ => Some("swat/sleeve_swat_medic.mdl"@),
        },
{
}

/// Whether the sleeves model being drawn should be hidden: only for a local player whose
/// view model shows a faction, and then when removal is configured or the faction has no
/// sleeves of its own.
pub open spec fn spec_should_remove_sleeves(
    config: ModelChangerConfig,
    has_local_player: bool,
    model_name: Option<Seq<char>>,
    player_class: Option<PlayerClass>,
) -> bool {
    if !has_local_player {
        false
    } else if !(model_name matches Some(n) && contains_seq(n, "sleeve"@)) {
        false
    } else {
        match player_class {
            None => false,
            Some(c) => config.remove_sleeves || spec_wearable_files(config, c).1 is None,
        }
    }
}

/// On the local player's view model, a sleeves model is hidden exactly when removal is
/// configured or the player's faction wears no sleeves: Phoenix and the Elite Crew.
pub proof fn law_sleeves_removed(config: ModelChangerConfig, model_name: Seq<char>, class: PlayerClass)
    requires
        class != PlayerClass::Unassigned,
        contains_seq(model_name, "sleeve"@),
    ensures
        spec_should_remove_sleeves(config, true, Some(model_name), Some(class)) <==> config.remove_sleeves
            || class == PlayerClass::PhoenixConnection || class == PlayerClass::LeetKrew,
{
}

impl ModelChangerConfig {
    /// Decides whether a model about to be drawn is a pair of sleeves to hide. `model_name`
    /// is the name of that model, `player_class` the faction of the local player's view
    /// entity, where there are one.
    pub fn should_remove_sleeves(
        &self,
        has_local_player: bool,
        model_name: Option<&str>,
        player_class: Option<PlayerClass>,
    ) -> (b: bool)
        requires
            player_class != Some(PlayerClass::Unassigned),
        ensures
            b == spec_should_remove_sleeves(
                *self,
                has_local_player,
                match model_name {
                    Some(n) => Some(n@),
                    None => None,
                },
                player_class,
            ),
    {
        if !has_local_player {
            return false;
        }
        let are_sleeves = match model_name {
            Some(n) => {
                let v = chars_of(n);
                let len = v.len();
                assert(v@.subrange(0, len as int) =~= n@);
                range_contains_str(&v, 0, len, "sleeve")
            },
            None => false,
        };
        if !are_sleeves {
            return false;
        }
        match player_class {
            None => false,
            Some(c) => {
                let (_, sleeves) = wearables_paths(self, c);
                self.remove_sleeves || sleeves.is_none()
            },
        }
    }
}

/// What to do with a wearable model: load it first when the game has not loaded it yet,
/// else put it on the entity.
#[derive(Clone, Copy, Debug, PartialEq, Eq, Structural)]
pub enum ModelAction {
    Precache,
    SetModelIndex(i32),
}

/// Decides from the model's index (`-1` when the game has not loaded it) whether to load
/// the model or to use it; `true` of the result means the entity gets the model now.
pub fn precache_or_set_model(model_index: i32) -> (r: (ModelAction, bool))
    ensures
        model_index == -1 ==> r == (ModelAction::Precache, false),
        model_index != -1 ==> r == (ModelAction::SetModelIndex(model_index), true),
{
    if model_index == -1 {
        (ModelAction::Precache, false)
    } else {
        (ModelAction::SetModelIndex(model_index), true)
    }
}


/// The weapon a view model's weapon name stands for.
pub open spec fn spec_weapon_from_name(name: Seq<char>) -> Option<WeaponId> {
    if name == "scout"@ {
        Some(WeaponId::Scout)
    } else if name == "aug"@ {
        Some(WeaponId::Aug)
    } else if name == "sg550"@ {
        Some(WeaponId::SG550)
    } else if name == "awp"@ {
        Some(WeaponId::Awp)
    } else if name == "g3sg1"@ {
        Some(WeaponId::G3SG1)
    } else if name == "sg552"@ {
        Some(WeaponId::SG552)
    } else if name == "ak47"@ {
        Some(WeaponId::AK47)
    } else if name == "knife"@ {
        Some(WeaponId::Knife)
    } else {
        None
    }
}

/// The weapon names of the view models: "scout", "aug", "sg550", "awp", "g3sg1", "sg552",
/// "ak47" and "knife" name their weapons and no other name names one. Of these, the
/// names of the Scout, the AWP, the G3SG1 and the SG550 are the sniper rifles', and the
/// AK-47 and the knife are the weapons whose view model is replaced, by "rif_ak47.mdl"
/// and "knife_css.mdl".
pub proof fn law_weapon_names(name: Seq<char>, id: WeaponId)
    ensures
        spec_weapon_from_name("scout"@) == Some(WeaponId::Scout),
        spec_weapon_from_name("aug"@) == Some(WeaponId::Aug),
        spec_weapon_from_name("sg550"@) == Some(WeaponId::SG550),
        spec_weapon_from_name("awp"@) == Some(WeaponId::Awp),
        spec_weapon_from_name("g3sg1"@) == Some(WeaponId::G3SG1),
        spec_weapon_from_name("sg552"@) == Some(WeaponId::SG552),
        spec_weapon_from_name("ak47"@) == Some(WeaponId::AK47),
        spec_weapon_from_name("knife"@) == Some(WeaponId::Knife),
        spec_weapon_from_name(name) is Some ==> name == "scout"@ || name == "aug"@ || name == "sg550"@
            || name == "awp"@ || name == "g3sg1"@ || name == "sg552"@ || name == "ak47"@ || name == "knife"@,
        spec_weapon_from_name(name) == Some(id) ==> (is_sniper_rifle_code(weapon_code(id)) <==> (name == "scout"@
            || name == "awp"@ || name == "g3sg1"@ || name == "sg550"@)),
        spec_replacement_file(id) == match id {
            WeaponId::AK47 => Some("rif_ak47.mdl"@),
            WeaponId::Knife => Some("knife_css.mdl"@),
            _ => None,
        },
        spec_weapon_from_name(name) == Some(id) ==> (spec_replacement_file(id) is Some <==> (name == "ak47"@
            || name == "knife"@)),
{
    reveal_strlit("scout");
    reveal_strlit("aug");
    reveal_strlit("sg550");
    reveal_strlit("awp");
    reveal_strlit("g3sg1");
    reveal_strlit("sg552");
    reveal_strlit("ak47");
    reveal_strlit("knife");
    assert("scout"@.len() != "aug"@.len());
    assert("scout"@[1] != "sg550"@[1]);
    assert("scout"@.len() != "awp"@.len());
    assert("scout"@[0] != "g3sg1"@[0]);
    assert("scout"@[1] != "sg552"@[1]);
    assert("scout"@.len() != "ak47"@.len());
    assert("scout"@[0] != "knife"@[0]);
    assert("aug"@.len() != "sg550"@.len());
    assert("aug"@[1] != "awp"@[1]);
    assert("aug"@.len() != "g3sg1"@.len());
    assert("aug"@.len() != "sg552"@.len());
    assert("aug"@.len() != "ak47"@.len());
    assert("aug"@.len() != "knife"@.len());
    assert("sg550"@.len() != "awp"@.len());
    assert("sg550"@[0] != "g3sg1"@[0]);
    assert("sg550"@[4] != "sg552"@[4]);
    assert("sg550"@.len() != "ak47"@.len());
    assert("sg550"@[0] != "knife"@[0]);
    assert("awp"@.len() != "g3sg1"@.len());
    assert("awp"@.len() != "sg552"@.len());
    assert("awp"@.len() != "ak47"@.len());
    assert("awp"@.len() != "knife"@.len());
    assert("g3sg1"@[0] != "sg552"@[0]);
    assert("g3sg1"@.len() != "ak47"@.len());
    assert("g3sg1"@[0] != "knife"@[0]);
    assert("sg552"@.len() != "ak47"@.len());
    assert("sg552"@[0] != "knife"@[0]);
    assert("ak47"@.len() != "knife"@.len());
}

/// Whether `s` is exactly `lit`.
fn str_is(s: &str, lit: &str) -> (b: bool)
    ensures
        b == (s@ == lit@),
{
    let v = chars_of(s);
    let n = v.len();
    assert(v@.subrange(0, n as int) =~= s@);
    range_eq_str(&v, 0, n, lit)
}

/// The weapon a view model's weapon name stands for.
pub fn weapon_from_name(name: &str) -> (id: Option<WeaponId>)
    ensures
        id == spec_weapon_from_name(name@),
{
    if str_is(name, "scout") {
        Some(WeaponId::Scout)
    } else if str_is(name, "aug") {
        Some(WeaponId::Aug)
    } else if str_is(name, "sg550") {
        Some(WeaponId::SG550)
    } else if str_is(name, "awp") {
        Some(WeaponId::Awp)
    } else if str_is(name, "g3sg1") {
        Some(WeaponId::G3SG1)
    } else if str_is(name, "sg552") {
        Some(WeaponId::SG552)
    } else if str_is(name, "ak47") {
        Some(WeaponId::AK47)
    } else if str_is(name, "knife") {
        Some(WeaponId::Knife)
    } else {
        None
    }
}

/// The weapon a model path is the view model of: a weapon model whose name names a weapon.
pub open spec fn spec_weapon_of_path(path: Seq<char>) -> Option<WeaponId> {
    match spec_weapon_name(path) {
        Some((name, true)) => spec_weapon_from_name(name),
        _ => None,
    }
}

/// The model cache's handle that stands for no model.
pub const INVALID_MODEL_HANDLE: u16 = 0xFFFF;

/// The model changer: the two view-model entities it made to wear gloves and sleeves (by
/// entity index), and the model-cache handle of each weapon's replacement model found so
/// far (`INVALID_MODEL_HANDLE` until one is found). No weapon appears twice in `models`.
pub struct ModelChanger {
    pub gloves: Option<i32>,
    pub sleeves: Option<i32>,
    pub models: Vec<(WeaponId, u16)>,
}

/// Whether no weapon appears twice.
pub open spec fn models_distinct(models: Seq<(WeaponId, u16)>) -> bool {
    forall|i: int, j: int| 0 <= i < j < models.len() ==> (#[trigger] models[i]).0 != (#[trigger] models[j]).0
}

/// The handle kept for a weapon, if it has an entry.
pub open spec fn model_entry(models: Seq<(WeaponId, u16)>, id: WeaponId) -> Option<u16> {
    if exists|i: int| 0 <= i < models.len() && (#[trigger] models[i]).0 == id {
        Some(models[choose|i: int| 0 <= i < models.len() && (#[trigger] models[i]).0 == id].1)
    } else {
        None
    }
}

/// What the model-cache hook does with a model.
#[derive(Clone, Copy, Debug, PartialEq, Eq, Structural)]
pub enum StudioStart {
    /// The feature is off, the game is not running a map, or the model is no weapon's
    /// view model: the game's own answer stands.
    NotHandled,
    /// Install the weapon's sound script; the weapon has no replacement.
    SoundOnly,
    /// Install the weapon's sound script, then: if `cached` is a valid handle, ask the
    /// game for that model, and use it if there is one; otherwise find the replacement
    /// model, remember its handle with `set_model_handle` and use that.
    Replace { weapon: WeaponId, cached: u16 },
}

impl ModelChanger {
    /// No entities made and no replacement found.
    pub fn new() -> (m: Self)
        ensures
            m.gloves is None,
            m.sleeves is None,
            m.models@.len() == 0,
    {
        ModelChanger { gloves: None, sleeves: None, models: Vec::new() }
    }

    /// Forgets the two entities made for gloves and sleeves and gives them back, gloves
    /// first, so that the caller releases them.
    pub fn destroy_entities(&mut self) -> (released: Vec<i32>)
        ensures
            final(self).gloves is None,
            final(self).sleeves is None,
            final(self).models@ == old(self).models@,
            released@ == (match old(self).gloves {
                Some(g) => seq![g],
                None => Seq::empty(),
            }) + (match old(self).sleeves {
                Some(s) => seq![s],
                None => Seq::empty(),
            }),
    {
        let mut released: Vec<i32> = Vec::new();
        if let Some(g) = self.gloves {
            released.push(g);
        }
        self.gloves = None;
        if let Some(s) = self.sleeves {
            released.push(s);
        }
        self.sleeves = None;
        assert(released@ =~= (match old(self).gloves {
            Some(g) => seq![g],
            None => Seq::empty(),
        }) + (match old(self).sleeves {
            Some(s) => seq![s],
            None => Seq::empty(),
        }));
        released
    }

    /// The replacement model to load in place of a model, by its name: only when the
    /// feature is on and the model is the view model of a weapon that has a replacement.
    pub fn on_get_model_call(&self, config: &ModelChangerConfig, model_name: Option<&str>) -> (p: Option<ModelPath>)
        ensures
            match (config.enabled, model_name) {
                (true, Some(n)) => match spec_weapon_of_path(n@) {
                    Some(id) => match spec_replacement_file(id) {
                        Some(file) => p matches Some(mp) && mp@ == seq![V_MODELS_PATH@, file],
                        None => p is None,
                    },
                    None => p is None,
                },
                _ => p is None,
            },
    {
        if !config.enabled {
            return None;
        }
        let path = match model_name {
            Some(n) => n,
            None => return None,
        };
        let weapon_name = match weapon_name_from_path(path) {
            Some((name, true)) => name,
            _ => return None,
        };
        let id = match weapon_from_name(weapon_name) {
            Some(id) => id,
            None => return None,
        };
        replacement_path_by_weapon_id(id)
    }

    /// The handle kept for a weapon, if it has an entry.
    fn find_model(&self, id: WeaponId) -> (r: Option<usize>)
        ensures
            match r {
                Some(i) => i < self.models@.len() && self.models@[i as int].0 == id,
                None => forall|i: int| 0 <= i < self.models@.len() ==> (#[trigger] self.models@[i]).0 != id,
            },
    {
        let mut i: usize = 0;
        while i < self.models.len()
            invariant
                i <= self.models.len(),
                forall|k: int| 0 <= k < i ==> (#[trigger] self.models@[k]).0 != id,
            decreases self.models.len() - i,
        {
            if self.models[i].0 == id {
                return Some(i);
            }
            i = i + 1;
        }
        None
    }

    /// The first decision of the model-cache hook on the model with this name. When a
    /// weapon is recognised it gets an entry (an invalid handle) if it had none.
    pub fn on_studio_call(&mut self, config: &ModelChangerConfig, in_game: bool, model_name: &str) -> (s: StudioStart)
        requires
            models_distinct(old(self).models@),
        ensures
            models_distinct(final(self).models@),
            final(self).gloves == old(self).gloves,
            final(self).sleeves == old(self).sleeves,
            match (config.enabled && in_game, spec_weapon_name(model_name@)) {
                (true, Some((name, true))) => match spec_weapon_from_name(name) {
                    None => s == StudioStart::SoundOnly && final(self).models@ == old(self).models@,
                    Some(id) => {
                        &&& model_entry(final(self).models@, id) is Some
                        &&& (model_entry(old(self).models@, id) is Some ==> final(self).models@ == old(self).models@)
                        &&& (model_entry(old(self).models@, id) is None ==> final(self).models@ == old(self).models@.push((id, INVALID_MODEL_HANDLE)))
                        &&& s == if spec_replacement_file(id) is None && model_entry(final(self).models@, id) == Some(INVALID_MODEL_HANDLE) {
                            StudioStart::SoundOnly
                        } else {
                            StudioStart::Replace { weapon: id, cached: model_entry(final(self).models@, id)->0 }
                        }
                    },
                },
                _ => s == StudioStart::NotHandled && final(self).models@ == old(self).models@,
            },
    {
        if !config.enabled || !in_game {
            return StudioStart::NotHandled;
        }
        let weapon_name = match weapon_name_from_path(model_name) {
            Some((name, true)) => name,
            _ => return StudioStart::NotHandled,
        };
        let id = match weapon_from_name(weapon_name) {
            Some(id) => id,
            None => return StudioStart::SoundOnly,
        };
        let cached = match self.find_model(id) {
            Some(i) => {
                proof {
                    assert(exists|k: int| 0 <= k < self.models@.len() && (#[trigger] self.models@[k]).0 == id);
                    let c = choose|k: int| 0 <= k < self.models@.len() && (#[trigger] self.models@[k]).0 == id;
                    assert(c == i);
                }
                self.models[i].1
            },
            None => {
                self.models.push((id, INVALID_MODEL_HANDLE));
                proof {
                    let n = self.models@.len() - 1;
                    assert(self.models@[n].0 == id);
                    let c = choose|k: int| 0 <= k < self.models@.len() && (#[trigger] self.models@[k]).0 == id;
                    assert(c == n);
                }
                INVALID_MODEL_HANDLE
            },
        };
        if cached == INVALID_MODEL_HANDLE && replacement_path_by_weapon_id(id).is_none() {
            return StudioStart::SoundOnly;
        }
        StudioStart::Replace { weapon: id, cached }
    }

    /// Remembers the handle of a weapon's replacement model.
    pub fn set_model_handle(&mut self, id: WeaponId, handle: u16)
        requires
            models_distinct(old(self).models@),
        ensures
            models_distinct(final(self).models@),
            model_entry(final(self).models@, id) == Some(handle),
            forall|w: WeaponId| w != id ==> model_entry(final(self).models@, w) == model_entry(old(self).models@, w),
            final(self).gloves == old(self).gloves,
            final(self).sleeves == old(self).sleeves,
    {
        match self.find_model(id) {
            Some(i) => {
                self.models.set(i, (id, handle));
                proof {
                    let m = self.models@;
                    let c = choose|k: int| 0 <= k < m.len() && (#[trigger] m[k]).0 == id;
                    assert(m[i as int].0 == id);
                    assert(c == i);
                    assert forall|w: WeaponId| w != id implies model_entry(m, w) == model_entry(old(self).models@, w) by {
                        if exists|k: int| 0 <= k < m.len() && (#[trigger] m[k]).0 == w {
                            let k1 = choose|k: int| 0 <= k < m.len() && (#[trigger] m[k]).0 == w;
                            assert(old(self).models@[k1].0 == w);
                            let k2 = choose|k: int| 0 <= k < old(self).models@.len() && (#[trigger] old(self).models@[k]).0 == w;
                            assert(k1 == k2);
                        } else {
                            assert forall|k: int| 0 <= k < old(self).models@.len() implies (#[trigger] old(self).models@[k]).0 != w by {
                                assert(m[k].0 == old(self).models@[k].0 || k == i);
                            }
                        }
                    }
                }
            },
            None => {
                self.models.push((id, handle));
                proof {
                    let m = self.models@;
                    let n = m.len() - 1;
                    assert(m[n].0 == id);
                    let c = choose|k: int| 0 <= k < m.len() && (#[trigger] m[k]).0 == id;
                    assert(c == n);
                    assert forall|w: WeaponId| w != id implies model_entry(m, w) == model_entry(old(self).models@, w) by {
                        if exists|k: int| 0 <= k < m.len() && (#[trigger] m[k]).0 == w {
                            let k1 = choose|k: int| 0 <= k < m.len() && (#[trigger] m[k]).0 == w;
                            assert(k1 < n);
                            assert(old(self).models@[k1].0 == w);
                            let k2 = choose|k: int| 0 <= k < old(self).models@.len() && (#[trigger] old(self).models@[k]).0 == w;
                            assert(k1 == k2);
                        } else {
                            assert forall|k: int| 0 <= k < old(self).models@.len() implies (#[trigger] old(self).models@[k]).0 != w by {
                                assert(m[k] == old(self).models@[k]);
                            }
                        }
                    }
                }
            },
        }
    }
}

/// The file name of a weapon's sound script, in `SCRIPTS_PATH`.
pub fn sound_script_file(weapon_name: &str) -> (f: String)
    ensures
        f@ == weapon_name@ + ".txt"@,
{
    let mut f = String::from_str(weapon_name);
    f.append(".txt");
    f
}

/// What the frame hook does for the wearables: the entity to wear the gloves and the one
/// to wear the sleeves (made by the caller when `None` here), both following the local
/// player's view model, and the models they get.
pub struct WearablesPlan {
    pub gloves_entity: Option<i32>,
    pub sleeves_entity: Option<i32>,
    pub gloves_path: ModelPath,
    pub sleeves_path: Option<ModelPath>,
}

/// The entities the frame hook's plan hands back for a state: the ones held in the two
/// slots, when the feature is on, there is a local player, its view entity has a view model
/// and a faction; otherwise there is no plan.
pub open spec fn spec_plan_entities(
    gloves: Option<i32>,
    sleeves: Option<i32>,
    config: ModelChangerConfig,
    has_local_player: bool,
    has_viewmodel: bool,
    player_class: Option<PlayerClass>,
) -> Option<(Option<i32>, Option<i32>)> {
    if config.enabled && has_local_player && has_viewmodel && player_class is Some {
        Some((gloves, sleeves))
    } else {
        None
    }
}

/// The entity a wearable slot holds after a frame: the one it held, else the one made for
/// it during that frame.
pub open spec fn slot_after_frame(slot: Option<i32>, made: Option<i32>) -> Option<i32> {
    match slot {
        Some(e) => Some(e),
        None => made,
    }
}

impl ModelChanger {
    /// The frame hook's decision: nothing when the feature is off, there is no local player,
    /// or its view entity has no view model or no faction; otherwise the entities to dress
    /// (the ones made earlier, if any) and the wearables of the faction.
    pub fn on_fsn_call(&self, config: &ModelChangerConfig, has_local_player: bool, has_viewmodel: bool, player_class: Option<PlayerClass>) -> (p: Option<WearablesPlan>)
        requires
            player_class != Some(PlayerClass::Unassigned),
        ensures
            match p {
                Some(plan) => spec_plan_entities(self.gloves, self.sleeves, *config, has_local_player, has_viewmodel, player_class)
                    == Some((plan.gloves_entity, plan.sleeves_entity)),
                None => spec_plan_entities(self.gloves, self.sleeves, *config, has_local_player, has_viewmodel, player_class) is None,
            },
            match p {
                None => !config.enabled || !has_local_player || !has_viewmodel || player_class is None,
                Some(plan) => {
                    &&& config.enabled && has_local_player && has_viewmodel && player_class is Some
                    &&& plan.gloves_entity == self.gloves
                    &&& plan.sleeves_entity == self.sleeves
                    &&& plan.gloves_path@ == seq![V_MODELS_PATH@, "arms"@, spec_wearable_files(*config, player_class->0).0]
                    &&& match spec_wearable_files(*config, player_class->0).1 {
                        Some(s) => plan.sleeves_path matches Some(sp) && sp@ == seq![V_MODELS_PATH@, "arms"@, s],
                        None => plan.sleeves_path is None,
                    }
                },
            },
    {
        if !config.enabled || !has_local_player || !has_viewmodel {
            return None;
        }
        let class = match player_class {
            Some(c) => c,
            None => return None,
        };
        let (gloves_path, sleeves_path) = wearables_paths(config, class);
        Some(WearablesPlan { gloves_entity: self.gloves, sleeves_entity: self.sleeves, gloves_path, sleeves_path })
    }

    /// Ends a frame of the wearables: a slot that held an entity keeps it, an empty slot
    /// takes the entity the caller made for it (it makes one exactly for the empty slots
    /// of the plan). Gives back the entities that wear the gloves and the sleeves.
    pub fn keep_wearable_entities(&mut self, made_gloves: Option<i32>, made_sleeves: Option<i32>) -> (r: (i32, i32))
        requires
            old(self).gloves is None ==> made_gloves is Some,
            old(self).sleeves is None ==> made_sleeves is Some,
        ensures
            final(self).gloves == slot_after_frame(old(self).gloves, made_gloves),
            final(self).sleeves == slot_after_frame(old(self).sleeves, made_sleeves),
            final(self).gloves == Some(r.0),
            final(self).sleeves == Some(r.1),
            final(self).models@ == old(self).models@,
    {
        let g = match self.gloves {
            Some(e) => e,
            None => match made_gloves {
                Some(e) => e,
                None => 0,
            },
        };
        let s = match self.sleeves {
            Some(e) => e,
            None => match made_sleeves {
                Some(e) => e,
                None => 0,
            },
        };
        self.gloves = Some(g);
        self.sleeves = Some(s);
        (g, s)
    }

    /// Remembers the entities that wear the gloves and the sleeves.
    pub fn set_wearable_entities(&mut self, gloves: i32, sleeves: i32)
        ensures
            final(self).gloves == Some(gloves),
            final(self).sleeves == Some(sleeves),
            final(self).models@ == old(self).models@,
    {
        self.gloves = Some(gloves);
        self.sleeves = Some(sleeves);
    }
}

/// Repeated frames keep the same glove and sleeve entities: once a frame has filled the two
/// slots (making entities only for empty ones), every later frame's plan hands back those
/// entities, and a later frame leaves them as they are whatever the caller makes.
pub proof fn law_wearables_kept_across_frames(
    gloves: Option<i32>,
    sleeves: Option<i32>,
    made_gloves: Option<i32>,
    made_sleeves: Option<i32>,
    later_gloves: Option<i32>,
    later_sleeves: Option<i32>,
    config: ModelChangerConfig,
    has_local_player: bool,
    has_viewmodel: bool,
    player_class: Option<PlayerClass>,
)
    requires
        gloves is None ==> made_gloves is Some,
        sleeves is None ==> made_sleeves is Some,
    ensures
        ({
            let g = slot_after_frame(gloves, made_gloves);
            let s = slot_after_frame(sleeves, made_sleeves);
            &&& g is Some && s is Some
            &&& gloves is Some ==> g == gloves
            &&& sleeves is Some ==> s == sleeves
            &&& slot_after_frame(g, later_gloves) == g
            &&& slot_after_frame(s, later_sleeves) == s
            &&& config.enabled && has_local_player && has_viewmodel && player_class is Some ==> spec_plan_entities(
                g,
                s,
                config,
                has_local_player,
                has_viewmodel,
                player_class,
            ) == Some((g, s))
        }),
{
}

/// After the entities are recorded, the plan of a frame that dresses the view model hands
/// them back.
pub proof fn law_plan_returns_recorded_entities(
    g: i32,
    s: i32,
    config: ModelChangerConfig,
    has_local_player: bool,
    has_viewmodel: bool,
    player_class: Option<PlayerClass>,
)
    requires
        config.enabled,
        has_local_player,
        has_viewmodel,
        player_class is Some,
    ensures
        spec_plan_entities(Some(g), Some(s), config, has_local_player, has_viewmodel, player_class) == Some(
            (Some(g), Some(s)),
        ),
{
}

} // verus!
