use vstd::prelude::*;
use crate::entity::Entity;
use crate::render::{ColorBits, Material, MaterialFlag, RenderCommand, RenderQueue};

verus! {

/// Whose models a chams configuration is for.
#[derive(Clone, Copy, Debug, PartialEq, Eq, Structural)]
pub enum ChamsConfigKind {
    Enemies,
    Allies,
    Viewmodel,
}

/// Which material a chams layer draws with.
#[derive(Clone, Copy, Debug, PartialEq, Eq, Structural)]
pub enum ChamsMaterialKind {
    Regular,
    Flat,
}

impl Default for ChamsMaterialKind {
    fn default() -> (k: Self)
        ensures
            k == ChamsMaterialKind::Regular,
    {
        ChamsMaterialKind::Regular
    }
}

/// The material kind at a position of the list of kinds.
pub open spec fn material_kind_at(index: usize) -> ChamsMaterialKind {
    if index == 0 {
        ChamsMaterialKind::Regular
    } else {
        ChamsMaterialKind::Flat
    }
}

impl ChamsMaterialKind {
    /// The material kind at a position of the list of kinds.
    pub fn from_usize(index: usize) -> (k: Self)
        requires
            index < 2,
        ensures
            k == material_kind_at(index),
    {
        if index == 0 {
            ChamsMaterialKind::Regular
        } else {
            ChamsMaterialKind::Flat
        }
    }
}

/// One layer of chams: a material drawn over (or through) a model. The layer's colour
/// is kept by the caller.
#[derive(Clone, Copy, Debug, PartialEq, Eq, Structural)]
pub struct ChamsLayerConfig {
    pub enabled: bool,
    /// Drawn through walls.
    pub ignore_z: bool,
    pub wireframe: bool,
    /// Draws the model itself under the first visible layer.
    pub cover: bool,
    pub material_index: usize,
}

impl ChamsLayerConfig {
    pub fn material_kind(&self) -> (k: ChamsMaterialKind)
        requires
            self.material_index < 2,
        ensures
            k == material_kind_at(self.material_index),
    {
        ChamsMaterialKind::from_usize(self.material_index)
    }
}

/// The layers of one configuration kind.
#[derive(Clone, Copy, Debug)]
pub struct ChamsLayersConfig {
    pub current_layer_index: usize,
    pub layers: [ChamsLayerConfig; 4],
}

/// Chams settings for enemies, allies and the view model.
#[derive(Clone, Copy, Debug)]
pub struct ChamsConfig {
    pub current_config_index: usize,
    pub enemies: ChamsLayersConfig,
    pub allies: ChamsLayersConfig,
    pub viewmodel: ChamsLayersConfig,
}

impl ChamsConfig {
    pub open spec fn spec_get(&self, kind: ChamsConfigKind) -> ChamsLayersConfig {
        match kind {
            ChamsConfigKind::Enemies => self.enemies,
            ChamsConfigKind::Allies => self.allies,
            ChamsConfigKind::Viewmodel => self.viewmodel,
        }
    }

    pub fn get(&self, kind: ChamsConfigKind) -> (c: &ChamsLayersConfig)
        ensures
            *c == self.spec_get(kind),
    {
        match kind {
            ChamsConfigKind::Enemies => &self.enemies,
            ChamsConfigKind::Allies => &self.allies,
            ChamsConfigKind::Viewmodel => &self.viewmodel,
        }
    }
}

/// One thing the chams pass does while the game draws a model.
#[derive(Clone, Copy, Debug, PartialEq, Eq, Structural)]
pub enum ChamsStep {
    /// Draws the model the way the game was about to.
    DrawOriginal,
    /// Draws the model with a layer: sets the material's ignore-Z and wireframe flags,
    /// takes the layer's colour and alpha, forces the material, draws the model, and
    /// restores the colour.
    ApplyLayer {
        kind: ChamsConfigKind,
        layer: usize,
        material: Material,
        ignore_z: bool,
        wireframe: bool,
    },
    /// Lets models use their own materials again.
    ResetMaterial,
}

/// The two materials chams draw with.
#[derive(Clone, Copy, Debug, PartialEq, Eq, Structural)]
pub struct ChamsMaterials {
    pub regular: Material,
    pub flat: Material,
}

/// The chams pass and the materials it draws with.
pub struct Chams {
    pub materials: ChamsMaterials,
    /// Whether the last model was drawn with a visible layer.
    pub applied: bool,
}

/// Whether every enabled layer names one of the two materials.
pub open spec fn layers_usable(layers: Seq<ChamsLayerConfig>) -> bool {
    forall|i: int| 0 <= i < layers.len() && (#[trigger] layers[i]).enabled ==> layers[i].material_index < 2
}

impl ChamsMaterials {
    pub open spec fn material_of(&self, kind: ChamsMaterialKind) -> Material {
        match kind {
            ChamsMaterialKind::Regular => self.regular,
            ChamsMaterialKind::Flat => self.flat,
        }
    }

    /// The step that draws with layer `index`.
    pub open spec fn layer_step(&self, kind: ChamsConfigKind, index: int, l: ChamsLayerConfig) -> ChamsStep {
        ChamsStep::ApplyLayer {
            kind,
            layer: index as usize,
            material: self.material_of(material_kind_at(l.material_index)),
            ignore_z: l.ignore_z,
            wireframe: l.wireframe,
        }
    }

    /// First pass: every enabled layer that draws through walls, each followed by a reset
    /// of the forced material.
    pub open spec fn ignore_z_steps(&self, kind: ChamsConfigKind, layers: Seq<ChamsLayerConfig>) -> Seq<ChamsStep>
        decreases layers.len(),
    {
        if layers.len() == 0 {
            Seq::empty()
        } else {
            let l = layers.last();
            self.ignore_z_steps(kind, layers.drop_last()) + if l.enabled && l.ignore_z {
                seq![self.layer_step(kind, layers.len() - 1, l), ChamsStep::ResetMaterial]
            } else {
                Seq::empty()
            }
        }
    }

    /// Second pass: every enabled visible layer; a covering layer first draws the model
    /// itself when no visible layer was drawn yet. Also says whether one was drawn.
    pub open spec fn visible_steps(&self, kind: ChamsConfigKind, layers: Seq<ChamsLayerConfig>) -> (Seq<ChamsStep>, bool)
        decreases layers.len(),
    {
        if layers.len() == 0 {
            (Seq::empty(), false)
        } else {
            let (prev, applied) = self.visible_steps(kind, layers.drop_last());
            let l = layers.last();
            if l.enabled && !l.ignore_z {
                (prev + (if l.cover && !applied {
                    seq![ChamsStep::DrawOriginal]
                } else {
                    Seq::empty()
                }) + seq![self.layer_step(kind, layers.len() - 1, l)], true)
            } else {
                (prev, applied)
            }
        }
    }

    /// Both passes for the layers of one kind.
    pub open spec fn spec_apply_chams(&self, kind: ChamsConfigKind, layers: Seq<ChamsLayerConfig>) -> (Seq<ChamsStep>, bool) {
        let (v, applied) = self.visible_steps(kind, layers);
        (self.ignore_z_steps(kind, layers) + v, applied)
    }

}


/// The engine calls around the draw of one layer: before it, the material's ignore-Z and
/// wireframe flags, the saved colour modulation and blend, the layer's colour and the
/// forced material; after it, the colour modulation and blend as they were.
pub open spec fn layer_calls(material: Material, ignore_z: bool, wireframe: bool, color: ColorBits) -> (Seq<RenderCommand>, Seq<RenderCommand>) {
    (seq![
        RenderCommand::SetMaterialFlag { material, flag: MaterialFlag::IgnoreZ, state: ignore_z },
        RenderCommand::SetMaterialFlag { material, flag: MaterialFlag::Wireframe, state: wireframe },
        RenderCommand::SaveColorWithBlend,
        RenderCommand::SetColorWithBlend(color),
        RenderCommand::ForcedMaterialOverride(Some(material)),
    ], seq![RenderCommand::RestoreColorWithBlend])
}

impl Chams {
    /// The engine calls of an `ApplyLayer` step in the layer's colour: those made before
    /// the model is drawn with the layer, and those made after.
    pub fn apply_material(step: &ChamsStep, color: ColorBits) -> (calls: (Vec<RenderCommand>, Vec<RenderCommand>))
        requires
            step is ApplyLayer,
        ensures
            (calls.0@, calls.1@) == layer_calls(step->material, step->ignore_z, step->wireframe, color),
    {
        let mut before: Vec<RenderCommand> = Vec::new();
        let mut after: Vec<RenderCommand> = Vec::new();
        if let ChamsStep::ApplyLayer { material, ignore_z, wireframe, .. } = step {
            before.push(RenderCommand::SetMaterialFlag { material: *material, flag: MaterialFlag::IgnoreZ, state: *ignore_z });
            before.push(RenderCommand::SetMaterialFlag { material: *material, flag: MaterialFlag::Wireframe, state: *wireframe });
            before.push(RenderCommand::SaveColorWithBlend);
            before.push(RenderCommand::SetColorWithBlend(color));
            before.push(RenderCommand::ForcedMaterialOverride(Some(*material)));
            after.push(RenderCommand::RestoreColorWithBlend);
        }
        assert(before@ =~= layer_calls(step->material, step->ignore_z, step->wireframe, color).0);
        assert(after@ =~= layer_calls(step->material, step->ignore_z, step->wireframe, color).1);
        (before, after)
    }
}

impl Chams {
    /// A chams pass with the two materials, before any model was drawn.
    pub fn new(regular_material: Material, flat_material: Material) -> (c: Self)
        ensures
            c.materials == (ChamsMaterials { regular: regular_material, flat: flat_material }),
            !c.applied,
    {
        Chams { materials: ChamsMaterials { regular: regular_material, flat: flat_material }, applied: false }
    }

    /// Gives back the references on the two materials, regular first.
    pub fn dec_ref_counters(&self, queue: &mut RenderQueue)
        ensures
            final(queue)@ == old(queue)@ + seq![
                RenderCommand::DecRefMaterial(self.materials.regular),
                RenderCommand::DecRefMaterial(self.materials.flat),
            ],
    {
        queue.push(RenderCommand::DecRefMaterial(self.materials.regular));
        queue.push(RenderCommand::DecRefMaterial(self.materials.flat));
        assert(queue@ =~= old(queue)@ + seq![
            RenderCommand::DecRefMaterial(self.materials.regular),
            RenderCommand::DecRefMaterial(self.materials.flat),
        ]);
    }

    /// Whether the last model was drawn with a visible layer (so the game need not draw it).
    pub fn applied(&self) -> (b: bool)
        ensures
            b == self.applied,
    {
        self.applied
    }

    fn layer_step_of(&self, kind: ChamsConfigKind, index: usize, l: &ChamsLayerConfig) -> (s: ChamsStep)
        requires
            l.material_index < 2,
        ensures
            s == self.materials.layer_step(kind, index as int, *l),
    {
        let material = match l.material_kind() {
            ChamsMaterialKind::Regular => self.materials.regular,
            ChamsMaterialKind::Flat => self.materials.flat,
        };
        ChamsStep::ApplyLayer { kind, layer: index, material, ignore_z: l.ignore_z, wireframe: l.wireframe }
    }

    fn apply_chams(&mut self, kind: ChamsConfigKind, layers: &[ChamsLayerConfig; 4], steps: &mut Vec<ChamsStep>)
        requires
            layers_usable(layers@),
            !old(self).applied,
        ensures
            final(steps)@ == old(steps)@ + old(self).materials.spec_apply_chams(kind, layers@).0,
            final(self).applied == old(self).materials.spec_apply_chams(kind, layers@).1,
            final(self).materials == old(self).materials,
    {
        let ghost start = steps@;
        let mut i: usize = 0;
        while i < 4
            invariant
                i <= 4,
                layers_usable(layers@),
                layers@.len() == 4,
                self.materials == old(self).materials,
                self.applied == old(self).applied,
                steps@ == start + self.materials.ignore_z_steps(kind, layers@.take(i as int)),
            decreases 4 - i,
        {
            let l = &layers[i];
            assert(layers@.take(i + 1).drop_last() =~= layers@.take(i as int));
            if l.enabled && l.ignore_z {
                assert(layers@[i as int].enabled);
                let s = self.layer_step_of(kind, i, l);
                steps.push(s);
                steps.push(ChamsStep::ResetMaterial);
            }
            i = i + 1;
            assert(steps@ =~= start + self.materials.ignore_z_steps(kind, layers@.take(i as int)));
        }
        assert(layers@.take(4) =~= layers@);
        let ghost mid = steps@;
        let mut j: usize = 0;
        while j < 4
            invariant
                j <= 4,
                layers_usable(layers@),
                layers@.len() == 4,
                self.materials == old(self).materials,
                mid == start + self.materials.ignore_z_steps(kind, layers@),
                start == old(steps)@,
                steps@ == mid + self.materials.visible_steps(kind, layers@.take(j as int)).0,
                self.applied == self.materials.visible_steps(kind, layers@.take(j as int)).1,
            decreases 4 - j,
        {
            let l = &layers[j];
            assert(layers@.take(j + 1).drop_last() =~= layers@.take(j as int));
            if l.enabled && !l.ignore_z {
                assert(layers@[j as int].enabled);
                if l.cover && !self.applied {
                    steps.push(ChamsStep::DrawOriginal);
                }
                let s = self.layer_step_of(kind, j, l);
                steps.push(s);
                self.applied = true;
            }
            j = j + 1;
            assert(steps@ =~= mid + self.materials.visible_steps(kind, layers@.take(j as int)).0);
        }
        assert(layers@.take(4) =~= layers@);
        assert(steps@ =~= start + self.materials.spec_apply_chams(kind, layers@).0);
    }
}

/// Which configuration the model of `entity` is drawn with: the view model's, or for a
/// player that is not dormant the enemies' or allies' by comparing teams with the local
/// player (allies when there is no local player); nothing for anything else.
pub open spec fn chams_kind(entity: Option<Entity>, local_player: Option<Entity>) -> Option<ChamsConfigKind> {
    match entity {
        None => None,
        Some(e) => if e.viewmodel {
            Some(ChamsConfigKind::Viewmodel)
        } else if e.player && !e.networkable.dormant {
            Some(
                match local_player {
                    Some(lp) => if lp.team != e.team {
                        ChamsConfigKind::Enemies
                    } else {
                        ChamsConfigKind::Allies
                    },
                    None => ChamsConfigKind::Allies,
                },
            )
        } else {
            None
        },
    }
}

impl Chams {
    /// The chams steps for the model the game is about to draw for `entity`.
    pub fn draw(&mut self, config: &ChamsConfig, entity: Option<&Entity>, local_player: Option<&Entity>) -> (steps: Vec<ChamsStep>)
        requires
            match chams_kind(
                match entity { Some(e) => Some(*e), None => None },
                match local_player { Some(e) => Some(*e), None => None },
            ) {
                Some(k) => layers_usable(config.spec_get(k).layers@),
                None => true,
            },
        ensures
            final(self).materials == old(self).materials,
            match chams_kind(
                match entity { Some(e) => Some(*e), None => None },
                match local_player { Some(e) => Some(*e), None => None },
            ) {
                Some(k) => steps@ == old(self).materials.spec_apply_chams(k, config.spec_get(k).layers@).0
                    && final(self).applied == old(self).materials.spec_apply_chams(k, config.spec_get(k).layers@).1,
                None => steps@.len() == 0 && !final(self).applied,
            },
    {
        self.applied = false;
        let mut steps: Vec<ChamsStep> = Vec::new();
        let entity = match entity {
            None => return steps,
            Some(e) => e,
        };
        if entity.is_viewmodel() {
            self.apply_chams(ChamsConfigKind::Viewmodel, &config.viewmodel.layers, &mut steps);
        } else if entity.is_player() && !entity.networkable().is_dormant() {
            self.apply_player_chams(config, entity, local_player, &mut steps);
        }
        steps
    }

    fn apply_player_chams(&mut self, config: &ChamsConfig, player: &Entity, local_player: Option<&Entity>, steps: &mut Vec<ChamsStep>)
        requires
            !old(self).applied,
            layers_usable(config.spec_get(
                match local_player {
                    Some(lp) => if lp.team != player.team {
                        ChamsConfigKind::Enemies
                    } else {
                        ChamsConfigKind::Allies
                    },
                    None => ChamsConfigKind::Allies,
                },
            ).layers@),
        ensures
            ({
                let k = match local_player {
                    Some(lp) => if lp.team != player.team {
                        ChamsConfigKind::Enemies
                    } else {
                        ChamsConfigKind::Allies
                    },
                    None => ChamsConfigKind::Allies,
                };
                &&& final(steps)@ == old(steps)@ + old(self).materials.spec_apply_chams(k, config.spec_get(k).layers@).0
                &&& final(self).applied == old(self).materials.spec_apply_chams(k, config.spec_get(k).layers@).1
            }),
            final(self).materials == old(self).materials,
    {
        let kind = match local_player {
            Some(lp) => if lp.team() != player.team() {
                ChamsConfigKind::Enemies
            } else {
                ChamsConfigKind::Allies
            },
            None => ChamsConfigKind::Allies,
        };
        self.apply_chams(kind, &config.get(kind).layers, steps);
    }
}


/// Whether a step draws a layer through walls (`Some(true)`), a visible layer
/// (`Some(false)`), or no layer.
pub open spec fn step_layer_ignore_z(s: ChamsStep) -> Option<bool> {
    match s {
        ChamsStep::ApplyLayer { ignore_z, .. } => Some(ignore_z),
        _ => None,
    }
}

proof fn lemma_ignore_z_steps_only_through(m: ChamsMaterials, kind: ChamsConfigKind, layers: Seq<ChamsLayerConfig>)
    ensures
        forall|i: int|
            0 <= i < m.ignore_z_steps(kind, layers).len() ==> step_layer_ignore_z(
                #[trigger] m.ignore_z_steps(kind, layers)[i],
            ) != Some(false),
    decreases layers.len(),
{
    if layers.len() > 0 {
        lemma_ignore_z_steps_only_through(m, kind, layers.drop_last());
        let prev = m.ignore_z_steps(kind, layers.drop_last());
        let l = layers.last();
        let tail = if l.enabled && l.ignore_z {
            seq![m.layer_step(kind, layers.len() - 1, l), ChamsStep::ResetMaterial]
        } else {
            Seq::empty()
        };
        assert forall|i: int| 0 <= i < (prev + tail).len() implies step_layer_ignore_z(
            #[trigger] (prev + tail)[i],
        ) != Some(false) by {
            if i >= prev.len() {
                assert((prev + tail)[i] == tail[i - prev.len()]);
            } else {
                assert((prev + tail)[i] == prev[i]);
            }
        }
    }
}

proof fn lemma_visible_steps_only_visible(m: ChamsMaterials, kind: ChamsConfigKind, layers: Seq<ChamsLayerConfig>)
    ensures
        forall|i: int|
            0 <= i < m.visible_steps(kind, layers).0.len() ==> step_layer_ignore_z(
                #[trigger] m.visible_steps(kind, layers).0[i],
            ) != Some(true),
        m.visible_steps(kind, layers).1 <==> exists|i: int|
            0 <= i < layers.len() && (#[trigger] layers[i]).enabled && !layers[i].ignore_z,
    decreases layers.len(),
{
    if layers.len() > 0 {
        let d = layers.drop_last();
        lemma_visible_steps_only_visible(m, kind, d);
        let (prev, applied) = m.visible_steps(kind, d);
        let l = layers.last();
        if l.enabled && !l.ignore_z {
            let tail = (if l.cover && !applied {
                seq![ChamsStep::DrawOriginal]
            } else {
                Seq::empty()
            }) + seq![m.layer_step(kind, layers.len() - 1, l)];
            assert forall|i: int| 0 <= i < (prev + tail).len() implies step_layer_ignore_z(
                #[trigger] (prev + tail)[i],
            ) != Some(true) by {
                if i >= prev.len() {
                    assert((prev + tail)[i] == tail[i - prev.len()]);
                } else {
                    assert((prev + tail)[i] == prev[i]);
                }
            }
            assert(layers[layers.len() - 1].enabled);
        } else {
            if applied {
                let i = choose|i: int| 0 <= i < d.len() && (#[trigger] d[i]).enabled && !d[i].ignore_z;
                assert(layers[i] == d[i]);
            }
            assert forall|i: int|
                0 <= i < layers.len() && (#[trigger] layers[i]).enabled && !layers[i].ignore_z implies applied by {
                if i < d.len() {
                    assert(layers[i] == d[i]);
                }
            }
        }
    }
}

/// Layers drawn through walls come first: in the steps for one model, every step with a
/// through-wall layer precedes every step with a visible layer.
pub proof fn law_through_wall_layers_first(m: ChamsMaterials, kind: ChamsConfigKind, layers: Seq<ChamsLayerConfig>, i: int, j: int)
    requires
        0 <= i < m.spec_apply_chams(kind, layers).0.len(),
        0 <= j < m.spec_apply_chams(kind, layers).0.len(),
        step_layer_ignore_z(m.spec_apply_chams(kind, layers).0[i]) == Some(false),
        step_layer_ignore_z(m.spec_apply_chams(kind, layers).0[j]) == Some(true),
    ensures
        j < i,
{
    lemma_ignore_z_steps_only_through(m, kind, layers);
    lemma_visible_steps_only_visible(m, kind, layers);
    let a = m.ignore_z_steps(kind, layers);
    let b = m.visible_steps(kind, layers).0;
    assert(m.spec_apply_chams(kind, layers).0 == a + b);
    if i < a.len() {
        assert((a + b)[i] == a[i]);
    }
    if j >= a.len() {
        assert((a + b)[j] == b[j - a.len()]);
    }
}


/// The shape of the visible pass: empty exactly when no visible layer was applied; past its
/// first step, only visible layers.
proof fn lemma_visible_steps_shape(m: ChamsMaterials, kind: ChamsConfigKind, layers: Seq<ChamsLayerConfig>)
    ensures
        m.visible_steps(kind, layers).1 <==> m.visible_steps(kind, layers).0.len() > 0,
        forall|i: int|
            1 <= i < m.visible_steps(kind, layers).0.len() ==> step_layer_ignore_z(
                #[trigger] m.visible_steps(kind, layers).0[i],
            ) == Some(false),
    decreases layers.len(),
{
    if layers.len() > 0 {
        let d = layers.drop_last();
        lemma_visible_steps_shape(m, kind, d);
        let (prev, applied) = m.visible_steps(kind, d);
        let l = layers.last();
        if l.enabled && !l.ignore_z {
            let tail = (if l.cover && !applied {
                seq![ChamsStep::DrawOriginal]
            } else {
                Seq::empty()
            }) + seq![m.layer_step(kind, layers.len() - 1, l)];
            let v = prev + tail;
            assert(m.visible_steps(kind, layers).0 == v);
            assert forall|i: int| 1 <= i < v.len() implies step_layer_ignore_z(#[trigger] v[i]) == Some(false) by {
                if i >= prev.len() {
                    assert(v[i] == tail[i - prev.len()]);
                    if !applied {
                        assert(prev.len() == 0);
                    }
                } else {
                    assert(v[i] == prev[i]);
                }
            }
        }
    }
}

/// The through-wall pass never draws the model as the game meant it.
proof fn lemma_ignore_z_steps_no_original(m: ChamsMaterials, kind: ChamsConfigKind, layers: Seq<ChamsLayerConfig>)
    ensures
        forall|i: int|
            0 <= i < m.ignore_z_steps(kind, layers).len() ==> #[trigger] m.ignore_z_steps(kind, layers)[i]
                != ChamsStep::DrawOriginal,
    decreases layers.len(),
{
    if layers.len() > 0 {
        let d = layers.drop_last();
        lemma_ignore_z_steps_no_original(m, kind, d);
        let prev = m.ignore_z_steps(kind, d);
        let l = layers.last();
        let tail = if l.enabled && l.ignore_z {
            seq![m.layer_step(kind, layers.len() - 1, l), ChamsStep::ResetMaterial]
        } else {
            Seq::empty()
        };
        assert forall|i: int| 0 <= i < (prev + tail).len() implies #[trigger] (prev + tail)[i] != ChamsStep::DrawOriginal by {
            if i >= prev.len() {
                assert((prev + tail)[i] == tail[i - prev.len()]);
            } else {
                assert((prev + tail)[i] == prev[i]);
            }
        }
    }
}

/// The game's own model is drawn at most once per model, and never after a visible layer:
/// a covering layer puts the model under the visible layers, not between them.
pub proof fn law_model_drawn_once_before_visible_layers(m: ChamsMaterials, kind: ChamsConfigKind, layers: Seq<ChamsLayerConfig>)
    ensures
        forall|i: int, j: int|
            #![trigger m.spec_apply_chams(kind, layers).0[i], m.spec_apply_chams(kind, layers).0[j]]
            0 <= i < j < m.spec_apply_chams(kind, layers).0.len()
                && m.spec_apply_chams(kind, layers).0[j] == ChamsStep::DrawOriginal
                ==> step_layer_ignore_z(m.spec_apply_chams(kind, layers).0[i]) != Some(false),
        forall|i: int, j: int|
            #![trigger m.spec_apply_chams(kind, layers).0[i], m.spec_apply_chams(kind, layers).0[j]]
            0 <= i < m.spec_apply_chams(kind, layers).0.len() && 0 <= j < m.spec_apply_chams(kind, layers).0.len()
                && m.spec_apply_chams(kind, layers).0[i] == ChamsStep::DrawOriginal
                && m.spec_apply_chams(kind, layers).0[j] == ChamsStep::DrawOriginal ==> i == j,
{
    lemma_visible_steps_shape(m, kind, layers);
    lemma_ignore_z_steps_no_original(m, kind, layers);
    let a = m.ignore_z_steps(kind, layers);
    let b = m.visible_steps(kind, layers).0;
    let s = m.spec_apply_chams(kind, layers).0;
    assert(s == a + b);
    assert forall|j: int| 0 <= j < s.len() && #[trigger] s[j] == ChamsStep::DrawOriginal implies j == a.len() by {
        if j < a.len() {
            assert(s[j] == a[j]);
        } else {
            assert(s[j] == b[j - a.len()]);
            if j > a.len() {
                assert(step_layer_ignore_z(b[j - a.len()]) == Some(false));
            }
        }
    }
    assert forall|i: int, j: int|
        #![trigger s[i], s[j]]
        0 <= i < j < s.len() && s[j] == ChamsStep::DrawOriginal implies step_layer_ignore_z(s[i]) != Some(false) by {
        assert(j == a.len());
        assert(s[i] == a[i]);
        lemma_ignore_z_steps_only_through(m, kind, layers);
    }
}

/// Whether the first enabled layer that does not draw through walls covers the model.
pub open spec fn first_visible_layer_covers(layers: Seq<ChamsLayerConfig>) -> bool {
    exists|k: int|
        0 <= k < layers.len() && (#[trigger] layers[k]).enabled && !layers[k].ignore_z && layers[k].cover
            && forall|k2: int| 0 <= k2 < k ==> !((#[trigger] layers[k2]).enabled && !layers[k2].ignore_z)
}

proof fn lemma_visible_steps_original(m: ChamsMaterials, kind: ChamsConfigKind, layers: Seq<ChamsLayerConfig>)
    ensures
        m.visible_steps(kind, layers).0.contains(ChamsStep::DrawOriginal) <==> first_visible_layer_covers(layers),
    decreases layers.len(),
{
    if layers.len() == 0 {
        assert(!m.visible_steps(kind, layers).0.contains(ChamsStep::DrawOriginal));
    } else {
        let d = layers.drop_last();
        let n = layers.len() - 1;
        lemma_visible_steps_original(m, kind, d);
        lemma_visible_steps_shape(m, kind, d);
        lemma_visible_steps_only_visible(m, kind, d);
        let (prev, applied) = m.visible_steps(kind, d);
        let l = layers.last();
        assert(layers[n] == l);
        assert forall|k: int| 0 <= k < d.len() implies #[trigger] layers[k] == d[k] by {}
        let step = m.layer_step(kind, n, l);
        if l.enabled && !l.ignore_z {
            let tail = (if l.cover && !applied {
                seq![ChamsStep::DrawOriginal]
            } else {
                Seq::empty()
            }) + seq![step];
            let v = prev + tail;
            assert(m.visible_steps(kind, layers).0 == v);
            if applied {
                let w = choose|i: int| 0 <= i < d.len() && (#[trigger] d[i]).enabled && !d[i].ignore_z;
                assert(tail =~= seq![step]);
                if v.contains(ChamsStep::DrawOriginal) {
                    let i = choose|i: int| 0 <= i < v.len() && v[i] == ChamsStep::DrawOriginal;
                    if i < prev.len() {
                        assert(v[i] == prev[i]);
                    } else {
                        assert(v[i] == tail[i - prev.len()]);
                    }
                    assert(prev.contains(ChamsStep::DrawOriginal));
                    let k = choose|k: int|
                        0 <= k < d.len() && (#[trigger] d[k]).enabled && !d[k].ignore_z && d[k].cover
                            && forall|k2: int| 0 <= k2 < k ==> !((#[trigger] d[k2]).enabled && !d[k2].ignore_z);
                    assert(layers[k] == d[k]);
                    assert forall|k2: int| 0 <= k2 < k implies !((#[trigger] layers[k2]).enabled && !layers[k2].ignore_z) by {
                        assert(layers[k2] == d[k2]);
                    }
                }
                if first_visible_layer_covers(layers) {
                    let k = choose|k: int|
                        0 <= k < layers.len() && (#[trigger] layers[k]).enabled && !layers[k].ignore_z && layers[k].cover
                            && forall|k2: int| 0 <= k2 < k ==> !((#[trigger] layers[k2]).enabled && !layers[k2].ignore_z);
                    if k == n {
                        assert(layers[w] == d[w]);
                        assert(false);
                    }
                    assert(d[k] == layers[k]);
                    assert forall|k2: int| 0 <= k2 < k implies !((#[trigger] d[k2]).enabled && !d[k2].ignore_z) by {
                        assert(layers[k2] == d[k2]);
                    }
                    assert(first_visible_layer_covers(d));
                    let i = choose|i: int| 0 <= i < prev.len() && prev[i] == ChamsStep::DrawOriginal;
                    assert(v[i] == prev[i]);
                }
            } else {
                assert(prev.len() == 0);
                assert forall|k2: int| 0 <= k2 < n implies !((#[trigger] layers[k2]).enabled && !layers[k2].ignore_z) by {
                    assert(layers[k2] == d[k2]);
                }
                if l.cover {
                    assert(v[0] == ChamsStep::DrawOriginal);
                    assert(layers[n].enabled && !layers[n].ignore_z && layers[n].cover);
                } else {
                    assert(v =~= seq![step]);
                    assert(v[0] != ChamsStep::DrawOriginal);
                    if first_visible_layer_covers(layers) {
                        let k = choose|k: int|
                            0 <= k < layers.len() && (#[trigger] layers[k]).enabled && !layers[k].ignore_z && layers[k].cover
                                && forall|k2: int| 0 <= k2 < k ==> !((#[trigger] layers[k2]).enabled && !layers[k2].ignore_z);
                        if k < n {
                            assert(layers[k] == d[k]);
                        }
                    }
                }
            }
        } else {
            assert(m.visible_steps(kind, layers).0 == prev);
            if first_visible_layer_covers(layers) {
                let k = choose|k: int|
                    0 <= k < layers.len() && (#[trigger] layers[k]).enabled && !layers[k].ignore_z && layers[k].cover
                        && forall|k2: int| 0 <= k2 < k ==> !((#[trigger] layers[k2]).enabled && !layers[k2].ignore_z);
                assert(k < n);
                assert(d[k] == layers[k]);
                assert forall|k2: int| 0 <= k2 < k implies !((#[trigger] d[k2]).enabled && !d[k2].ignore_z) by {
                    assert(layers[k2] == d[k2]);
                }
            }
            if first_visible_layer_covers(d) {
                let k = choose|k: int|
                    0 <= k < d.len() && (#[trigger] d[k]).enabled && !d[k].ignore_z && d[k].cover
                        && forall|k2: int| 0 <= k2 < k ==> !((#[trigger] d[k2]).enabled && !d[k2].ignore_z);
                assert(layers[k] == d[k]);
                assert forall|k2: int| 0 <= k2 < k implies !((#[trigger] layers[k2]).enabled && !layers[k2].ignore_z) by {
                    assert(layers[k2] == d[k2]);
                }
            }
        }
    }
}

/// The game's model is drawn under the layers exactly when the first visible layer (the
/// first enabled one that does not draw through walls) asks to cover it.
pub proof fn law_model_drawn_iff_first_visible_layer_covers(m: ChamsMaterials, kind: ChamsConfigKind, layers: Seq<ChamsLayerConfig>)
    ensures
        m.spec_apply_chams(kind, layers).0.contains(ChamsStep::DrawOriginal) <==> first_visible_layer_covers(layers),
{
    lemma_visible_steps_original(m, kind, layers);
    lemma_ignore_z_steps_no_original(m, kind, layers);
    let a = m.ignore_z_steps(kind, layers);
    let b = m.visible_steps(kind, layers).0;
    let s = m.spec_apply_chams(kind, layers).0;
    assert(s == a + b);
    if s.contains(ChamsStep::DrawOriginal) {
        let i = choose|i: int| 0 <= i < s.len() && s[i] == ChamsStep::DrawOriginal;
        if i < a.len() {
            assert(s[i] == a[i]);
        } else {
            assert(s[i] == b[i - a.len()]);
        }
    }
    if b.contains(ChamsStep::DrawOriginal) {
        let i = choose|i: int| 0 <= i < b.len() && b[i] == ChamsStep::DrawOriginal;
        assert(s[i + a.len()] == b[i]);
    }
}

/// The game's own drawing is replaced exactly when a visible layer is enabled: after the
/// steps for one model, `applied` holds iff some enabled layer does not draw through walls.
pub proof fn law_applied_iff_visible_layer(m: ChamsMaterials, kind: ChamsConfigKind, layers: Seq<ChamsLayerConfig>)
    ensures
        m.spec_apply_chams(kind, layers).1 <==> exists|i: int|
            0 <= i < layers.len() && (#[trigger] layers[i]).enabled && !layers[i].ignore_z,
{
    lemma_visible_steps_only_visible(m, kind, layers);
}

/// Which layers a model is drawn with: the view model's for the view model, the enemies'
/// for a player that is not dormant when a local player exists on another team, else the
/// allies'; none for anything else.
pub proof fn law_chams_layers_by_team(config: ChamsConfig, e: Entity, lp: Option<Entity>)
    ensures
        e.viewmodel ==> chams_kind(Some(e), lp) == Some(ChamsConfigKind::Viewmodel)
            && config.spec_get(ChamsConfigKind::Viewmodel) == config.viewmodel,
        !e.viewmodel && e.player && !e.networkable.dormant && lp is Some && lp->0.team != e.team ==> chams_kind(
            Some(e),
            lp,
        ) == Some(ChamsConfigKind::Enemies) && config.spec_get(ChamsConfigKind::Enemies) == config.enemies,
        !e.viewmodel && e.player && !e.networkable.dormant && (lp is None || lp->0.team == e.team) ==> chams_kind(
            Some(e),
            lp,
        ) == Some(ChamsConfigKind::Allies) && config.spec_get(ChamsConfigKind::Allies) == config.allies,
        !e.viewmodel && !(e.player && !e.networkable.dormant) ==> chams_kind(Some(e), lp) is None,
        chams_kind(None, lp) is None,
{
}

} // verus!
