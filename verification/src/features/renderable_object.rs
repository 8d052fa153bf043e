use vstd::prelude::*;
use crate::entity::{attachment_chain, peer_chain, Entity, EntityList, STUDIO_RENDER};
use crate::render::{RenderCommand, RenderQueue};

verus! {

/// The draw commands for the entities of `chain` that the engine would draw.
pub open spec fn attachment_draws(chain: Seq<Entity>) -> Seq<RenderCommand>
    decreases chain.len(),
{
    if chain.len() == 0 {
        Seq::empty()
    } else {
        let head = if chain[0].renderable.should_draw {
            seq![RenderCommand::DrawModel { entity_index: chain[0].renderable.entity_index, flags: STUDIO_RENDER }]
        } else {
            Seq::empty()
        };
        head + attachment_draws(chain.drop_first())
    }
}

/// An entity that a feature draws again, together with whether it was drawn already.
#[derive(Clone)]
pub struct RenderableObject<'a> {
    pub entity: &'a Entity,
    pub model_was_drawn: bool,
}

impl<'a> RenderableObject<'a> {
    pub fn new(entity: &'a Entity) -> (o: Self)
        ensures
            o.entity == entity,
            !o.model_was_drawn,
    {
        RenderableObject { entity, model_was_drawn: false }
    }

    /// Whether the engine would draw the model and the entity is not dormant.
    pub fn should_draw_model(&self) -> (b: bool)
        ensures
            b == (self.entity.renderable.should_draw && !self.entity.networkable.dormant),
    {
        self.entity.renderable().should_draw() && !self.entity.networkable().is_dormant()
    }

    /// Draws the entity's model.
    pub fn draw_model(&self, queue: &mut RenderQueue)
        ensures
            final(queue)@ == old(queue)@.push(
                RenderCommand::DrawModel {
                    entity_index: self.entity.renderable.entity_index,
                    flags: STUDIO_RENDER,
                },
            ),
    {
        self.entity.renderable().draw_model(queue);
    }

    /// Draws every attached entity that the engine would draw, in attachment order.
    pub fn draw_attachments(&self, list: &EntityList, queue: &mut RenderQueue)
        requires
            attachment_chain(list, self.entity) is Some,
        ensures
            final(queue)@ == old(queue)@ + attachment_draws(attachment_chain(list, self.entity)->0),
    {
        draw_attachment_chain(self.entity, list, queue);
    }
}

/// Draws the attachments of `entity` that the engine would draw.
pub fn draw_attachment_chain(entity: &Entity, list: &EntityList, queue: &mut RenderQueue)
    requires
        attachment_chain(list, entity) is Some,
    ensures
        final(queue)@ == old(queue)@ + attachment_draws(attachment_chain(list, entity)->0),
{
    let ghost total = attachment_chain(list, entity)->0;
    let mut it = entity.attachments(list);
    let mut fuel: usize = list.entities.len();
    proof {
        assert(list.entities@.len() == list.entities.len());
    }
    let ghost mut rest: Seq<Entity> = total;
    let ghost start = queue@;
    assert(rest == total);
    loop
        invariant
            it.list == list,
            start == old(queue)@,
            total == attachment_chain(list, entity)->0,
            peer_chain(list, if it.first_pass { it.entity.move_child } else { it.entity.move_peer }, (fuel + 1) as nat) == Some(rest),
            queue@ + attachment_draws(rest) == start + attachment_draws(total),
        decreases fuel,
    {
        let ghost h = if it.first_pass { it.entity.move_child } else { it.entity.move_peer };
        match it.next() {
            None => {
                assert(rest == Seq::<Entity>::empty());
                assert(attachment_draws(rest) == Seq::<RenderCommand>::empty());
                assert(queue@ + attachment_draws(rest) =~= queue@);
                return;
            },
            Some(att) => {
                assert(rest.len() > 0);
                assert(rest[0] == *att);
                let ghost tail = rest.drop_first();
                assert(peer_chain(list, att.move_peer, fuel as nat) == Some(tail)) by {
                    assert(rest == seq![*att] + tail);
                };
                if fuel == 0 {
                    assert(false);
                }
                let r = att.renderable();
                if r.should_draw() {
                    r.draw_model(queue);
                }
                proof {
                    assert(attachment_draws(rest) == (if att.renderable.should_draw {
                        seq![RenderCommand::DrawModel { entity_index: att.renderable.entity_index, flags: STUDIO_RENDER }]
                    } else {
                        Seq::empty()
                    }) + attachment_draws(tail));
                    assert(queue@ + attachment_draws(tail) == start + attachment_draws(total));
                }
                fuel = fuel - 1;
                proof {
                    rest = tail;
                }
            },
        }
    }
}

} // verus!
