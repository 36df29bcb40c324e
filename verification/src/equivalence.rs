//! Command streams and registries that are equal up to the names of their
//! GL textures.
//!
//! The driver hands out texture names, so two runs of the same frame may see
//! different names. What the renderer does must not depend on them: the
//! passes of a frame, run on registries and pools that agree up to names,
//! give streams and registries that agree up to names.

use vstd::prelude::*;
use crate::carried::Single;
use crate::delta::ImageDeltaView;
use crate::gl::{GlCall, GlCommandView};
use crate::painter::{ClippedPrimitiveView, PainterView, PrimitiveView};
use crate::passes::{all_names, lemma_set_pass, lemma_upload_pass_wf};
use crate::registry::{
    lemma_same_places, lemma_unrealised_update, pending_fits, unrealised_among, RegistryView, Slot,
};
use crate::texture::{TextureId, TextureView};

verus! {

/// Two commands that differ at most in the name of the texture they bind or
/// delete; both unbind, or neither does.
pub open spec fn same_command(first: GlCommandView, second: GlCommandView) -> bool {
    match (first, second) {
        (
            GlCommandView::Call(GlCall::BindTexture(one)),
            GlCommandView::Call(GlCall::BindTexture(other)),
        ) => (one == 0) == (other == 0),
        (
            GlCommandView::Call(GlCall::DeleteTexture(_)),
            GlCommandView::Call(GlCall::DeleteTexture(_)),
        ) => true,
        _ => first == second,
    }
}

/// Two streams of the same length whose commands differ at most in texture
/// names.
pub open spec fn same_stream(first: Seq<GlCommandView>, second: Seq<GlCommandView>) -> bool {
    &&& first.len() == second.len()
    &&& forall|i: int| 0 <= i < first.len() ==> same_command(#[trigger] first[i], second[i])
}

/// Two textures that differ at most in their GL name; both have a GL object,
/// or neither has.
pub open spec fn same_texture(first: TextureView, second: TextureView) -> bool {
    &&& (first.name == 0) == (second.name == 0)
    &&& first.options == second.options
    &&& first.size == second.size
    &&& first.pixels == second.pixels
    &&& first.dirty == second.dirty
}

/// Two registries with the same identifiers in the same places, whose
/// textures differ at most in their GL names.
pub open spec fn same_registry(first: RegistryView, second: RegistryView) -> bool {
    &&& first.next_user == second.next_user
    &&& first.slots.len() == second.slots.len()
    &&& forall|i: int|
        0 <= i < first.slots.len() ==> (#[trigger] first.slots[i]).id == second.slots[i].id
            && same_texture(first.slots[i].texture, second.slots[i].texture)
}

/// Registries that agree up to names know the same identifiers, in the same
/// places, with textures that agree up to names.
pub proof fn lemma_same_lookup(first: RegistryView, second: RegistryView, id: TextureId)
    requires
        first.distinct(),
        same_registry(first, second),
    ensures
        second.distinct(),
        first.has(id) == second.has(id),
        first.has(id) ==> first.position(id) == second.position(id) && same_texture(
            first.texture(id),
            second.texture(id),
        ),
{
    lemma_same_places(first, second, id);
}

/// Setting one image on registries and pools that agree up to names gives
/// registries, streams and pools that agree up to names.
pub proof fn lemma_same_after_set(
    first: RegistryView,
    second: RegistryView,
    first_pool: Seq<u32>,
    second_pool: Seq<u32>,
    id: TextureId,
    delta: ImageDeltaView,
)
    requires
        first.distinct(),
        same_registry(first, second),
        first_pool.len() == second_pool.len(),
        all_names(first_pool),
        all_names(second_pool),
        first.accepts(id, delta, first_pool),
    ensures
        second.accepts(id, delta, second_pool),
        same_registry(
            first.after_set(id, delta, first_pool).registry,
            second.after_set(id, delta, second_pool).registry,
        ),
        same_stream(
            first.after_set(id, delta, first_pool).stream,
            second.after_set(id, delta, second_pool).stream,
        ),
        first.after_set(id, delta, first_pool).pool.len() == second.after_set(
            id,
            delta,
            second_pool,
        ).pool.len(),
        all_names(first.after_set(id, delta, first_pool).pool),
        all_names(second.after_set(id, delta, second_pool).pool),
        first.after_set(id, delta, first_pool).registry.distinct(),
{
    lemma_same_lookup(first, second, id);
}

/// Slots that agree up to names hold as many textures without a GL object.
proof fn lemma_same_unrealised(first: Seq<Slot>, second: Seq<Slot>)
    requires
        first.len() == second.len(),
        forall|i: int|
            0 <= i < first.len() ==> ((#[trigger] first[i]).texture.name == 0) == (
            second[i].texture.name == 0),
    ensures
        unrealised_among(first) == unrealised_among(second),
    decreases first.len(),
{
    if first.len() > 0 {
        lemma_same_unrealised(first.drop_last(), second.drop_last());
    }
}

/// A registry that agrees up to names with one that keeps the invariant
/// keeps the invariant, and lacks as many GL objects.
pub proof fn lemma_same_wf(first: RegistryView, second: RegistryView)
    requires
        first.wf(),
        same_registry(first, second),
    ensures
        second.wf(),
        second.unrealised() == first.unrealised(),
{
    assert forall|i: int, j: int| 0 <= i < j < second.slots.len() implies (
    #[trigger] second.slots[i]).id != (#[trigger] second.slots[j]).id by {
        assert(first.slots[i].id != first.slots[j].id);
    }
    if second.next_user < u64::MAX {
        assert forall|i: int| 0 <= i < second.slots.len() implies match (
        #[trigger] second.slots[i]).id {
            TextureId::User(index) => index < second.next_user,
            TextureId::Managed(_) => true,
        } by {
            assert(first.slots[i].id == second.slots[i].id);
        }
    }
    assert forall|i: int| 0 <= i < second.slots.len() implies pending_fits(
        (#[trigger] second.slots[i]).texture,
    ) by {
        assert(pending_fits(first.slots[i].texture));
    }
    lemma_same_unrealised(first.slots, second.slots);
}

/// Setting the images of a frame on registries and pools that agree up to
/// names gives registries, streams and pools that agree up to names.
pub proof fn lemma_same_set_pass(
    first: RegistryView,
    second: RegistryView,
    first_pool: Seq<u32>,
    second_pool: Seq<u32>,
    sets: Seq<(TextureId, ImageDeltaView)>,
)
    requires
        first.distinct(),
        same_registry(first, second),
        first_pool.len() == second_pool.len(),
        all_names(first_pool),
        all_names(second_pool),
        first.accepts_all(sets, first_pool),
    ensures
        second.accepts_all(sets, second_pool),
        same_registry(
            first.set_pass(sets, first_pool).registry,
            second.set_pass(sets, second_pool).registry,
        ),
        same_stream(
            first.set_pass(sets, first_pool).stream,
            second.set_pass(sets, second_pool).stream,
        ),
        first.set_pass(sets, first_pool).pool.len() == second.set_pass(
            sets,
            second_pool,
        ).pool.len(),
        all_names(first.set_pass(sets, first_pool).pool),
        all_names(second.set_pass(sets, second_pool).pool),
        first.set_pass(sets, first_pool).registry.distinct(),
    decreases sets.len(),
{
    if sets.len() > 0 {
        let front = sets.drop_last();
        assert forall|i: int| 0 <= i < front.len() implies #[trigger] first.accepts_at(
            front,
            first_pool,
            i,
        ) by {
            assert(front.take(i) =~= sets.take(i));
            assert(first.accepts_at(sets, first_pool, i));
        }
        lemma_same_set_pass(first, second, first_pool, second_pool, front);
        let one = first.set_pass(front, first_pool);
        let other = second.set_pass(front, second_pool);
        assert(first.accepts_at(sets, first_pool, sets.len() - 1));
        lemma_same_after_set(
            one.registry,
            other.registry,
            one.pool,
            other.pool,
            sets.last().0,
            sets.last().1,
        );
        assert forall|i: int| 0 <= i < sets.len() implies #[trigger] second.accepts_at(
            sets,
            second_pool,
            i,
        ) by {
            if i < front.len() {
                assert(front.take(i) =~= sets.take(i));
                assert(second.accepts_at(front, second_pool, i));
            }
        }
    }
}

/// The upload pass on registries and pools that agree up to names gives
/// registries, streams and pools that agree up to names.
pub proof fn lemma_same_upload_pass(
    first: RegistryView,
    second: RegistryView,
    first_pool: Seq<u32>,
    second_pool: Seq<u32>,
    upto: nat,
)
    requires
        first.wf(),
        same_registry(first, second),
        first_pool.len() == second_pool.len(),
        all_names(first_pool),
        all_names(second_pool),
        first_pool.len() >= first.unrealised(),
        upto <= first.slots.len(),
    ensures
        same_registry(
            first.upload_pass(first_pool, upto).registry,
            second.upload_pass(second_pool, upto).registry,
        ),
        same_stream(
            first.upload_pass(first_pool, upto).stream,
            second.upload_pass(second_pool, upto).stream,
        ),
        first.upload_pass(first_pool, upto).pool.len() == second.upload_pass(
            second_pool,
            upto,
        ).pool.len(),
    decreases upto,
{
    lemma_same_wf(first, second);
    if upto > 0 {
        let at = upto - 1;
        lemma_same_upload_pass(first, second, first_pool, second_pool, at as nat);
        lemma_upload_pass_wf(first, first_pool, at as nat);
        lemma_upload_pass_wf(second, second_pool, at as nat);
        let one = first.upload_pass(first_pool, at as nat);
        let slot = first.slots[at];
        if slot.texture.name == 0 {
            lemma_unrealised_update(
                one.registry.slots,
                at,
                Slot { id: slot.id, texture: TextureView { name: 1, ..slot.texture } },
            );
        }
    }
}

/// Painting primitives from registries that agree up to names gives streams
/// that agree up to names.
pub proof fn lemma_same_meshes(
    first: PainterView,
    second: PainterView,
    primitives: Seq<ClippedPrimitiveView>,
    upto: nat,
)
    requires
        first.gl == second.gl,
        first.canvas == second.canvas,
        first.registry.distinct(),
        same_registry(first.registry, second.registry),
        upto <= primitives.len(),
    ensures
        same_stream(
            first.meshes_stream(primitives, upto),
            second.meshes_stream(primitives, upto),
        ),
    decreases upto,
{
    if upto > 0 {
        lemma_same_meshes(first, second, primitives, (upto - 1) as nat);
        match primitives[upto - 1].primitive {
            PrimitiveView::Mesh(mesh) => {
                lemma_same_lookup(first.registry, second.registry, mesh.texture_id);
            },
            PrimitiveView::Callback => {},
        }
    }
}

/// Releasing textures from registries that agree up to names gives
/// registries and streams that agree up to names.
pub proof fn lemma_same_free_pass(first: RegistryView, second: RegistryView, ids: Seq<TextureId>)
    requires
        first.wf(),
        same_registry(first, second),
    ensures
        same_registry(first.free_pass(ids).registry, second.free_pass(ids).registry),
        same_stream(first.free_pass(ids).stream, second.free_pass(ids).stream),
        first.free_pass(ids).registry.wf(),
    decreases ids.len(),
{
    if ids.len() > 0 {
        let front = ids.drop_last();
        let id = ids.last();
        lemma_same_free_pass(first, second, front);
        let one = first.free_pass(front);
        let other = second.free_pass(front);
        lemma_same_lookup(one.registry, other.registry, id);
    }
}

/// A frame on a renderer, with two pools of the same size, gives streams
/// and registries that agree up to names.
pub proof fn lemma_same_frame(
    painter: PainterView,
    pixels_per_point: Single,
    primitives: Seq<ClippedPrimitiveView>,
    sets: Seq<(TextureId, ImageDeltaView)>,
    frees: Seq<TextureId>,
    first_pool: Seq<u32>,
    second_pool: Seq<u32>,
)
    requires
        painter.wf(),
        painter.frame_ready(primitives, sets, first_pool),
        all_names(second_pool),
        second_pool.len() == first_pool.len(),
    ensures
        painter.frame_ready(primitives, sets, second_pool),
        same_stream(
            painter.frame(pixels_per_point, primitives, sets, frees, first_pool).stream,
            painter.frame(pixels_per_point, primitives, sets, frees, second_pool).stream,
        ),
        same_registry(
            painter.frame(pixels_per_point, primitives, sets, frees, first_pool).registry,
            painter.frame(pixels_per_point, primitives, sets, frees, second_pool).registry,
        ),
        painter.frame(pixels_per_point, primitives, sets, frees, first_pool).pool.len()
            == painter.frame(pixels_per_point, primitives, sets, frees, second_pool).pool.len(),
{
    let registry = painter.registry;
    lemma_same_set_pass(registry, registry, first_pool, second_pool, sets);
    let one = registry.set_pass(sets, first_pool);
    let other = registry.set_pass(sets, second_pool);
    lemma_set_pass(registry, sets, first_pool, TextureId::Managed(0));
    lemma_same_wf(one.registry, other.registry);
    let count = one.registry.slots.len();
    lemma_same_upload_pass(one.registry, other.registry, one.pool, other.pool, count);
    lemma_upload_pass_wf(one.registry, one.pool, count);
    let up = one.registry.upload_pass(one.pool, count);
    let down = other.registry.upload_pass(other.pool, count);
    lemma_same_meshes(
        painter.with_registry(up.registry),
        painter.with_registry(down.registry),
        primitives,
        primitives.len(),
    );
    lemma_same_free_pass(up.registry, down.registry, frees);
}

} // verus!
