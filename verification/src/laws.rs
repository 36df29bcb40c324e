//! Laws of the renderer and of the input translator, proved from the models
//! that the contracts of the library are stated over.

use vstd::prelude::*;
use crate::carried::{Double, Single};
use crate::delta::ImageDeltaView;
use crate::equivalence::{lemma_same_frame, same_registry, same_stream};
use crate::input::{
    chord_events, crlf_to_lf, key_events, scroll_event, Action, EventView, HostEvent, InputView,
    PointerPos, Wheel,
};
use crate::input_translate::{
    copy_chord, cut_chord, paste_chord, translated_key, translated_modifiers, HostKey, Mod,
    Modifiers, Platform,
};
use crate::painter::{
    scissor_box, setup_stream, teardown_stream, ClippedPrimitiveView, PainterView, PixelRect,
};
use crate::gl::GlCommandView;
use crate::passes::{
    all_names, configures, created, full_images, last_full, lemma_configures_within,
    lemma_free_pass, lemma_set_pass, lemma_set_pass_configures, lemma_upload_pass_configures,
    lemma_upload_pass_keeps, lemma_upload_pass_wf, needs_upload, pending_stream, uploaded,
};
use crate::registry::{
    lemma_installed, lemma_same_places, lemma_unrealised_update, RegistryView, Slot,
};
use crate::texture::{realise_stream, TextureId, TextureView};

verus! {

/// A user identifier is fresh when it is handed out, and no later allocation
/// hands it out again: an allocation raises the counter above the index it
/// used, no operation lowers the counter, and an allocation never takes an
/// index below the counter.
pub proof fn law_identifiers_never_reused(earlier: RegistryView, later: RegistryView)
    requires
        earlier.wf(),
        earlier.fresh_index() < u64::MAX,
        later.next_user > earlier.fresh_index(),
    ensures
        !earlier.has(TextureId::User(earlier.fresh_index() as u64)),
        later.fresh_index() > earlier.fresh_index(),
{
}

/// With [`RegistryView::names_needed`] names in the pool, setting the images
/// of a frame takes one name for each full image, never finds the pool empty,
/// and leaves a name for every texture that is then without a GL object: the
/// frame does not run out of names.
pub proof fn law_names_suffice(
    registry: RegistryView,
    sets: Seq<(TextureId, ImageDeltaView)>,
    pool: Seq<u32>,
)
    requires
        all_names(pool),
        pool.len() >= registry.names_needed(sets),
    ensures
        registry.set_pass(sets, pool).pool == pool.take(pool.len() - full_images(sets)),
        registry.set_pass(sets, pool).registry.unrealised() <= registry.unrealised(),
        registry.set_pass(sets, pool).pool.len() >= registry.set_pass(
            sets,
            pool,
        ).registry.unrealised(),
        forall|i: int|
            0 <= i < sets.len() && sets[i].1.pos is None ==> (#[trigger] registry.set_pass(
                sets.take(i),
                pool,
            )).pool.len() > 0,
    decreases sets.len(),
{
    if sets.len() > 0 {
        let front = sets.drop_last();
        law_names_suffice(registry, front, pool);
        let before = registry.set_pass(front, pool);
        let id = sets.last().0;
        let delta = sets.last().1;
        if delta.pos is None {
            let texture = created(delta, before.pool.last());
            if before.registry.has(id) {
                lemma_unrealised_update(
                    before.registry.slots,
                    before.registry.position(id),
                    Slot { id, texture },
                );
            } else {
                assert(before.registry.slots.push(Slot { id, texture }).drop_last()
                    =~= before.registry.slots);
            }
        }
        assert forall|i: int| 0 <= i < sets.len() && sets[i].1.pos is None implies (
        #[trigger] registry.set_pass(sets.take(i), pool)).pool.len() > 0 by {
            if i < sets.len() - 1 {
                assert(front.take(i) =~= sets.take(i));
            }
        }
    }
}

/// A region update is accepted only inside the texture it updates: with the
/// region at `(x, y)` and of size `(w, h)`, and the texture of size `(W, H)`,
/// `x + w <= W` and `y + h <= H`.
pub proof fn law_region_inside_texture(
    registry: RegistryView,
    id: TextureId,
    delta: ImageDeltaView,
    pool: Seq<u32>,
)
    requires
        registry.accepts(id, delta, pool),
        delta.pos is Some,
    ensures
        registry.has(id),
        delta.pos.unwrap().0 + delta.size.0 <= registry.texture(id).size.0,
        delta.pos.unwrap().1 + delta.size.1 <= registry.texture(id).size.1,
{
}

/// A full image creates its texture with the options of the image: the GL
/// object is configured with them, and the registry records them.
pub proof fn law_created_with_options(
    registry: RegistryView,
    id: TextureId,
    delta: ImageDeltaView,
    pool: Seq<u32>,
)
    requires
        registry.wf(),
        delta.pos is None,
        pool.len() > 0,
        pool.last() != 0,
    ensures
        registry.after_set(id, delta, pool).registry.has(id),
        registry.after_set(id, delta, pool).registry.texture(id).options == delta.options,
        registry.after_set(id, delta, pool).registry.texture(id).name == pool.last(),
        registry.after_set(id, delta, pool).stream.take(5) == realise_stream(
            pool.last(),
            delta.options,
        ),
{
    lemma_installed(registry, id, created(delta, pool.last()));
}

/// The upload pass keeps the options and the size of a texture, and where it
/// creates the GL object it configures it with the texture's options.
pub proof fn law_upload_keeps_options(texture: TextureView, fresh: u32)
    ensures
        uploaded(texture, fresh).options == texture.options,
        uploaded(texture, fresh).size == texture.size,
        !uploaded(texture, fresh).dirty || !needs_upload(texture),
        texture.name == 0 ==> uploaded(texture, fresh).name == fresh && pending_stream(
            texture,
            fresh,
        ).take(5) == realise_stream(fresh, texture.options),
        texture.name != 0 ==> uploaded(texture, fresh).name == texture.name,
{
}

/// After a frame, a texture of the registry has the options and the size of
/// the last full image that the frame set under its identifier; where the
/// frame set none, the texture was in the registry before, and has the
/// options and the size it had then. No texture that the frame releases is
/// left, and the counter of user identifiers has not gone down.
pub proof fn law_frame_keeps_options(
    painter: PainterView,
    pixels_per_point: Single,
    primitives: Seq<ClippedPrimitiveView>,
    sets: Seq<(TextureId, ImageDeltaView)>,
    frees: Seq<TextureId>,
    pool: Seq<u32>,
    id: TextureId,
)
    requires
        painter.wf(),
        painter.frame_ready(primitives, sets, pool),
        painter.frame(pixels_per_point, primitives, sets, frees, pool).registry.has(id),
    ensures
        !frees.contains(id),
        painter.frame(pixels_per_point, primitives, sets, frees, pool).registry.next_user
            >= painter.registry.next_user,
        painter.frame(pixels_per_point, primitives, sets, frees, pool).registry.texture(id).name
            != 0,
        match last_full(sets, id) {
            Some(delta) => {
                &&& painter.frame(pixels_per_point, primitives, sets, frees, pool).registry.texture(
                    id,
                ).options == delta.options
                &&& painter.frame(pixels_per_point, primitives, sets, frees, pool).registry.texture(
                    id,
                ).size == delta.size
            },
            None => {
                &&& painter.registry.has(id)
                &&& painter.frame(pixels_per_point, primitives, sets, frees, pool).registry.texture(
                    id,
                ).options == painter.registry.texture(id).options
                &&& painter.frame(pixels_per_point, primitives, sets, frees, pool).registry.texture(
                    id,
                ).size == painter.registry.texture(id).size
            },
        },
{
    let set = painter.registry.set_pass(sets, pool);
    let uploads = set.registry.upload_pass(set.pool, set.registry.slots.len());
    lemma_set_pass(painter.registry, sets, pool, id);
    lemma_upload_pass_keeps(set.registry, set.pool, set.registry.slots.len());
    lemma_upload_pass_wf(set.registry, set.pool, set.registry.slots.len());
    lemma_free_pass(uploads.registry, frees, id);
}

/// After a frame, a texture of the registry either is the GL object that was
/// under its identifier before the frame, or was configured in the frame,
/// when its GL object was created, with the options that the registry holds
/// for it.
pub proof fn law_frame_configures_what_it_creates(
    painter: PainterView,
    pixels_per_point: Single,
    primitives: Seq<ClippedPrimitiveView>,
    sets: Seq<(TextureId, ImageDeltaView)>,
    frees: Seq<TextureId>,
    pool: Seq<u32>,
    id: TextureId,
)
    requires
        painter.wf(),
        painter.frame_ready(primitives, sets, pool),
        painter.frame(pixels_per_point, primitives, sets, frees, pool).registry.has(id),
    ensures
        ({
            let frame = painter.frame(pixels_per_point, primitives, sets, frees, pool);
            ||| {
                &&& painter.registry.has(id)
                &&& painter.registry.texture(id).name != 0
                &&& frame.registry.texture(id).name == painter.registry.texture(id).name
            }
            ||| configures(
                frame.stream,
                frame.registry.texture(id).name,
                frame.registry.texture(id).options,
            )
        }),
{
    let set = painter.registry.set_pass(sets, pool);
    let count = set.registry.slots.len();
    let uploads = set.registry.upload_pass(set.pool, count);
    let paint = painter.with_registry(set.registry).paint_pass(pixels_per_point, primitives, set.pool);
    let free = uploads.registry.free_pass(frees);
    let frame = painter.frame(pixels_per_point, primitives, sets, frees, pool);
    let rest = setup_stream(painter.gl, painter.canvas, pixels_per_point) + painter.with_registry(
        uploads.registry,
    ).meshes_stream(primitives, primitives.len()) + teardown_stream();
    lemma_set_pass(painter.registry, sets, pool, id);
    lemma_upload_pass_keeps(set.registry, set.pool, count);
    lemma_upload_pass_wf(set.registry, set.pool, count);
    lemma_same_places(set.registry, uploads.registry, id);
    lemma_free_pass(uploads.registry, frees, id);
    let at = set.registry.position(id);
    let held = set.registry.texture(id);
    let name = frame.registry.texture(id).name;
    assert(frame.registry.texture(id) == uploads.registry.slots[at].texture);
    if last_full(sets, id) is Some {
        lemma_set_pass_configures(painter.registry, sets, pool, id);
        lemma_configures_within(Seq::empty(), set.stream, paint.stream + free.stream, name, held.options);
        assert(Seq::<GlCommandView>::empty() + set.stream + (paint.stream + free.stream)
            =~= frame.stream);
    } else if held.name == 0 {
        lemma_upload_pass_configures(set.registry, set.pool, count, at);
        lemma_configures_within(set.stream, uploads.stream, rest + free.stream, name, held.options);
        assert(set.stream + uploads.stream + (rest + free.stream) =~= frame.stream);
    }
}

/// Two frames on the same renderer with the same primitives and the same
/// texture delta issue the same GL commands and leave the same registry, up
/// to the names of the GL textures: whatever names the driver hands out for
/// the textures that the frame creates, the streams differ in those names
/// only. With the same names they do not differ at all.
pub proof fn law_frame_same_up_to_names(
    painter: PainterView,
    pixels_per_point: Single,
    primitives: Seq<ClippedPrimitiveView>,
    sets: Seq<(TextureId, ImageDeltaView)>,
    frees: Seq<TextureId>,
    first_pool: Seq<u32>,
    second_pool: Seq<u32>,
)
    requires
        painter.wf(),
        painter.frame_ready(primitives, sets, first_pool),
        all_names(second_pool),
        second_pool.len() == first_pool.len(),
    ensures
        painter.frame_ready(primitives, sets, second_pool),
        same_stream(
            painter.frame(pixels_per_point, primitives, sets, frees, first_pool).stream,
            painter.frame(pixels_per_point, primitives, sets, frees, second_pool).stream,
        ),
        same_registry(
            painter.frame(pixels_per_point, primitives, sets, frees, first_pool).registry,
            painter.frame(pixels_per_point, primitives, sets, frees, second_pool).registry,
        ),
        painter.frame(pixels_per_point, primitives, sets, frees, first_pool).pool.len()
            == painter.frame(pixels_per_point, primitives, sets, frees, second_pool).pool.len(),
        first_pool == second_pool ==> painter.frame(
            pixels_per_point,
            primitives,
            sets,
            frees,
            first_pool,
        ) == painter.frame(pixels_per_point, primitives, sets, frees, second_pool),
{
    lemma_same_frame(
        painter,
        pixels_per_point,
        primitives,
        sets,
        frees,
        first_pool,
        second_pool,
    );
}

/// A turn of the wheel adds exactly one event, chosen by the modifiers that
/// were in force before it: a zoom while control or command is down, else a
/// horizontal scroll while shift is down, else a scroll.
pub proof fn law_scroll_is_one_event(state: InputView, x: Double, y: Double)
    ensures
        state.after_event(HostEvent::Scroll(x, y), None).raw_input.events
            == state.raw_input.events.push(scroll_event(state.modifiers, Wheel { x, y })),
        state.after_event(HostEvent::Scroll(x, y), None).modifiers == state.modifiers,
        scroll_event(state.modifiers, Wheel { x, y }) == if state.modifiers.ctrl
            || state.modifiers.command {
            EventView::Zoom(Wheel { x, y })
        } else if state.modifiers.shift {
            EventView::ScrollHorizontal(Wheel { x, y })
        } else {
            EventView::Scroll(Wheel { x, y })
        },
{
}

/// The press of a key that completes a clipboard chord adds exactly one of
/// cut, copy and paste, before the key event of the key. A paste carries the
/// clipboard's content with line ends normalised. The law leaves out the
/// paste that finds the clipboard unreadable or empty: it adds no clipboard
/// event.
pub proof fn law_chord_is_one_event(
    state: InputView,
    key: HostKey,
    keymod: Mod,
    clipboard: Option<Seq<char>>,
)
    requires
        cut_chord(translated_modifiers(keymod, state.platform), key, state.platform) || copy_chord(
            translated_modifiers(keymod, state.platform),
            key,
            state.platform,
        ) || paste_chord(translated_modifiers(keymod, state.platform), key, state.platform),
        state.reads_clipboard(HostEvent::Key(key, Action::Press, keymod)) ==> clipboard is Some
            && clipboard.unwrap().len() > 0,
    ensures
        ({
            let modifiers = translated_modifiers(keymod, state.platform);
            let chord = chord_events(modifiers, key, Action::Press, state.platform, clipboard);
            &&& chord.len() == 1
            &&& chord[0] == if cut_chord(modifiers, key, state.platform) {
                EventView::Cut
            } else if copy_chord(modifiers, key, state.platform) {
                EventView::Copy
            } else {
                EventView::Paste(crlf_to_lf(clipboard.unwrap()))
            }
            &&& state.after_event(
                HostEvent::Key(key, Action::Press, keymod),
                clipboard,
            ).raw_input.events == state.raw_input.events + chord + key_events(
                modifiers,
                key,
                Action::Press,
            )
        }),
{
}

/// A key that completes no chord, or that is not pressed, adds no clipboard
/// event.
pub proof fn law_no_chord_no_event(
    modifiers: Modifiers,
    key: HostKey,
    action: Action,
    platform: Platform,
    clipboard: Option<Seq<char>>,
)
    requires
        action != Action::Press || !(cut_chord(modifiers, key, platform) || copy_chord(
            modifiers,
            key,
            platform,
        ) || paste_chord(modifiers, key, platform)),
    ensures
        chord_events(modifiers, key, action, platform, clipboard).len() == 0,
{
}

/// A move of the pointer is reported with the position that the host gave
/// and the pixels-per-point that are in force when the event is added, and
/// the translator remembers the same position.
pub proof fn law_pointer_scaled_at_emission(state: InputView, x: Double, y: Double)
    ensures
        state.after_event(HostEvent::CursorPos(x, y), None).cursor_pos == (PointerPos {
            x,
            y,
            pixels_per_point: state.pixels_per_point,
        }),
        state.after_event(HostEvent::CursorPos(x, y), None).raw_input.events
            == state.raw_input.events.push(
            EventView::PointerMoved(PointerPos { x, y, pixels_per_point: state.pixels_per_point }),
        ),
{
}

/// The scissor box of a clip rectangle lies inside the framebuffer, and it is
/// the clip rectangle itself, flipped, where that lies inside the
/// framebuffer.
pub proof fn law_scissor_inside_framebuffer(clip: PixelRect, width: u32, height: u32)
    ensures
        scissor_box(clip, width, height).x + scissor_box(clip, width, height).width <= width,
        scissor_box(clip, width, height).y + scissor_box(clip, width, height).height <= height,
        0 <= clip.min_x <= clip.max_x <= width && 0 <= clip.min_y <= clip.max_y <= height
            ==> scissor_box(clip, width, height).x == clip.min_x && scissor_box(
            clip,
            width,
            height,
        ).y == height - clip.max_y && scissor_box(clip, width, height).width == clip.max_x
            - clip.min_x && scissor_box(clip, width, height).height == clip.max_y - clip.min_y,
{
}

/// The key table maps different keys of the host to different keys of the
/// toolkit.
pub proof fn law_key_table_injective(first: HostKey, second: HostKey)
    requires
        translated_key(first) is Some,
        translated_key(first) == translated_key(second),
    ensures
        first == second,
{
}

} // verus!
