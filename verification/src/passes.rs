//! The passes of a frame over the texture registry: the images of the delta
//! are set, what is pending is uploaded, and what the delta frees is
//! released. Each pass is a function from the registry and the pool of fresh
//! GL names to the registry, the GL commands and the pool that it leaves.

use vstd::prelude::*;
use crate::delta::ImageDeltaView;
use crate::gl::GlCommandView;
use crate::registry::{lemma_installed, lemma_removed, lemma_unrealised_update, RegistryView, Slot};
use crate::texture::{
    realise_stream, region_fits, srgba_bytes, upload_stream, upload_sub_stream, TextureId,
    TextureOptions, TextureView,
};

verus! {

/// A registry on its way through a frame: its contents, the GL commands
/// issued so far, and the fresh GL names that are left.
pub struct Pass {
    pub registry: RegistryView,
    pub stream: Seq<GlCommandView>,
    pub pool: Seq<u32>,
}

/// Every name of the pool is a GL name: none is 0.
pub open spec fn all_names(pool: Seq<u32>) -> bool {
    forall|i: int| 0 <= i < pool.len() ==> #[trigger] pool[i] != 0
}

/// The texture that a full image creates under the GL name `name`: uploaded at
/// once, so nothing is pending.
pub open spec fn created(delta: ImageDeltaView, name: u32) -> TextureView {
    TextureView {
        name,
        options: delta.options,
        size: delta.size,
        pixels: Seq::empty(),
        dirty: false,
    }
}

/// Whether the upload pass has work to do on a texture.
pub open spec fn needs_upload(texture: TextureView) -> bool {
    texture.dirty || texture.name == 0
}

/// A texture after the upload pass has visited it; `fresh` is the GL name it
/// gets where it had none.
pub open spec fn uploaded(texture: TextureView, fresh: u32) -> TextureView {
    if needs_upload(texture) {
        TextureView {
            name: if texture.name == 0 {
                fresh
            } else {
                texture.name
            },
            pixels: Seq::empty(),
            dirty: false,
            ..texture
        }
    } else {
        texture
    }
}

/// The commands of the upload pass on one texture: the GL object is created
/// where there was none, and the pending pixels are uploaded, unless there are
/// none and the GL object existed already.
pub open spec fn pending_stream(texture: TextureView, fresh: u32) -> Seq<GlCommandView> {
    if !needs_upload(texture) {
        Seq::empty()
    } else if texture.name == 0 {
        realise_stream(fresh, texture.options) + upload_stream(fresh, texture.size, texture.pixels)
    } else if texture.pixels.len() == 0 {
        Seq::empty()
    } else {
        upload_stream(texture.name, texture.size, texture.pixels)
    }
}

impl RegistryView {
    /// Whether the image `delta` can be set under `id`: its texel count
    /// matches its size; a region names an existing GL texture and lies
    /// inside it; a full image finds a fresh GL name in the pool.
    pub open spec fn accepts(self, id: TextureId, delta: ImageDeltaView, pool: Seq<u32>) -> bool {
        &&& delta.pixels.len() == delta.size.0 * delta.size.1
        &&& match delta.pos {
            Some((x, y)) => {
                &&& self.has(id)
                &&& self.texture(id).name != 0
                &&& region_fits(x, y, delta.size.0, delta.size.1, self.texture(id).size)
            },
            None => pool.len() > 0,
        }
    }

    /// The registry, the commands and the pool after `delta` was set under
    /// `id`. A region is uploaded into the existing GL object. A full image
    /// gets the last name of the pool, is configured and uploaded, and takes
    /// the place of what was under `id` before, which is released.
    pub open spec fn after_set(self, id: TextureId, delta: ImageDeltaView, pool: Seq<u32>) -> Pass {
        match delta.pos {
            Some((x, y)) => Pass {
                registry: self,
                stream: upload_sub_stream(
                    self.texture(id).name,
                    x,
                    y,
                    delta.size.0,
                    delta.size.1,
                    srgba_bytes(delta.pixels),
                ),
                pool,
            },
            None => Pass {
                registry: self.installed(id, created(delta, pool.last())),
                stream: realise_stream(pool.last(), delta.options) + upload_stream(
                    pool.last(),
                    delta.size,
                    srgba_bytes(delta.pixels),
                ) + self.release_stream(id),
                pool: pool.drop_last(),
            },
        }
    }

    /// The registry, the commands and the pool after the images `sets` were
    /// set, one after the other.
    pub open spec fn set_pass(self, sets: Seq<(TextureId, ImageDeltaView)>, pool: Seq<u32>) -> Pass
        decreases sets.len(),
    {
        if sets.len() == 0 {
            Pass { registry: self, stream: Seq::empty(), pool }
        } else {
            let before = self.set_pass(sets.drop_last(), pool);
            let step = before.registry.after_set(sets.last().0, sets.last().1, before.pool);
            Pass { registry: step.registry, stream: before.stream + step.stream, pool: step.pool }
        }
    }

    /// The image of `sets` with index `index` is accepted by the registry
    /// that the images before it leave.
    pub open spec fn accepts_at(
        self,
        sets: Seq<(TextureId, ImageDeltaView)>,
        pool: Seq<u32>,
        index: int,
    ) -> bool {
        self.set_pass(sets.take(index), pool).registry.accepts(
            sets[index].0,
            sets[index].1,
            self.set_pass(sets.take(index), pool).pool,
        )
    }

    /// Every image of `sets` is accepted when its turn comes.
    pub open spec fn accepts_all(
        self,
        sets: Seq<(TextureId, ImageDeltaView)>,
        pool: Seq<u32>,
    ) -> bool {
        forall|i: int| 0 <= i < sets.len() ==> #[trigger] self.accepts_at(sets, pool, i)
    }

    /// A number of fresh GL names that is enough for a frame that sets the
    /// images `sets`: one for each full image and one for each texture that
    /// has no GL object yet.
    pub open spec fn names_needed(self, sets: Seq<(TextureId, ImageDeltaView)>) -> nat {
        full_images(sets) + self.unrealised()
    }

    /// The upload pass over the first `upto` entries, in insertion order.
    /// Each entry without a GL object takes the last name of the pool.
    pub open spec fn upload_pass(self, pool: Seq<u32>, upto: nat) -> Pass
        decreases upto,
    {
        if upto == 0 {
            Pass { registry: self, stream: Seq::empty(), pool }
        } else {
            let before = self.upload_pass(pool, (upto - 1) as nat);
            let slot = self.slots[upto - 1];
            let fresh = before.pool.last();
            Pass {
                registry: RegistryView {
                    slots: before.registry.slots.update(
                        upto - 1,
                        Slot { id: slot.id, texture: uploaded(slot.texture, fresh) },
                    ),
                    ..before.registry
                },
                stream: before.stream + pending_stream(slot.texture, fresh),
                pool: if slot.texture.name == 0 {
                    before.pool.drop_last()
                } else {
                    before.pool
                },
            }
        }
    }

    /// The registry and the commands after the textures `ids` were released,
    /// one after the other.
    pub open spec fn free_pass(self, ids: Seq<TextureId>) -> Pass
        decreases ids.len(),
    {
        if ids.len() == 0 {
            Pass { registry: self, stream: Seq::empty(), pool: Seq::empty() }
        } else {
            let before = self.free_pass(ids.drop_last());
            Pass {
                registry: before.registry.removed(ids.last()),
                stream: before.stream + before.registry.release_stream(ids.last()),
                pool: Seq::empty(),
            }
        }
    }
}

/// Whether `stream` holds, from `at` on, the commands that configure the
/// fresh texture `name` with `options`.
pub open spec fn configures_at(
    stream: Seq<GlCommandView>,
    at: int,
    name: u32,
    options: TextureOptions,
) -> bool {
    0 <= at && at + 5 <= stream.len() && stream.subrange(at, at + 5) == realise_stream(
        name,
        options,
    )
}

/// Whether `stream` configures the fresh texture `name` with `options`.
pub open spec fn configures(stream: Seq<GlCommandView>, name: u32, options: TextureOptions) -> bool {
    exists|at: int| configures_at(stream, at, name, options)
}

/// The number of images that replace a whole texture.
pub open spec fn full_images(sets: Seq<(TextureId, ImageDeltaView)>) -> nat
    decreases sets.len(),
{
    if sets.len() == 0 {
        0
    } else {
        full_images(sets.drop_last()) + if sets.last().1.pos is None {
            1nat
        } else {
            0nat
        }
    }
}

/// The last image of `sets` that replaces the whole texture under `id`.
pub open spec fn last_full(sets: Seq<(TextureId, ImageDeltaView)>, id: TextureId) -> Option<
    ImageDeltaView,
>
    decreases sets.len(),
{
    if sets.len() == 0 {
        None
    } else if sets.last().0 == id && sets.last().1.pos is None {
        Some(sets.last().1)
    } else {
        last_full(sets.drop_last(), id)
    }
}

/// Setting the images of a frame keeps the invariant of the registry and
/// takes names from the end of the pool only. Under an identifier for which
/// the frame has a full image, the registry then holds the texture that the
/// last such image created; under any other identifier it holds what it held
/// before.
pub proof fn lemma_set_pass(
    registry: RegistryView,
    sets: Seq<(TextureId, ImageDeltaView)>,
    pool: Seq<u32>,
    id: TextureId,
)
    requires
        registry.wf(),
        all_names(pool),
        registry.accepts_all(sets, pool),
    ensures
        registry.set_pass(sets, pool).registry.wf(),
        all_names(registry.set_pass(sets, pool).pool),
        registry.set_pass(sets, pool).registry.next_user >= registry.next_user,
        match last_full(sets, id) {
            Some(delta) => {
                &&& registry.set_pass(sets, pool).registry.has(id)
                &&& exists|name: u32|
                    name != 0 && registry.set_pass(sets, pool).registry.texture(id) == created(
                        delta,
                        name,
                    )
            },
            None => {
                &&& registry.set_pass(sets, pool).registry.has(id) == registry.has(id)
                &&& registry.has(id) ==> registry.set_pass(sets, pool).registry.texture(id)
                    == registry.texture(id)
            },
        },
    decreases sets.len(),
{
    if sets.len() > 0 {
        let front = sets.drop_last();
        assert forall|i: int| 0 <= i < front.len() implies #[trigger] registry.accepts_at(
            front,
            pool,
            i,
        ) by {
            assert(front.take(i) =~= sets.take(i));
            assert(registry.accepts_at(sets, pool, i));
        }
        lemma_set_pass(registry, front, pool, id);
        let before = registry.set_pass(front, pool);
        let set = sets.last().0;
        let delta = sets.last().1;
        assert(registry.accepts_at(sets, pool, sets.len() - 1));
        if delta.pos is None {
            let name = before.pool.last();
            lemma_installed(before.registry, set, created(delta, name));
        }
    }
}

/// The upload pass keeps every entry in its place, under its identifier and
/// with its options, its size and the GL object it has.
pub proof fn lemma_upload_pass_keeps(registry: RegistryView, pool: Seq<u32>, upto: nat)
    requires
        upto <= registry.slots.len(),
    ensures
        registry.upload_pass(pool, upto).registry.slots.len() == registry.slots.len(),
        registry.upload_pass(pool, upto).registry.next_user == registry.next_user,
        forall|i: int|
            0 <= i < registry.slots.len() ==> {
                &&& (#[trigger] registry.upload_pass(pool, upto).registry.slots[i]).id
                    == registry.slots[i].id
                &&& registry.upload_pass(pool, upto).registry.slots[i].texture.options
                    == registry.slots[i].texture.options
                &&& registry.upload_pass(pool, upto).registry.slots[i].texture.size
                    == registry.slots[i].texture.size
                &&& registry.slots[i].texture.name != 0 ==> registry.upload_pass(
                    pool,
                    upto,
                ).registry.slots[i].texture.name == registry.slots[i].texture.name
            },
    decreases upto,
{
    if upto > 0 {
        lemma_upload_pass_keeps(registry, pool, (upto - 1) as nat);
    }
}

/// Releasing textures keeps the invariant of the registry, takes out the
/// textures that are released and leaves the others as they are.
pub proof fn lemma_free_pass(registry: RegistryView, ids: Seq<TextureId>, id: TextureId)
    requires
        registry.wf(),
    ensures
        registry.free_pass(ids).registry.wf(),
        registry.free_pass(ids).registry.next_user == registry.next_user,
        registry.free_pass(ids).registry.has(id) == (registry.has(id) && !ids.contains(id)),
        registry.free_pass(ids).registry.has(id) ==> registry.free_pass(ids).registry.texture(id)
            == registry.texture(id),
    decreases ids.len(),
{
    if ids.len() > 0 {
        let front = ids.drop_last();
        lemma_free_pass(registry, front, id);
        lemma_removed(registry.free_pass(front).registry, ids.last());
        assert(ids.contains(id) == (front.contains(id) || ids.last() == id)) by {
            if ids.contains(id) {
                let k = choose|k: int| 0 <= k < ids.len() && ids[k] == id;
                if k < ids.len() - 1 {
                    assert(front[k] == id);
                }
            }
        }
    }
}

/// With a name in the pool for every texture without a GL object, the
/// upload pass keeps the invariant of the registry and gives every entry
/// that it has visited a GL object.
pub proof fn lemma_upload_pass_wf(registry: RegistryView, pool: Seq<u32>, upto: nat)
    requires
        registry.wf(),
        all_names(pool),
        pool.len() >= registry.unrealised(),
        upto <= registry.slots.len(),
    ensures
        registry.upload_pass(pool, upto).registry.wf(),
        all_names(registry.upload_pass(pool, upto).pool),
        registry.upload_pass(pool, upto).pool.len() >= registry.upload_pass(
            pool,
            upto,
        ).registry.unrealised(),
        registry.upload_pass(pool, upto).registry.slots.len() == registry.slots.len(),
        forall|i: int|
            0 <= i < upto ==> (#[trigger] registry.upload_pass(
                pool,
                upto,
            ).registry.slots[i]).texture.name != 0,
        forall|i: int|
            upto <= i < registry.slots.len() ==> #[trigger] registry.upload_pass(
                pool,
                upto,
            ).registry.slots[i] == registry.slots[i],
    decreases upto,
{
    if upto > 0 {
        lemma_upload_pass_wf(registry, pool, (upto - 1) as nat);
        let before = registry.upload_pass(pool, (upto - 1) as nat);
        let at = upto - 1;
        let slot = registry.slots[at];
        let fresh = before.pool.last();
        if slot.texture.name == 0 {
            lemma_unrealised_update(
                before.registry.slots,
                at,
                Slot { id: slot.id, texture: TextureView { name: 1, ..slot.texture } },
            );
        }
        let after = Slot { id: slot.id, texture: uploaded(slot.texture, fresh) };
        lemma_unrealised_update(before.registry.slots, at, after);
    }
}

/// What a stream configures, it configures with more commands before and
/// after.
pub proof fn lemma_configures_within(
    before: Seq<GlCommandView>,
    stream: Seq<GlCommandView>,
    after: Seq<GlCommandView>,
    name: u32,
    options: TextureOptions,
)
    requires
        configures(stream, name, options),
    ensures
        configures(before + stream + after, name, options),
{
    let at = choose|at: int| configures_at(stream, at, name, options);
    let whole = before + stream + after;
    assert(whole.subrange(before.len() + at, before.len() + at + 5) =~= stream.subrange(
        at,
        at + 5,
    ));
    assert(configures_at(whole, before.len() + at, name, options));
}

/// Where the frame has a full image for an identifier, the commands that set
/// the images configure the texture that the registry then holds under the
/// identifier, with the options of the last such image.
pub proof fn lemma_set_pass_configures(
    registry: RegistryView,
    sets: Seq<(TextureId, ImageDeltaView)>,
    pool: Seq<u32>,
    id: TextureId,
)
    requires
        registry.wf(),
        all_names(pool),
        registry.accepts_all(sets, pool),
        last_full(sets, id) is Some,
    ensures
        configures(
            registry.set_pass(sets, pool).stream,
            registry.set_pass(sets, pool).registry.texture(id).name,
            last_full(sets, id).unwrap().options,
        ),
    decreases sets.len(),
{
    let front = sets.drop_last();
    let set = sets.last().0;
    let delta = sets.last().1;
    assert forall|i: int| 0 <= i < front.len() implies #[trigger] registry.accepts_at(
        front,
        pool,
        i,
    ) by {
        assert(front.take(i) =~= sets.take(i));
        assert(registry.accepts_at(sets, pool, i));
    }
    assert(sets.take(sets.len() - 1) =~= front);
    assert(registry.accepts_at(sets, pool, sets.len() - 1));
    lemma_set_pass(registry, front, pool, id);
    let before = registry.set_pass(front, pool);
    let step = before.registry.after_set(set, delta, before.pool);
    if delta.pos is None {
        lemma_installed(before.registry, set, created(delta, before.pool.last()));
    }
    if set == id && delta.pos is None {
        let name = before.pool.last();
        assert(step.stream.subrange(0, 5) =~= realise_stream(name, delta.options));
        assert(configures_at(step.stream, 0, name, delta.options));
        lemma_configures_within(before.stream, step.stream, Seq::empty(), name, delta.options);
        assert(before.stream + step.stream + Seq::<GlCommandView>::empty() =~= before.stream
            + step.stream);
    } else {
        lemma_set_pass_configures(registry, front, pool, id);
        let name = before.registry.texture(id).name;
        lemma_configures_within(
            Seq::empty(),
            before.stream,
            step.stream,
            name,
            last_full(sets, id).unwrap().options,
        );
        assert(Seq::<GlCommandView>::empty() + before.stream + step.stream =~= before.stream
            + step.stream);
    }
}

/// The upload pass configures every texture that it gives a GL object,
/// with the options of the texture.
pub proof fn lemma_upload_pass_configures(
    registry: RegistryView,
    pool: Seq<u32>,
    upto: nat,
    at: int,
)
    requires
        0 <= at < upto <= registry.slots.len(),
        registry.slots[at].texture.name == 0,
    ensures
        configures(
            registry.upload_pass(pool, upto).stream,
            registry.upload_pass(pool, upto).registry.slots[at].texture.name,
            registry.slots[at].texture.options,
        ),
    decreases upto,
{
    let before = registry.upload_pass(pool, (upto - 1) as nat);
    let slot = registry.slots[upto - 1];
    let fresh = before.pool.last();
    let step = pending_stream(slot.texture, fresh);
    lemma_upload_pass_keeps(registry, pool, (upto - 1) as nat);
    if at == upto - 1 {
        assert(step.subrange(0, 5) =~= realise_stream(fresh, slot.texture.options));
        assert(configures_at(step, 0, fresh, slot.texture.options));
        lemma_configures_within(before.stream, step, Seq::empty(), fresh, slot.texture.options);
        assert(before.stream + step + Seq::<GlCommandView>::empty() =~= before.stream + step);
    } else {
        lemma_upload_pass_configures(registry, pool, (upto - 1) as nat, at);
        lemma_configures_within(
            Seq::empty(),
            before.stream,
            step,
            before.registry.slots[at].texture.name,
            registry.slots[at].texture.options,
        );
        assert(Seq::<GlCommandView>::empty() + before.stream + step =~= before.stream + step);
    }
}

} // verus!
