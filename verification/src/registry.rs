//! The texture registry: which textures exist, under which identifiers, and
//! in which order they were added.
//!
//! Entries are kept in the order of their insertion, so that every walk over
//! the registry, and with it the GL command stream of a frame, is a function
//! of the registry's contents.

use vstd::prelude::*;
use crate::delta::ImageDelta;
use crate::gl::{extend, stream, GlCommand, GlCommandView};
use crate::passes::{all_names, uploaded};
use crate::texture::{
    flatten_pixels, free_stream, image_bytes, GuiTexture, TextureFilter, TextureId, TextureOptions,
    TextureView, TextureWrapMode,
};

verus! {

/// One registry entry as the contracts see it.
pub struct Slot {
    pub id: TextureId,
    pub texture: TextureView,
}

/// What a [`TextureRegistry`] holds: its entries in insertion order and the
/// least index that the next user identifier may take.
pub struct RegistryView {
    pub slots: Seq<Slot>,
    pub next_user: u64,
}

/// The pending pixels of a registered texture fill its size exactly, or are
/// gone after an upload to an existing GL object.
pub open spec fn pending_fits(texture: TextureView) -> bool {
    texture.pixels.len() == image_bytes(texture.size.0, texture.size.1) || (texture.pixels.len()
        == 0 && texture.name != 0)
}

/// The counter after `id` has entered the registry: above every user index
/// seen, until it saturates.
pub open spec fn bumped(next_user: u64, id: TextureId) -> u64 {
    match id {
        TextureId::Managed(_) => next_user,
        TextureId::User(index) => if index < next_user {
            next_user
        } else if index < u64::MAX {
            (index + 1) as u64
        } else {
            u64::MAX
        },
    }
}

impl RegistryView {
    /// Whether an entry with this identifier exists.
    pub open spec fn has(self, id: TextureId) -> bool {
        exists|i: int| 0 <= i < self.slots.len() && (#[trigger] self.slots[i]).id == id
    }

    /// The index of the entry with this identifier.
    pub open spec fn position(self, id: TextureId) -> int
        recommends
            self.has(id),
    {
        choose|i: int| 0 <= i < self.slots.len() && (#[trigger] self.slots[i]).id == id
    }

    /// The texture registered under this identifier.
    pub open spec fn texture(self, id: TextureId) -> TextureView
        recommends
            self.has(id),
    {
        self.slots[self.position(id)].texture
    }

    /// No identifier names two entries.
    pub open spec fn distinct(self) -> bool {
        forall|i: int, j: int|
            0 <= i < j < self.slots.len() ==> (#[trigger] self.slots[i]).id != (
            #[trigger] self.slots[j]).id
    }

    /// Until the counter saturates, every user index in the registry is below
    /// it.
    pub open spec fn counter_above(self) -> bool {
        self.next_user < u64::MAX ==> forall|i: int|
            0 <= i < self.slots.len() ==> match (#[trigger] self.slots[i]).id {
                TextureId::User(index) => index < self.next_user,
                TextureId::Managed(_) => true,
            }
    }

    /// The invariant of a registry.
    pub open spec fn wf(self) -> bool {
        &&& self.distinct()
        &&& self.counter_above()
        &&& forall|i: int| 0 <= i < self.slots.len() ==> pending_fits((#[trigger] self.slots[i]).texture)
    }

    /// The index that the next user identifier takes: the counter, or the
    /// number of entries where that is greater.
    pub open spec fn fresh_index(self) -> int {
        if self.next_user >= self.slots.len() {
            self.next_user as int
        } else {
            self.slots.len() as int
        }
    }

    /// The registry with `texture` under `id`: in the place of the entry that
    /// had this identifier, or at the end.
    pub open spec fn installed(self, id: TextureId, texture: TextureView) -> RegistryView {
        RegistryView {
            slots: if self.has(id) {
                self.slots.update(self.position(id), Slot { id, texture })
            } else {
                self.slots.push(Slot { id, texture })
            },
            next_user: bumped(self.next_user, id),
        }
    }

    /// The registry without the entry under `id`.
    pub open spec fn removed(self, id: TextureId) -> RegistryView {
        RegistryView {
            slots: if self.has(id) {
                self.slots.remove(self.position(id))
            } else {
                self.slots
            },
            next_user: self.next_user,
        }
    }

    /// The commands that release what is registered under `id`.
    pub open spec fn release_stream(self, id: TextureId) -> Seq<GlCommandView> {
        if self.has(id) {
            free_stream(self.texture(id).name)
        } else {
            Seq::empty()
        }
    }

    /// The number of entries without a GL object.
    pub open spec fn unrealised(self) -> nat {
        unrealised_among(self.slots)
    }

    /// Every entry has a GL object.
    pub open spec fn all_realised(self) -> bool {
        forall|i: int| 0 <= i < self.slots.len() ==> (#[trigger] self.slots[i]).texture.name != 0
    }
}

/// The number of slots without a GL object.
pub open spec fn unrealised_among(slots: Seq<Slot>) -> nat
    decreases slots.len(),
{
    if slots.len() == 0 {
        0
    } else {
        unrealised_among(slots.drop_last()) + if slots.last().texture.name == 0 {
            1nat
        } else {
            0nat
        }
    }
}

/// In a registry without duplicates an identifier is found where it stands.
pub proof fn lemma_position(registry: RegistryView, id: TextureId, i: int)
    requires
        registry.distinct(),
        0 <= i < registry.slots.len(),
        registry.slots[i].id == id,
    ensures
        registry.has(id),
        registry.position(id) == i,
{
}

/// Installing keeps the invariant, and changes membership by `id` alone.
pub proof fn lemma_installed(registry: RegistryView, id: TextureId, texture: TextureView)
    requires
        registry.wf(),
        pending_fits(texture),
    ensures
        registry.installed(id, texture).wf(),
        registry.installed(id, texture).has(id),
        registry.installed(id, texture).texture(id) == texture,
        forall|other: TextureId|
            other != id ==> (#[trigger] registry.installed(id, texture).has(other)
                == registry.has(other)),
        forall|other: TextureId|
            other != id && registry.has(other) ==> #[trigger] registry.installed(
                id,
                texture,
            ).texture(other) == registry.texture(other),
        registry.installed(id, texture).next_user >= registry.next_user,
{
    let after = registry.installed(id, texture);
    if registry.has(id) {
        let p = registry.position(id);
        lemma_position(after, id, p);
        assert forall|other: TextureId| other != id implies (#[trigger] after.has(other)
            == registry.has(other)) by {
            if registry.has(other) {
                let q = registry.position(other);
                assert(after.slots[q].id == other);
            }
        }
        assert forall|other: TextureId| other != id && registry.has(other) implies (
        #[trigger] after.texture(other)) == registry.texture(other) by {
            let q = registry.position(other);
            lemma_position(after, other, q);
        }
    } else {
        let n = registry.slots.len() as int;
        lemma_position(after, id, n);
        assert forall|other: TextureId| other != id implies (#[trigger] after.has(other)
            == registry.has(other)) by {
            if registry.has(other) {
                let q = registry.position(other);
                assert(after.slots[q].id == other);
            }
        }
        assert forall|other: TextureId| other != id && registry.has(other) implies (
        #[trigger] after.texture(other)) == registry.texture(other) by {
            let q = registry.position(other);
            lemma_position(after, other, q);
        }
    }
}

/// Removing keeps the invariant, takes `id` out and leaves the rest.
pub proof fn lemma_removed(registry: RegistryView, id: TextureId)
    requires
        registry.wf(),
    ensures
        registry.removed(id).wf(),
        !registry.removed(id).has(id),
        forall|other: TextureId|
            other != id ==> (#[trigger] registry.removed(id).has(other) == registry.has(other)),
        forall|other: TextureId|
            other != id && registry.has(other) ==> #[trigger] registry.removed(id).texture(other)
                == registry.texture(other),
        registry.all_realised() ==> registry.removed(id).all_realised(),
{
    let after = registry.removed(id);
    if registry.has(id) {
        let p = registry.position(id);
        assert forall|other: TextureId| other != id implies (#[trigger] after.has(other)
            == registry.has(other)) by {
            if registry.has(other) {
                let q = registry.position(other);
                let a = if q < p {
                    q
                } else {
                    q - 1
                };
                assert(after.slots[a].id == other);
            }
        }
        assert forall|other: TextureId| other != id && registry.has(other) implies (
        #[trigger] after.texture(other)) == registry.texture(other) by {
            let q = registry.position(other);
            let a = if q < p {
                q
            } else {
                q - 1
            };
            lemma_position(after, other, a);
        }
    }
}

/// Replacing one slot changes the number of entries without a GL object by
/// what the two slots differ in.
pub proof fn lemma_unrealised_update(slots: Seq<Slot>, i: int, slot: Slot)
    requires
        0 <= i < slots.len(),
    ensures
        unrealised_among(slots.update(i, slot)) + (if slots[i].texture.name == 0 {
            1nat
        } else {
            0nat
        }) == unrealised_among(slots) + (if slot.texture.name == 0 {
            1nat
        } else {
            0nat
        }),
    decreases slots.len(),
{
    let after = slots.update(i, slot);
    if i == slots.len() - 1 {
        assert(after.drop_last() =~= slots.drop_last());
    } else {
        assert(after.drop_last() =~= slots.drop_last().update(i, slot));
        lemma_unrealised_update(slots.drop_last(), i, slot);
    }
}

/// Two registries with the same identifiers in the same places know the same
/// identifiers, each in the same place.
pub proof fn lemma_same_places(first: RegistryView, second: RegistryView, id: TextureId)
    requires
        first.distinct(),
        first.slots.len() == second.slots.len(),
        forall|i: int| 0 <= i < first.slots.len() ==> (#[trigger] first.slots[i]).id == second.slots[i].id,
    ensures
        second.distinct(),
        first.has(id) == second.has(id),
        first.has(id) ==> first.position(id) == second.position(id),
{
    assert forall|i: int, j: int| 0 <= i < j < second.slots.len() implies (
    #[trigger] second.slots[i]).id != (#[trigger] second.slots[j]).id by {
        assert(first.slots[i].id != first.slots[j].id);
    }
    if second.has(id) {
        let p = second.position(id);
        assert(first.slots[p].id == id);
    }
}

/// One entry of the registry.
#[derive(Debug)]
struct TextureEntry {
    id: TextureId,
    texture: GuiTexture,
}

/// The textures of a renderer, keyed by identifier. The registry owns every
/// texture in it.
#[derive(Debug)]
pub struct TextureRegistry {
    entries: Vec<TextureEntry>,
    next_user: u64,
}

impl View for TextureRegistry {
    type V = RegistryView;

    closed spec fn view(&self) -> RegistryView {
        RegistryView {
            slots: Seq::new(
                self.entries@.len(),
                |i: int| Slot { id: self.entries@[i].id, texture: self.entries@[i].texture@ },
            ),
            next_user: self.next_user,
        }
    }
}

impl TextureRegistry {
    /// An empty registry.
    pub fn new() -> (registry: TextureRegistry)
        ensures
            registry@.slots.len() == 0,
            registry@.next_user == 0,
            registry@.wf(),
    {
        TextureRegistry { entries: Vec::new(), next_user: 0 }
    }

    /// The number of entries.
    pub fn len(&self) -> (len: usize)
        ensures
            len == self@.slots.len(),
    {
        self.entries.len()
    }

    /// The index of the entry under `id`, if there is one.
    pub fn find(&self, id: TextureId) -> (found: Option<usize>)
        ensures
            match found {
                Some(i) => i < self@.slots.len() && self@.slots[i as int].id == id,
                None => !self@.has(id),
            },
    {
        let mut i: usize = 0;
        while i < self.entries.len()
            invariant
                i <= self.entries@.len(),
                forall|j: int| 0 <= j < i ==> (#[trigger] self@.slots[j]).id != id,
            decreases self.entries@.len() - i,
        {
            if self.entries[i].id == id {
                return Some(i);
            }
            i += 1;
        }
        None
    }

    /// Whether an entry under `id` exists.
    pub fn contains(&self, id: TextureId) -> (present: bool)
        ensures
            present == self@.has(id),
    {
        self.find(id).is_some()
    }

    /// The texture under `id`, if there is one.
    pub fn get(&self, id: TextureId) -> (texture: Option<&GuiTexture>)
        requires
            self@.wf(),
        ensures
            texture.is_some() == self@.has(id),
            texture matches Some(t) ==> t@ == self@.texture(id),
    {
        match self.find(id) {
            Some(i) => {
                Some(&self.entries[i].texture)
            },
            None => None,
        }
    }

    /// The identifier and the texture of the entry at `index`, in insertion
    /// order.
    pub fn entry(&self, index: usize) -> (entry: (TextureId, &GuiTexture))
        requires
            index < self@.slots.len(),
        ensures
            entry.0 == self@.slots[index as int].id,
            entry.1@ == self@.slots[index as int].texture,
    {
        (self.entries[index].id, &self.entries[index].texture)
    }

    /// Whether a user identifier is left to allocate.
    pub fn can_allocate(&self) -> (possible: bool)
        ensures
            possible == (self@.fresh_index() < u64::MAX),
    {
        self.next_user < u64::MAX && (self.entries.len() as u64) < u64::MAX
    }

    /// Adds `texture` under a user identifier that no entry has and that was
    /// never handed out before.
    fn allocate(&mut self, texture: GuiTexture) -> (id: TextureId)
        requires
            old(self)@.wf(),
            old(self)@.fresh_index() < u64::MAX,
            pending_fits(texture@),
        ensures
            id == TextureId::User(old(self)@.fresh_index() as u64),
            !old(self)@.has(id),
            final(self)@ == old(self)@.installed(id, texture@),
            final(self)@.slots == old(self)@.slots.push(Slot { id, texture: texture@ }),
            final(self)@.next_user == old(self)@.fresh_index() + 1,
            final(self)@.wf(),
    {
        let count = self.entries.len() as u64;
        let index = if self.next_user >= count {
            self.next_user
        } else {
            count
        };
        let id = TextureId::User(index);
        self.entries.push(TextureEntry { id, texture });
        self.next_user = index + 1;
        assert(self@.slots =~= old(self)@.slots.push(Slot { id, texture: texture@ }));
        id
    }

    /// Adds a texture of `size` texels that waits for its first upload: no GL
    /// object yet, `pixels` pending, dirty.
    pub fn allocate_user(
        &mut self,
        size: (usize, usize),
        options: TextureOptions,
        pixels: Vec<u8>,
    ) -> (id: TextureId)
        requires
            old(self)@.wf(),
            old(self)@.fresh_index() < u64::MAX,
            pixels@.len() == image_bytes(size.0 as nat, size.1 as nat),
        ensures
            id == TextureId::User(old(self)@.fresh_index() as u64),
            !old(self)@.has(id),
            final(self)@.slots == old(self)@.slots.push(
                Slot {
                    id,
                    texture: TextureView {
                        name: 0,
                        options,
                        size: (size.0 as nat, size.1 as nat),
                        pixels: pixels@,
                        dirty: true,
                    },
                },
            ),
            final(self)@.next_user == old(self)@.fresh_index() + 1,
            final(self)@.wf(),
    {
        let texture = GuiTexture::new(0, options, [size.0, size.1], pixels, true);
        self.allocate(texture)
    }

    /// Adopts a GL texture that was created elsewhere: size 0, nothing
    /// pending. The registry deletes it when the entry is freed.
    pub fn allocate_raw(&mut self, external_name: u32) -> (id: TextureId)
        requires
            old(self)@.wf(),
            old(self)@.fresh_index() < u64::MAX,
        ensures
            id == TextureId::User(old(self)@.fresh_index() as u64),
            !old(self)@.has(id),
            final(self)@.slots == old(self)@.slots.push(
                Slot {
                    id,
                    texture: TextureView {
                        name: external_name,
                        options: TextureOptions {
                            magnification: TextureFilter::Linear,
                            minification: TextureFilter::Linear,
                            wrap_mode: TextureWrapMode::ClampToEdge,
                        },
                        size: (0, 0),
                        pixels: Seq::empty(),
                        dirty: false,
                    },
                },
            ),
            final(self)@.next_user == old(self)@.fresh_index() + 1,
            final(self)@.wf(),
    {
        let texture = GuiTexture::from_raw(external_name);
        self.allocate(texture)
    }

    /// Replaces the pending pixels of the texture under `id` and marks it
    /// dirty.
    pub fn update_user(&mut self, id: TextureId, pixels: Vec<u8>)
        requires
            old(self)@.wf(),
            old(self)@.has(id),
            pixels@.len() == image_bytes(
                old(self)@.texture(id).size.0,
                old(self)@.texture(id).size.1,
            ),
        ensures
            final(self)@ == (RegistryView {
                slots: old(self)@.slots.update(
                    old(self)@.position(id),
                    Slot {
                        id,
                        texture: TextureView { pixels: pixels@, dirty: true, ..old(self)@.texture(id) },
                    },
                ),
                ..old(self)@
            }),
            final(self)@.wf(),
    {
        let found = self.find(id);
        match found {
            Some(i) => {
                let ghost updated = TextureView {
                    pixels: pixels@,
                    dirty: true,
                    ..old(self)@.texture(id)
                };
                self.entries[i].texture.set_pixels(pixels);
                self.entries[i].texture.set_dirty(true);
                proof {
                    assert(self@.slots =~= old(self)@.slots.update(
                        i as int,
                        Slot { id, texture: updated },
                    ));
                }
            },
            None => {},
        }
    }

    /// Puts `texture` under `id` and hands back the texture that was there.
    pub fn install(&mut self, id: TextureId, texture: GuiTexture) -> (previous: Option<GuiTexture>)
        requires
            old(self)@.wf(),
            pending_fits(texture@),
        ensures
            final(self)@ == old(self)@.installed(id, texture@),
            final(self)@.wf(),
            previous.is_some() == old(self)@.has(id),
            previous matches Some(t) ==> t@ == old(self)@.texture(id),
    {
        let ghost installed = texture@;
        let next_user = match id {
            TextureId::Managed(_) => self.next_user,
            TextureId::User(index) => if index < self.next_user {
                self.next_user
            } else if index < u64::MAX {
                index + 1
            } else {
                u64::MAX
            },
        };
        let found = self.find(id);
        match found {
            Some(i) => {
                let mut texture = texture;
                std::mem::swap(&mut self.entries[i].texture, &mut texture);
                self.next_user = next_user;
                assert(self@.slots =~= old(self)@.installed(id, installed).slots);
                Some(texture)
            },
            None => {
                self.entries.push(TextureEntry { id, texture });
                self.next_user = next_user;
                assert(self@.slots =~= old(self)@.installed(id, installed).slots);
                None
            },
        }
    }

    /// Removes the entry under `id` and releases its GL object. An unknown
    /// identifier changes nothing.
    pub fn free(&mut self, id: TextureId) -> (commands: Vec<GlCommand>)
        requires
            old(self)@.wf(),
        ensures
            final(self)@ == old(self)@.removed(id),
            final(self)@.wf(),
            stream(commands@) == old(self)@.release_stream(id),
    {
        let found = self.find(id);
        match found {
            Some(i) => {
                let entry = self.entries.remove(i);
                assert(self@.slots =~= old(self)@.removed(id).slots);
                entry.texture.free()
            },
            None => Vec::new(),
        }
    }

    /// Whether the image `delta` can be set under `id`, with `pool` as the
    /// fresh GL names at hand.
    pub fn accepts(&self, id: TextureId, delta: &ImageDelta, pool: &Vec<u32>) -> (ok: bool)
        requires
            self@.wf(),
        ensures
            ok == self@.accepts(id, delta@, pool@),
    {
        if !texel_count_is(delta.size[0], delta.size[1], delta.pixels.len()) {
            return false;
        }
        match delta.pos {
            Some(pos) => match self.get(id) {
                Some(texture) => {
                    let size = texture.size();
                    texture.texture_id() != 0 && pos[0] <= size[0] && delta.size[0] <= size[0]
                        - pos[0] && pos[1] <= size[1] && delta.size[1] <= size[1] - pos[1]
                },
                None => false,
            },
            None => pool.len() > 0,
        }
    }

    /// Sets the image `delta` under `id`. A region is uploaded into the
    /// existing texture. A full image becomes a new texture with a fresh GL
    /// name from the pool, configured and uploaded at once; it replaces what
    /// was under `id`, which is released.
    pub fn set_from_delta(
        &mut self,
        id: TextureId,
        delta: &ImageDelta,
        pool: &mut Vec<u32>,
    ) -> (commands: Vec<GlCommand>)
        requires
            old(self)@.wf(),
            all_names(old(pool)@),
            old(self)@.accepts(id, delta@, old(pool)@),
        ensures
            final(self)@ == old(self)@.after_set(id, delta@, old(pool)@).registry,
            stream(commands@) == old(self)@.after_set(id, delta@, old(pool)@).stream,
            final(pool)@ == old(self)@.after_set(id, delta@, old(pool)@).pool,
            final(self)@.wf(),
            all_names(final(pool)@),
    {
        let data = flatten_pixels(delta.pixels.as_slice());
        assert(data@.len() == image_bytes(delta@.size.0, delta@.size.1)) by (nonlinear_arith)
            requires
                data@.len() == 4 * delta@.pixels.len(),
                delta@.pixels.len() == delta@.size.0 * delta@.size.1,
        ;
        match delta.pos {
            Some(pos) => {
                match self.get(id) {
                    Some(texture) => texture.upload_sub(
                        pos[0],
                        pos[1],
                        delta.size[0],
                        delta.size[1],
                        data,
                    ),
                    None => Vec::new(),
                }
            },
            None => {
                let name = pool.pop().unwrap();
                let mut texture = GuiTexture::new(0, delta.options, delta.size, Vec::new(), false);
                let mut commands = texture.gen_tex_and_bind(name);
                let upload = texture.upload(data);
                extend(&mut commands, upload);
                let previous = self.install(id, texture);
                match previous {
                    Some(replaced) => {
                        let release = replaced.free();
                        extend(&mut commands, release);
                    },
                    None => {},
                }
                commands
            },
        }
    }

    /// What [`TextureRegistry::set_from_delta`] does to the registry and the
    /// pool, without the commands.
    pub fn apply_set(&mut self, id: TextureId, delta: &ImageDelta, pool: &mut Vec<u32>)
        requires
            old(self)@.wf(),
            all_names(old(pool)@),
            old(self)@.accepts(id, delta@, old(pool)@),
        ensures
            final(self)@ == old(self)@.after_set(id, delta@, old(pool)@).registry,
            final(pool)@ == old(self)@.after_set(id, delta@, old(pool)@).pool,
            final(self)@.wf(),
            all_names(final(pool)@),
    {
        if delta.pos.is_none() {
            let name = pool.pop().unwrap();
            let texture = GuiTexture::new(name, delta.options, delta.size, Vec::new(), false);
            let _ = self.install(id, texture);
        }
    }

    /// The number of entries without a GL object.
    pub fn unrealised_count(&self) -> (count: usize)
        ensures
            count == self@.unrealised(),
    {
        let mut count: usize = 0;
        let mut i: usize = 0;
        while i < self.entries.len()
            invariant
                i <= self.entries@.len(),
                count <= i,
                count == unrealised_among(self@.slots.take(i as int)),
            decreases self.entries@.len() - i,
        {
            assert(self@.slots.take(i + 1).drop_last() =~= self@.slots.take(i as int));
            if self.entries[i].texture.texture_id() == 0 {
                count += 1;
            }
            i += 1;
        }
        assert(self@.slots.take(i as int) =~= self@.slots);
        count
    }

    /// Brings every texture that is dirty or has no GL object up to date, in
    /// insertion order: the GL object is created where there was none, the
    /// pending pixels are uploaded and consumed, and the dirty flag is
    /// cleared. Afterwards every entry has a GL object.
    pub fn upload_pending(&mut self, pool: &mut Vec<u32>) -> (commands: Vec<GlCommand>)
        requires
            old(self)@.wf(),
            all_names(old(pool)@),
            old(pool)@.len() >= old(self)@.unrealised(),
        ensures
            final(self)@ == old(self)@.upload_pass(old(pool)@, old(self)@.slots.len()).registry,
            stream(commands@) == old(self)@.upload_pass(old(pool)@, old(self)@.slots.len()).stream,
            final(pool)@ == old(self)@.upload_pass(old(pool)@, old(self)@.slots.len()).pool,
            final(self)@.wf(),
            final(self)@.all_realised(),
            all_names(final(pool)@),
    {
        let mut commands: Vec<GlCommand> = Vec::new();
        let mut i: usize = 0;
        while i < self.entries.len()
            invariant
                i <= self.entries@.len(),
                self.entries@.len() == old(self)@.slots.len(),
                self@ == old(self)@.upload_pass(old(pool)@, i as nat).registry,
                stream(commands@) == old(self)@.upload_pass(old(pool)@, i as nat).stream,
                pool@ == old(self)@.upload_pass(old(pool)@, i as nat).pool,
                self@.wf(),
                all_names(pool@),
                pool@.len() >= self@.unrealised(),
                forall|j: int| 0 <= j < i ==> (#[trigger] self@.slots[j]).texture.name != 0,
                forall|j: int|
                    i <= j < self.entries@.len() ==> #[trigger] self@.slots[j] == old(self)@.slots[j],
            decreases self.entries@.len() - i,
        {
            let ghost before = self@;
            let ghost slot = self@.slots[i as int];
            let ghost fresh = pool@.last();
            proof {
                if slot.texture.name == 0 {
                    lemma_unrealised_update(
                        before.slots,
                        i as int,
                        Slot { id: slot.id, texture: TextureView { name: 1, ..slot.texture } },
                    );
                }
                lemma_unrealised_update(
                    before.slots,
                    i as int,
                    Slot { id: slot.id, texture: uploaded(slot.texture, fresh) },
                );
            }
            let unrealised = self.entries[i].texture.texture_id() == 0;
            if self.entries[i].texture.dirty() || unrealised {
                if unrealised {
                    let name = pool.pop().unwrap();
                    let realise = self.entries[i].texture.gen_tex_and_bind(name);
                    extend(&mut commands, realise);
                }
                let pixels = self.entries[i].texture.take_pixels();
                if unrealised || pixels.len() != 0 {
                    let upload = self.entries[i].texture.upload(pixels);
                    extend(&mut commands, upload);
                }
                self.entries[i].texture.set_dirty(false);
            }
            proof {
                let after = Slot { id: slot.id, texture: uploaded(slot.texture, fresh) };
                assert(self@.slots =~= before.slots.update(i as int, after));
            }
            i += 1;
        }
        commands
    }

    /// Releases the textures `ids` one after the other. Afterwards none of
    /// them is in the registry.
    pub fn free_all(&mut self, ids: &Vec<TextureId>) -> (commands: Vec<GlCommand>)
        requires
            old(self)@.wf(),
        ensures
            final(self)@ == old(self)@.free_pass(ids@).registry,
            stream(commands@) == old(self)@.free_pass(ids@).stream,
            final(self)@.wf(),
            forall|k: int| 0 <= k < ids@.len() ==> !final(self)@.has(#[trigger] ids@[k]),
            old(self)@.all_realised() ==> final(self)@.all_realised(),
    {
        let mut commands: Vec<GlCommand> = Vec::new();
        let mut i: usize = 0;
        while i < ids.len()
            invariant
                i <= ids@.len(),
                self@ == old(self)@.free_pass(ids@.take(i as int)).registry,
                stream(commands@) == old(self)@.free_pass(ids@.take(i as int)).stream,
                self@.wf(),
                forall|k: int| 0 <= k < i ==> !self@.has(#[trigger] ids@[k]),
                old(self)@.all_realised() ==> self@.all_realised(),
            decreases ids@.len() - i,
        {
            proof {
                assert(ids@.take(i + 1).drop_last() =~= ids@.take(i as int));
            }
            let release = self.free(ids[i]);
            extend(&mut commands, release);
            i += 1;
        }
        assert(ids@.take(i as int) =~= ids@);
        commands
    }

    /// A copy with the same contents.
    pub fn duplicate(&self) -> (copy: TextureRegistry)
        ensures
            copy@ == self@,
    {
        let mut entries: Vec<TextureEntry> = Vec::new();
        let mut i: usize = 0;
        while i < self.entries.len()
            invariant
                i <= self.entries@.len(),
                entries@.len() == i,
                forall|j: int|
                    0 <= j < i ==> (#[trigger] entries@[j]).id == self.entries@[j].id
                        && entries@[j].texture@ == self.entries@[j].texture@,
            decreases self.entries@.len() - i,
        {
            entries.push(
                TextureEntry { id: self.entries[i].id, texture: self.entries[i].texture.duplicate() },
            );
            i += 1;
        }
        let copy = TextureRegistry { entries, next_user: self.next_user };
        assert(copy@.slots =~= self@.slots);
        copy
    }
}

/// Whether `count` texels fill an image of `width` by `height`.
pub fn texel_count_is(width: usize, height: usize, count: usize) -> (matches: bool)
    ensures
        matches == (count == width * height),
{
    assert(width * height <= 0xffff_ffff_ffff_ffff * 0xffff_ffff_ffff_ffff) by (nonlinear_arith)
        requires
            0 <= width <= 0xffff_ffff_ffff_ffff,
            0 <= height <= 0xffff_ffff_ffff_ffff,
    ;
    (width as u128) * (height as u128) == count as u128
}

} // verus!
