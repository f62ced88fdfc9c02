use vstd::prelude::*;

use crate::error::RendererError;
use crate::texture::Texture;

verus! {

/// The reserved texture identifier: it never names a registry entry and
/// always resolves to the current font-atlas texture.
pub const FONT_ATLAS_TEXTURE_ID: usize = usize::MAX;

/// `imgui::Textures` is the GUI library's identifier-to-texture mapping: a
/// hash map keyed by `usize` plus a `next` counter that yields fresh
/// identifiers. Declared opaque; its contents are named by [`tex_map`] and
/// [`tex_next`].
#[verifier::external_type_specification]
#[verifier::external_body]
#[verifier::reject_recursive_types(T)]
pub struct ExTextures<T>(imgui::Textures<T>);

/// The GUI library's mapping instantiated with this crate's entry type.
pub type TextureStore = imgui::Textures<Texture>;

/// The key-to-entry mapping held by an `imgui::Textures` value.
pub uninterp spec fn tex_map(ts: TextureStore) -> Map<usize, Texture>;

/// The fresh-identifier counter held by an `imgui::Textures` value.
pub uninterp spec fn tex_next(ts: TextureStore) -> usize;

/// The empty identifier-to-entry mapping.
pub open spec fn empty_tex_map() -> Map<usize, Texture> {
    Map::empty()
}

/// Relies on `imgui::Textures::new`: starts with an empty map and the
/// identifier counter at zero.
#[verifier::external_body]
fn tex_new() -> (ts: TextureStore)
    ensures
        tex_map(ts) == empty_tex_map(),
        tex_next(ts) == 0,
{
    imgui::Textures::new()
}

/// Relies on `imgui::Textures::insert`: stores the entry under the current
/// counter value, returns that value as the new identifier, and increments
/// the counter (which would overflow at `usize::MAX`, hence the requires).
#[verifier::external_body]
fn tex_insert(ts: &mut imgui::Textures<Texture>, texture: Texture) -> (id: usize)
    requires
        tex_next(*old(ts)) < usize::MAX,
    ensures
        id == tex_next(*old(ts)),
        tex_next(*final(ts)) == tex_next(*old(ts)) + 1,
        tex_map(*final(ts)) == tex_map(*old(ts)).insert(id, texture),
{
    ts.insert(texture).id()
}

/// Relies on `imgui::Textures::get`: looks the identifier up in the map.
#[verifier::external_body]
fn tex_get(ts: &imgui::Textures<Texture>, id: usize) -> (r: Option<Texture>)
    ensures
        r == (if tex_map(*ts).dom().contains(id) {
            Some(tex_map(*ts)[id])
        } else {
            Option::<Texture>::None
        }),
{
    ts.get(imgui::TextureId::new(id)).copied()
}

/// Relies on `imgui::Textures::remove`: removes and returns the entry under
/// the identifier; the counter is untouched.
#[verifier::external_body]
fn tex_remove(ts: &mut imgui::Textures<Texture>, id: usize) -> (r: Option<Texture>)
    ensures
        tex_map(*final(ts)) == tex_map(*old(ts)).remove(id),
        tex_next(*final(ts)) == tex_next(*old(ts)),
        r == (if tex_map(*old(ts)).dom().contains(id) {
            Some(tex_map(*old(ts))[id])
        } else {
            Option::<Texture>::None
        }),
{
    ts.remove(imgui::TextureId::new(id))
}

/// The texture registry and draw dispatcher. Owns the font-atlas entry and
/// the mapping from user-registered identifiers to texture entries; the
/// mapping is the only state that outlives a single frame.
pub struct Renderer {
    /// The entry the sentinel identifier resolves to.
    pub font_texture: Texture,
    /// User-registered entries, keyed by the identifiers handed out by
    /// [`Renderer::insert_texture`].
    pub textures: TextureStore,
}

impl Renderer {
    /// Every registered identifier is below the fresh-identifier counter, so
    /// a fresh identifier is never already registered and never equals the
    /// sentinel.
    pub open spec fn wf(self) -> bool {
        forall|k: usize|
            #[trigger] tex_map(self.textures).dom().contains(k) ==> k < tex_next(self.textures)
    }

    /// What resolving `id` returns in a registry with mapping `rm` and
    /// font-atlas entry `font`.
    pub open spec fn resolve_spec(
        rm: Map<usize, Texture>,
        font: Texture,
        id: usize,
    ) -> Result<Texture, RendererError> {
        if id == FONT_ATLAS_TEXTURE_ID {
            Ok(font)
        } else if rm.dom().contains(id) {
            Ok(rm[id])
        } else {
            Err(RendererError::BadTexture(id))
        }
    }

    /// Creates a registry holding the given font-atlas entry and no
    /// user-registered entries.
    pub fn new(font_texture: Texture) -> (r: Renderer)
        ensures
            r.font_texture == font_texture,
            tex_map(r.textures) == empty_tex_map(),
            tex_next(r.textures) == 0,
            r.wf(),
    {
        Renderer { font_texture, textures: tex_new() }
    }

    /// Atomically swaps the entry the sentinel identifier resolves to; used
    /// after the font atlas is rebuilt. User-registered entries are
    /// untouched.
    pub fn reload_font_texture(&mut self, texture: Texture)
        ensures
            final(self).font_texture == texture,
            final(self).textures == old(self).textures,
            old(self).wf() ==> final(self).wf(),
    {
        self.font_texture = texture;
    }

    /// Registers a texture entry and returns a fresh identifier: one that is
    /// not yet registered and is never the sentinel.
    pub fn insert_texture(&mut self, texture: Texture) -> (id: usize)
        requires
            old(self).wf(),
            tex_next(old(self).textures) < usize::MAX,
        ensures
            id == tex_next(old(self).textures),
            id != FONT_ATLAS_TEXTURE_ID,
            !tex_map(old(self).textures).dom().contains(id),
            tex_map(final(self).textures) == tex_map(old(self).textures).insert(id, texture),
            tex_next(final(self).textures) == tex_next(old(self).textures) + 1,
            final(self).font_texture == old(self).font_texture,
            final(self).wf(),
    {
        tex_insert(&mut self.textures, texture)
    }

    /// Releases the mapping entry under `id` and returns it, or `None` if no
    /// entry was registered under `id`. The GPU resource itself is owned by
    /// the embedding layer and is not touched here.
    pub fn remove_texture(&mut self, id: usize) -> (r: Option<Texture>)
        ensures
            tex_map(final(self).textures) == tex_map(old(self).textures).remove(id),
            r == (if tex_map(old(self).textures).dom().contains(id) {
                Some(tex_map(old(self).textures)[id])
            } else {
                Option::<Texture>::None
            }),
            tex_next(final(self).textures) == tex_next(old(self).textures),
            final(self).font_texture == old(self).font_texture,
            old(self).wf() ==> final(self).wf(),
    {
        tex_remove(&mut self.textures, id)
    }

    /// Resolves a texture identifier: the sentinel yields the current
    /// font-atlas entry; any other identifier yields its registered entry, or
    /// `BadTexture` carrying the identifier if none is registered.
    pub fn lookup_texture(&self, id: usize) -> (r: Result<Texture, RendererError>)
        ensures
            r == Self::resolve_spec(tex_map(self.textures), self.font_texture, id),
    {
        if id == FONT_ATLAS_TEXTURE_ID {
            Ok(self.font_texture)
        } else {
            match tex_get(&self.textures, id) {
                Some(texture) => Ok(texture),
                None => Err(RendererError::BadTexture(id)),
            }
        }
    }
}

/// The sentinel identifier resolves to the current font-atlas entry whatever
/// the mapping holds — in particular after the font entry was swapped.
pub proof fn lemma_sentinel_resolves_to_font(rm: Map<usize, Texture>, font: Texture)
    ensures
        Renderer::resolve_spec(rm, font, FONT_ATLAS_TEXTURE_ID) == Ok::<Texture, RendererError>(
            font,
        ),
{
}

/// Resolving a never-registered, non-sentinel identifier fails with
/// `BadTexture` carrying that identifier.
pub proof fn lemma_unregistered_resolves_to_bad_texture(
    rm: Map<usize, Texture>,
    font: Texture,
    id: usize,
)
    requires
        id != FONT_ATLAS_TEXTURE_ID,
        !rm.dom().contains(id),
    ensures
        Renderer::resolve_spec(rm, font, id) == Err::<Texture, RendererError>(
            RendererError::BadTexture(id),
        ),
{
}

/// Round trip: registering an entry makes its identifier resolve to it, and
/// removing the entry leaves a subsequent resolve of the same identifier
/// failing with `BadTexture`.
pub proof fn lemma_register_remove_round_trip(
    rm: Map<usize, Texture>,
    font: Texture,
    id: usize,
    texture: Texture,
)
    requires
        id != FONT_ATLAS_TEXTURE_ID,
    ensures
        Renderer::resolve_spec(rm.insert(id, texture), font, id) == Ok::<Texture, RendererError>(
            texture,
        ),
        Renderer::resolve_spec(rm.insert(id, texture).remove(id), font, id) == Err::<
            Texture,
            RendererError,
        >(RendererError::BadTexture(id)),
{
}

} // verus!
