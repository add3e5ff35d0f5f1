//! The textures that the overlay's interface may draw with: the GUI library's
//! mapping from texture identifiers to textures, which here are the addresses
//! of shader-resource views.

use vstd::prelude::*;
use crate::types::Handle;

verus! {

/// `imgui::Textures`: the GUI library's mapping from texture identifiers to
/// textures.  What is inside it is known through `texture_map` and
/// `next_texture_id` alone.
#[verifier::external_type_specification]
#[verifier::external_body]
#[verifier::reject_recursive_types(T)]
pub struct ExTextures<T>(imgui::Textures<T>);

/// What a texture mapping holds: the texture of each identifier that is in
/// use.
pub uninterp spec fn texture_map(textures: imgui::Textures<Handle>) -> Map<usize, Handle>;

/// The identifier that a texture mapping gives to the next texture that is
/// inserted.
pub uninterp spec fn next_texture_id(textures: imgui::Textures<Handle>) -> usize;

/// The mapping that holds nothing.
pub open spec fn no_textures() -> Map<usize, Handle> {
    Map::empty()
}

/// `imgui::Textures::new`: a mapping that holds nothing and counts from 0.
#[verifier::external_body]
fn textures_new() -> (textures: imgui::Textures<Handle>)
    ensures
        texture_map(textures) == no_textures(),
        next_texture_id(textures) == 0,
{
    imgui::Textures::new()
}

/// `imgui::Textures::insert`: the texture is held under the next identifier,
/// which is returned and counted up.  Another texture that was put under that
/// identifier by `replace` is dropped.  The count must not be at its end.
#[verifier::external_body]
fn textures_insert(textures: &mut imgui::Textures<Handle>, texture: Handle) -> (id: usize)
    requires
        next_texture_id(*old(textures)) < usize::MAX,
    ensures
        id == next_texture_id(*old(textures)),
        texture_map(*final(textures)) == texture_map(*old(textures)).insert(id, texture),
        next_texture_id(*final(textures)) == id + 1,
{
    textures.insert(texture).id()
}

/// `imgui::Textures::replace`: the texture is held under the identifier `id`,
/// and the one that was held under it before is returned.
#[verifier::external_body]
fn textures_replace(textures: &mut imgui::Textures<Handle>, id: usize, texture: Handle) -> (before:
    Option<Handle>)
    ensures
        before == (if texture_map(*old(textures)).contains_key(id) {
            Some(texture_map(*old(textures))[id])
        } else {
            None
        }),
        texture_map(*final(textures)) == texture_map(*old(textures)).insert(id, texture),
        next_texture_id(*final(textures)) == next_texture_id(*old(textures)),
{
    textures.replace(imgui::TextureId::new(id), texture)
}

/// `imgui::Textures::remove`: nothing is held under the identifier `id` any
/// more, and what was held under it is returned.
#[verifier::external_body]
fn textures_remove(textures: &mut imgui::Textures<Handle>, id: usize) -> (before: Option<
    Handle,
>)
    ensures
        before == (if texture_map(*old(textures)).contains_key(id) {
            Some(texture_map(*old(textures))[id])
        } else {
            None
        }),
        texture_map(*final(textures)) == texture_map(*old(textures)).remove(id),
        next_texture_id(*final(textures)) == next_texture_id(*old(textures)),
{
    textures.remove(imgui::TextureId::new(id))
}

/// `imgui::Textures::get`: the texture that is held under the identifier
/// `id`, if one is.
#[verifier::external_body]
fn textures_get(textures: &imgui::Textures<Handle>, id: usize) -> (texture: Option<Handle>)
    ensures
        texture == (if texture_map(*textures).contains_key(id) {
            Some(texture_map(*textures)[id])
        } else {
            None
        }),
{
    textures.get(imgui::TextureId::new(id)).copied()
}

/// The textures that are registered with the overlay, each under its
/// identifier.  The view of a registry is what it holds; the identifier that
/// it gives out next is no part of the view and is stated by `next_id`.
#[derive(Debug)]
pub struct TextureRegistry {
    textures: imgui::Textures<Handle>,
    next: usize,
}

impl View for TextureRegistry {
    type V = Map<usize, Handle>;

    closed spec fn view(&self) -> Map<usize, Handle> {
        texture_map(self.textures)
    }
}

impl TextureRegistry {
    #[verifier::type_invariant]
    spec fn counted(&self) -> bool {
        self.next == next_texture_id(self.textures)
    }

    /// The identifier that the next texture is registered under.
    pub closed spec fn next_id(&self) -> usize {
        self.next
    }

    /// The texture under the identifier `id`, if one is registered.
    pub open spec fn lookup(&self, id: usize) -> Option<Handle> {
        if self@.contains_key(id) {
            Some(self@[id])
        } else {
            None
        }
    }

    /// A registry that holds nothing.
    pub fn new() -> (registry: Self)
        ensures
            registry@ == no_textures(),
            registry.next_id() == 0,
    {
        Self { textures: textures_new(), next: 0 }
    }

    /// Registers `texture` under the next identifier, which is returned with
    /// the registry.  When the identifiers have run out nothing is registered.
    pub fn insert(self, texture: Handle) -> (out: (Self, Option<usize>))
        ensures
            self.next_id() < usize::MAX ==> {
                &&& out.1 == Some(self.next_id())
                &&& out.0@ == self@.insert(self.next_id(), texture)
                &&& out.0.next_id() == self.next_id() + 1
            },
            self.next_id() == usize::MAX ==> {
                &&& out.1 is None
                &&& out.0@ == self@
                &&& out.0.next_id() == self.next_id()
            },
    {
        proof {
            use_type_invariant(&self);
        }
        let TextureRegistry { mut textures, next } = self;
        if next < usize::MAX {
            let id = textures_insert(&mut textures, texture);
            (TextureRegistry { textures, next: next + 1 }, Some(id))
        } else {
            (TextureRegistry { textures, next }, None)
        }
    }

    /// Registers `texture` under the identifier `id`, in place of the texture
    /// that was registered under it, which is returned with the registry.
    pub fn replace(self, id: usize, texture: Handle) -> (out: (Self, Option<Handle>))
        ensures
            out.1 == self.lookup(id),
            out.0@ == self@.insert(id, texture),
            out.0.next_id() == self.next_id(),
    {
        proof {
            use_type_invariant(&self);
        }
        let TextureRegistry { mut textures, next } = self;
        let before = textures_replace(&mut textures, id, texture);
        (TextureRegistry { textures, next }, before)
    }

    /// Takes the texture under the identifier `id` out of the registry.  It is
    /// returned with the registry.
    pub fn remove(self, id: usize) -> (out: (Self, Option<Handle>))
        ensures
            out.1 == self.lookup(id),
            out.0@ == self@.remove(id),
            out.0.next_id() == self.next_id(),
    {
        proof {
            use_type_invariant(&self);
        }
        let TextureRegistry { mut textures, next } = self;
        let before = textures_remove(&mut textures, id);
        (TextureRegistry { textures, next }, before)
    }

    /// The texture under the identifier `id`, if one is registered.
    pub fn get(&self, id: usize) -> (texture: Option<Handle>)
        ensures
            texture == self.lookup(id),
    {
        textures_get(&self.textures, id)
    }
}

} // verus!
