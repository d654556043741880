//! The texture registry: which texture handles a draw command may name, and
//! the GPU objects that stand behind each.

use vstd::prelude::*;

verus! {

/// The three GPU objects behind one texture: the image, the view through
/// which it is sampled, and the sampler. Each number is the name under which
/// the graphics layer keeps the object.
#[derive(Clone, Copy, Debug, PartialEq, Eq)]
pub struct TextureObjects {
    pub image: u32,
    pub view: u32,
    pub sampler: u32,
}

/// `imgui::Textures`, the GUI engine's map from texture handles to whatever a
/// renderer keeps for a texture. Nothing inside it is visible here: what it
/// holds is spoken of through [`entries`] and [`next_handle`].
#[verifier::external_type_specification]
#[verifier::external_body]
#[verifier::reject_recursive_types(T)]
pub struct ExTextures<T>(imgui::Textures<T>);

/// The entries of a registry, by handle.
pub uninterp spec fn entries(registry: imgui::Textures<TextureObjects>) -> Map<usize, TextureObjects>;

/// The handle that the next insertion into a registry will return.
pub uninterp spec fn next_handle(registry: imgui::Textures<TextureObjects>) -> usize;

/// `imgui::Textures::new`: a registry without entries, whose first handle
/// will be zero.
#[verifier::external_body]
pub(crate) fn registry_new() -> (registry: imgui::Textures<TextureObjects>)
    ensures
        entries(registry) == (Map::<usize, TextureObjects>::empty()),
        next_handle(registry) == 0,
{
    imgui::Textures::new()
}

/// `imgui::Textures::insert`: stores the entry under the registry's next
/// handle, returns that handle, and moves the next handle on by one. All
/// other entries stay as they were. The call overflows where the next handle
/// is the largest `usize`, so that state is excluded.
#[verifier::external_body]
pub(crate) fn registry_insert(registry: &mut imgui::Textures<TextureObjects>, objects: TextureObjects) -> (handle: usize)
    requires
        next_handle(*old(registry)) < usize::MAX,
    ensures
        handle == next_handle(*old(registry)),
        entries(*final(registry)) == entries(*old(registry)).insert(handle, objects),
        next_handle(*final(registry)) == handle + 1,
{
    registry.insert(objects).id()
}

/// `imgui::Textures::get`: the entry stored under `handle`, if there is one.
#[verifier::external_body]
pub(crate) fn registry_get(registry: &imgui::Textures<TextureObjects>, handle: usize) -> (found: Option<TextureObjects>)
    ensures
        found == (if entries(*registry).contains_key(handle) {
            Some(entries(*registry)[handle])
        } else {
            None
        }),
{
    registry.get(imgui::TextureId::new(handle)).copied()
}

} // verus!
