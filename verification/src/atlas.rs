//! The font-atlas upload decision: create a host texture on the first
//! upload, overwrite the existing texture's pixels in place afterwards.
//!
//! The texture id cached by the adapter (with a sentinel for "unset") is
//! the single source of truth for "already created", which makes the
//! upload callable any number of times without creating a second texture.
use vstd::prelude::*;

verus! {

/// The sentinel texture id meaning "no texture created yet".
pub const TEXTURE_UNSET: u32 = 0;

/// What the host must do to bring the glyph-atlas texture up to date with
/// a freshly built RGBA8 bitmap of the given size.
#[derive(Clone, Copy, Debug, PartialEq, Eq, Structural)]
pub enum AtlasUpload {
    /// No texture exists: create one from the bitmap and report its id
    /// back to the adapter.
    Create { width: u32, height: u32 },
    /// The texture exists: overwrite its pixel contents in place.
    Update { id: u32, width: u32, height: u32 },
}

/// An in-place update of texture `id`.
pub open spec fn atlas_update(id: u32, width: u32, height: u32) -> AtlasUpload {
    AtlasUpload::Update { id, width, height }
}

/// A texture creation.
pub open spec fn atlas_create(width: u32, height: u32) -> AtlasUpload {
    AtlasUpload::Create { width, height }
}

/// The upload a cached texture id calls for.
pub open spec fn upload_plan(tex_id: u32, width: u32, height: u32) -> AtlasUpload {
    if tex_id == TEXTURE_UNSET {
        atlas_create(width, height)
    } else {
        atlas_update(tex_id, width, height)
    }
}

/// Decides between creating the atlas texture and updating it in place.
pub fn plan_font_upload(tex_id: u32, width: u32, height: u32) -> (u: AtlasUpload)
    ensures
        u == upload_plan(tex_id, width, height),
{
    if tex_id == TEXTURE_UNSET {
        AtlasUpload::Create { width, height }
    } else {
        AtlasUpload::Update { id: tex_id, width, height }
    }
}

/// Once the texture exists, uploading again is idempotent: every further
/// upload with unchanged glyph content updates the same texture id in
/// place and never creates a second texture.
pub proof fn lemma_font_upload_idempotent(tex_id: u32, width: u32, height: u32)
    requires
        tex_id != TEXTURE_UNSET,
    ensures
        upload_plan(tex_id, width, height) == atlas_update(tex_id, width, height),
        !(upload_plan(tex_id, width, height) is Create),
{
}

} // verus!
