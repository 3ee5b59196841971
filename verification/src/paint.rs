//! What happens to a frame that the browser has painted into a shared texture.
//!
//! The graphics work stands outside: a [`Paint`] says what is to be done next,
//! and is told what came of it.

use vstd::prelude::*;

use crate::bindings::FrameBindings;
use crate::error::PaintError;
use crate::render_handler::CefRenderHandler;

verus! {

/// What the browser has painted.
#[derive(Clone, Copy, PartialEq, Eq, Structural, Debug)]
pub enum PaintElementType {
    /// The page.
    View,
    /// Anything else, such as a popup above the page.
    Popup,
}

/// What came of importing the shared texture.
#[derive(Debug)]
pub enum TextureImport<T> {
    /// The platform has no textures to share.
    Unsupported,
    /// The import failed; holds the text of the error.
    Failed(String),
    /// The texture.
    Imported(T),
}

/// How far a painted frame has come.
#[derive(Debug)]
pub enum Paint<T, G> {
    /// The shared texture is to be imported.
    Import,
    /// A bind group of the texture is to be created.
    Bind { texture: T, bindings: FrameBindings },
    /// The texture is to be kept, then the bind group.
    KeepTexture { texture: T, bind_group: G },
    /// The bind group is to be kept; tells whether the slot of the texture could
    /// be locked.
    KeepBindGroup { texture_free: bool, bind_group: G },
    /// The frame was handed to the handler; tells which of its slots could be
    /// locked and now hold it.
    Stored { texture_free: bool, bind_group_free: bool },
    /// The frame is none of the handler's business.
    Ignored,
    /// The texture could not be imported.
    Failed(PaintError),
}

impl<T, G> Paint<T, G> {
    /// A painted frame as it arrives: only one of the page, with a shared
    /// texture, is handled.
    pub open spec fn begun(element: PaintElementType, has_info: bool) -> Self {
        if has_info && element == PaintElementType::View {
            Paint::Import
        } else {
            Paint::Ignored
        }
    }

    /// The frame once the texture was imported, or not. One that waits for
    /// something else stays as it is.
    pub open spec fn imported(self, import: TextureImport<T>) -> Self {
        if self is Import {
            match import {
                TextureImport::Unsupported => Paint::Failed(PaintError::Unsupported),
                TextureImport::Failed(cause) => Paint::Failed(PaintError::Import(cause)),
                TextureImport::Imported(texture) => Paint::Bind {
                    texture,
                    bindings: crate::bindings::standard_bindings(),
                },
            }
        } else {
            self
        }
    }

    /// The frame once its bind group was created. One that waits for something
    /// else stays as it is.
    pub open spec fn bound(self, bind_group: G) -> Self {
        match self {
            Paint::Bind { texture, .. } => Paint::KeepTexture { texture, bind_group },
            _ => self,
        }
    }

    /// What a texture slot that can be locked then holds.
    pub open spec fn texture_kept(self, slot: Option<T>) -> Option<T> {
        match self {
            Paint::KeepTexture { texture, .. } => Some(texture),
            _ => slot,
        }
    }

    /// The frame once its texture was kept, where the slot could be locked or
    /// not. One that waits for something else stays as it is.
    pub open spec fn texture_done(self, texture_free: bool) -> Self {
        match self {
            Paint::KeepTexture { bind_group, .. } => Paint::KeepBindGroup {
                texture_free,
                bind_group,
            },
            _ => self,
        }
    }

    /// What a bind group slot that can be locked then holds.
    pub open spec fn bind_group_kept(self, slot: Option<G>) -> Option<G> {
        match self {
            Paint::KeepBindGroup { bind_group, .. } => Some(bind_group),
            _ => slot,
        }
    }

    /// The frame once its bind group was kept, where the slot could be locked or
    /// not. One that waits for something else stays as it is.
    pub open spec fn bind_group_done(self, bind_group_free: bool) -> Self {
        match self {
            Paint::KeepBindGroup { texture_free, .. } => Paint::Stored {
                texture_free,
                bind_group_free,
            },
            _ => self,
        }
    }

    /// What the handler holds once all that was done: a slot that cannot be
    /// locked keeps what it held, whatever becomes of the other.
    pub open spec fn stored_in(
        self,
        handler: CefRenderHandler<T, G>,
        bind_group: G,
        texture_free: bool,
        bind_group_free: bool,
    ) -> CefRenderHandler<T, G> {
        let bound = self.bound(bind_group);
        CefRenderHandler {
            current_texture: if texture_free {
                bound.texture_kept(handler.current_texture)
            } else {
                handler.current_texture
            },
            current_bind_group: if bind_group_free {
                bound.texture_done(texture_free).bind_group_kept(handler.current_bind_group)
            } else {
                handler.current_bind_group
            },
            ..handler
        }
    }

    /// Takes up a painted frame.
    pub fn on_accelerated_paint(element: PaintElementType, has_info: bool) -> (paint: Self)
        ensures
            paint == Self::begun(element, has_info),
    {
        if !has_info {
            return Paint::Ignored;
        }
        if element != PaintElementType::View {
            return Paint::Ignored;
        }
        Paint::Import
    }

    /// Goes on with what came of importing the texture.
    pub fn import_finished(self, import: TextureImport<T>) -> (paint: Self)
        ensures
            paint == self.imported(import),
    {
        match self {
            Paint::Import => match import {
                TextureImport::Unsupported => Paint::Failed(PaintError::Unsupported),
                TextureImport::Failed(cause) => Paint::Failed(PaintError::Import(cause)),
                TextureImport::Imported(texture) => Paint::Bind {
                    texture,
                    bindings: FrameBindings::standard(),
                },
            },
            other => other,
        }
    }

    /// Goes on with the bind group.
    pub fn bind_group_created(self, bind_group: G) -> (paint: Self)
        ensures
            paint == self.bound(bind_group),
    {
        match self {
            Paint::Bind { texture, .. } => Paint::KeepTexture { texture, bind_group },
            other => other,
        }
    }

    /// Puts the texture into its slot of the handler, which is `None` where its
    /// lock is poisoned.
    pub fn keep_texture(self, slot: Option<&mut Option<T>>) -> (paint: Self)
        ensures
            paint == self.texture_done(slot is Some),
            match slot {
                Some(s) => *final(s) == self.texture_kept(*s),
                None => true,
            },
    {
        match self {
            Paint::KeepTexture { texture, bind_group } => {
                let texture_free: bool = slot.is_some();
                if let Some(slot) = slot {
                    *slot = Some(texture);
                }
                Paint::KeepBindGroup { texture_free, bind_group }
            },
            other => other,
        }
    }

    /// Puts the bind group into its slot of the handler, which is `None` where
    /// its lock is poisoned.
    pub fn keep_bind_group(self, slot: Option<&mut Option<G>>) -> (paint: Self)
        ensures
            paint == self.bind_group_done(slot is Some),
            match slot {
                Some(s) => *final(s) == self.bind_group_kept(*s),
                None => true,
            },
    {
        match self {
            Paint::KeepBindGroup { texture_free, bind_group } => {
                let bind_group_free: bool = slot.is_some();
                if let Some(slot) = slot {
                    *slot = Some(bind_group);
                }
                Paint::Stored { texture_free, bind_group_free }
            },
            other => other,
        }
    }
}

/// A painted frame that goes all the way reaches the handler exactly if it is
/// one of the page, comes with a shared texture, and that was imported. Where no
/// slot is poisoned, texture and bind group are then both of this frame, and
/// nothing else has changed. Otherwise the handler holds what it held.
pub proof fn lemma_painted_frame_is_stored<T, G>(
    handler: CefRenderHandler<T, G>,
    element: PaintElementType,
    has_info: bool,
    import: TextureImport<T>,
    bind_group: G,
)
    ensures
        Paint::<T, G>::begun(element, has_info).imported(import).stored_in(
            handler,
            bind_group,
            true,
            true,
        ) == (match import {
            TextureImport::Imported(texture) if has_info && element == PaintElementType::View =>
                handler.painted(texture, bind_group),
            _ => handler,
        }),
        Paint::<T, G>::begun(element, has_info).imported(import).bound(bind_group).texture_done(
            true,
        ).bind_group_done(true) is Stored <==> has_info && element == PaintElementType::View
            && import is Imported,
{
}

/// A poisoned slot does not keep the other from being filled.
pub proof fn lemma_slots_are_independent<T, G>(
    paint: Paint<T, G>,
    handler: CefRenderHandler<T, G>,
    bind_group: G,
    texture_free: bool,
    bind_group_free: bool,
)
    requires
        paint is Bind,
    ensures
        paint.stored_in(handler, bind_group, true, bind_group_free).current_texture == Some(
            paint->Bind_texture,
        ),
        paint.stored_in(handler, bind_group, texture_free, true).current_bind_group == Some(
            bind_group,
        ),
        paint.stored_in(handler, bind_group, false, bind_group_free).current_texture
            == handler.current_texture,
        paint.stored_in(handler, bind_group, texture_free, false).current_bind_group
            == handler.current_bind_group,
        paint.stored_in(handler, bind_group, texture_free, bind_group_free).size == handler.size,
{
}

} // verus!
