//! Render targets and the part of a camera that pointer tracking reads.

use vstd::prelude::*;
use crate::entity::Entity;
use crate::math::Rect;

verus! {

/// A reference to a window: a given one, or whichever is the primary window.
#[derive(Debug, Clone, Copy, PartialEq, Eq, Hash, Structural)]
pub enum WindowRef {
    /// The primary window of the application.
    Primary,
    /// The window that is this entity.
    Entity(Entity),
}

impl WindowRef {
    /// The window referred to, given the primary window if there is one.
    pub open spec fn spec_normalize(&self, primary_window: Option<Entity>) -> Option<Entity> {
        match *self {
            WindowRef::Primary => primary_window,
            WindowRef::Entity(window) => Some(window),
        }
    }

    /// Resolves the reference to a window entity. A reference to the primary
    /// window resolves only where a primary window is given.
    #[verifier::when_used_as_spec(spec_normalize)]
    pub fn normalize(&self, primary_window: Option<Entity>) -> (window: Option<Entity>)
        ensures
            window == self.spec_normalize(primary_window),
    {
        match self {
            WindowRef::Primary => primary_window,
            WindowRef::Entity(window) => Some(*window),
        }
    }
}

/// The identifier of an asset: its slot in the asset storage, or a
/// universally unique identifier.
#[derive(Debug, Clone, Copy, PartialEq, Eq, Hash, Structural)]
pub enum AssetId {
    /// The bits of the slot that the asset storage gave the asset.
    Index(u64),
    /// The 128 bits of the universally unique identifier of the asset.
    Uuid(u128),
}

/// What a camera draws to.
#[derive(Debug, Clone, Copy, PartialEq, Eq, Hash, Structural)]
pub enum RenderTarget {
    /// A window.
    Window(WindowRef),
    /// An image, by the identifier of the asset.
    Image(AssetId),
    /// A texture view handed to the renderer, by its handle.
    TextureView(u32),
}

/// A render target in which every window is named by its entity. Two
/// normalized targets are the same surface exactly when they are equal.
#[derive(Debug, Clone, Copy, PartialEq, Eq, Hash, Structural)]
pub enum NormalizedRenderTarget {
    /// The window that is this entity.
    Window(Entity),
    /// An image, by the identifier of the asset.
    Image(AssetId),
    /// A texture view handed to the renderer, by its handle.
    TextureView(u32),
}

impl RenderTarget {
    /// The normalized form of the target, given the primary window if there
    /// is one.
    pub open spec fn spec_normalize(&self, primary_window: Option<Entity>) -> Option<
        NormalizedRenderTarget,
    > {
        match *self {
            RenderTarget::Window(window_ref) => match window_ref.spec_normalize(primary_window) {
                Some(window) => Some(NormalizedRenderTarget::Window(window)),
                None => None,
            },
            RenderTarget::Image(image) => Some(NormalizedRenderTarget::Image(image)),
            RenderTarget::TextureView(view) => Some(NormalizedRenderTarget::TextureView(view)),
        }
    }

    /// Normalizes the target. Only a target that is the primary window can
    /// fail to normalize, and does so where no primary window is given.
    #[verifier::when_used_as_spec(spec_normalize)]
    pub fn normalize(&self, primary_window: Option<Entity>) -> (target: Option<
        NormalizedRenderTarget,
    >)
        ensures
            target == self.spec_normalize(primary_window),
    {
        match self {
            RenderTarget::Window(window_ref) => match window_ref.normalize(primary_window) {
                Some(window) => Some(NormalizedRenderTarget::Window(window)),
                None => None,
            },
            RenderTarget::Image(image) => Some(NormalizedRenderTarget::Image(*image)),
            RenderTarget::TextureView(view) => Some(NormalizedRenderTarget::TextureView(*view)),
        }
    }
}

/// The part of a camera that decides where a pointer can hit it.
#[derive(Debug, Clone, Copy, PartialEq, Eq, Hash, Structural)]
pub struct Camera {
    /// What the camera draws to.
    pub target: RenderTarget,
    /// The rectangle of the target that the camera draws to, in the
    /// coordinates of pointer positions; `None` where it cannot be resolved.
    pub viewport: Option<Rect>,
}

impl Camera {
    /// The rectangle of the target that the camera draws to, if it can be
    /// resolved.
    pub fn logical_viewport_rect(&self) -> (rect: Option<Rect>)
        ensures
            rect == self.viewport,
    {
        self.viewport
    }
}

/// The one window among `windows`, the entities marked as primary window.
/// There is none where no entity is marked, and none where several are.
pub open spec fn single_window(windows: Seq<Entity>) -> Option<Entity> {
    if windows.len() == 1 {
        Some(windows[0])
    } else {
        None
    }
}

/// The primary window, where exactly one entity is marked as such.
pub fn get_single(windows: &[Entity]) -> (window: Option<Entity>)
    ensures
        window == single_window(windows@),
{
    if windows.len() == 1 {
        Some(windows[0])
    } else {
        None
    }
}

} // verus!
