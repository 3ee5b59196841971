//! What the browser asks of the view it draws into, and the last frame it drew.

use vstd::prelude::*;

verus! {

/// A rectangle in view coordinates.
#[derive(Clone, Copy, PartialEq, Eq, Structural, Debug)]
pub struct Rect {
    pub x: i32,
    pub y: i32,
    pub width: i32,
    pub height: i32,
}

/// A device scale factor, by the bits of its `f32`.
#[derive(Clone, Copy, PartialEq, Eq, Structural, Debug)]
pub struct ScaleFactor {
    pub bits: u32,
}

/// The number that a 32-bit length becomes in a signed field of the same width.
pub open spec fn wrapped_length(length: u32) -> int {
    if length <= i32::MAX {
        length as int
    } else {
        length - 0x1_0000_0000
    }
}

/// The view rectangle that the browser is told: of the size of the view where
/// that has no empty side, otherwise as it was.
pub open spec fn rect_of_view(size: (u32, u32), rect: Rect) -> Rect {
    if size.0 > 0 && size.1 > 0 {
        Rect {
            width: wrapped_length(size.0) as i32,
            height: wrapped_length(size.1) as i32,
            ..rect
        }
    } else {
        rect
    }
}

/// Converts a length to the signed number of the browser's interface.
fn wrap_length(length: u32) -> (r: i32)
    ensures
        r == wrapped_length(length),
{
    let r: i32 = length as i32;
    assert(length <= 0x7fff_ffff ==> length as i32 == length) by (bit_vector);
    assert(length > 0x7fff_ffff ==> length as i32 == length - 0x1_0000_0000) by (bit_vector);
    r
}

/// Tells the browser the rectangle of a view of this size.
pub fn view_rect(size: (u32, u32), rect: Option<&mut Rect>)
    ensures
        match rect {
            Some(r) => *final(r) == rect_of_view(size, *r),
            None => true,
        },
{
    if let Some(rect) = rect {
        if size.0 > 0 && size.1 > 0 {
            rect.width = wrap_length(size.0);
            rect.height = wrap_length(size.1);
        }
    }
}

/// Tells the browser the scale factor of the screen: 1 where it asked for one,
/// otherwise 0.
pub fn screen_info(device_scale_factor: ScaleFactor, asked: Option<&mut ScaleFactor>) -> (r: i32)
    ensures
        r == (if asked is Some {
            1int
        } else {
            0int
        }),
        match asked {
            Some(factor) => *final(factor) == device_scale_factor,
            None => true,
        },
{
    if let Some(factor) = asked {
        *factor = device_scale_factor;
        return 1;
    }
    0
}

/// Answers that a point of the view has no place on a screen: always 0, with
/// nothing written.
pub fn screen_point(
    _view_x: i32,
    _view_y: i32,
    _screen_x: Option<&mut i32>,
    _screen_y: Option<&mut i32>,
) -> (r: i32)
    ensures
        r == 0,
        match _screen_x {
            Some(x) => *final(x) == *x,
            None => true,
        },
        match _screen_y {
            Some(y) => *final(y) == *y,
            None => true,
        },
{
    0
}

/// What a slot holds of the last frame, `None` where there was none yet or where
/// the slot could not be locked.
pub fn current<H: Clone>(slot: Option<&Option<H>>) -> (r: Option<H>)
    ensures
        r is Some <==> slot is Some && *slot->0 is Some,
        r is Some ==> cloned(slot->0->0, r->0),
{
    match slot {
        Some(slot) => slot.clone(),
        None => None,
    }
}

/// Render handler for offscreen rendering, as what its parts hold: `T` is a
/// texture handle, `G` a bind group handle of the graphics API. Size, texture
/// and bind group are each shared behind a lock of their own.
pub struct CefRenderHandler<T, G> {
    pub device_scale_factor: ScaleFactor,
    pub size: (u32, u32),
    pub current_texture: Option<T>,
    pub current_bind_group: Option<G>,
}

impl<T, G> CefRenderHandler<T, G> {
    /// The handler before the first frame.
    pub open spec fn fresh(device_scale_factor: ScaleFactor, size: (u32, u32)) -> Self {
        CefRenderHandler {
            device_scale_factor,
            size,
            current_texture: None,
            current_bind_group: None,
        }
    }

    /// The handler with another view size.
    pub open spec fn resized(self, width: u32, height: u32) -> Self {
        CefRenderHandler { size: (width, height), ..self }
    }

    /// The handler once a frame was drawn.
    pub open spec fn painted(self, texture: T, bind_group: G) -> Self {
        CefRenderHandler {
            current_texture: Some(texture),
            current_bind_group: Some(bind_group),
            ..self
        }
    }

    /// There is a texture exactly where there is a bind group.
    pub open spec fn paired(self) -> bool {
        self.current_texture is Some <==> self.current_bind_group is Some
    }

    /// What a handler of a view of this size holds before the first frame.
    pub fn new(device_scale_factor: ScaleFactor, size: (u32, u32)) -> (handler: Self)
        ensures
            handler == Self::fresh(device_scale_factor, size),
    {
        CefRenderHandler {
            device_scale_factor,
            size,
            current_texture: None,
            current_bind_group: None,
        }
    }
}

impl<T, G: Clone> CefRenderHandler<T, G> {
    /// The bind group of the last frame, if one was drawn.
    pub fn get_current_bind_group(&self) -> (r: Option<G>)
        ensures
            r is Some <==> self.current_bind_group is Some,
            r is Some ==> cloned(self.current_bind_group->0, r->0),
    {
        current(Some(&self.current_bind_group))
    }
}

impl<T: Clone, G> CefRenderHandler<T, G> {
    /// The texture of the last frame, if one was drawn.
    pub fn get_current_texture(&self) -> (r: Option<T>)
        ensures
            r is Some <==> self.current_texture is Some,
            r is Some ==> cloned(self.current_texture->0, r->0),
    {
        current(Some(&self.current_texture))
    }
}

/// After a resize the browser is told the new size, and the rectangle keeps its
/// corner. Both lengths must be positive as signed numbers.
pub proof fn lemma_resized_view_rect<T, G>(
    handler: CefRenderHandler<T, G>,
    width: u32,
    height: u32,
    rect: Rect,
)
    requires
        0 < width <= i32::MAX,
        0 < height <= i32::MAX,
    ensures
        rect_of_view(handler.resized(width, height).size, rect) == (Rect {
            width: width as i32,
            height: height as i32,
            ..rect
        }),
{
}

/// A view with an empty side leaves the rectangle as it is.
pub proof fn lemma_empty_view_rect<T, G>(
    handler: CefRenderHandler<T, G>,
    width: u32,
    height: u32,
    rect: Rect,
)
    requires
        width == 0 || height == 0,
    ensures
        rect_of_view(handler.resized(width, height).size, rect) == rect,
{
}

/// Resizing and drawing a frame do not touch what the other sets, so their order
/// does not matter.
pub proof fn lemma_resize_and_paint_commute<T, G>(
    handler: CefRenderHandler<T, G>,
    width: u32,
    height: u32,
    texture: T,
    bind_group: G,
)
    ensures
        handler.resized(width, height).painted(texture, bind_group) == handler.painted(
            texture,
            bind_group,
        ).resized(width, height),
{
}

/// The handler holds the frame that was drawn, and of two frames the later one,
/// as if the earlier had never been.
pub proof fn lemma_last_frame_counts<T, G>(
    handler: CefRenderHandler<T, G>,
    texture: T,
    bind_group: G,
    later_texture: T,
    later_bind_group: G,
)
    ensures
        handler.painted(texture, bind_group).current_texture == Some(texture),
        handler.painted(texture, bind_group).current_bind_group == Some(bind_group),
        handler.painted(texture, bind_group).painted(later_texture, later_bind_group)
            == handler.painted(later_texture, later_bind_group),
{
}

} // verus!
