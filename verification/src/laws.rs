//! What the functions of this crate do for their callers, said of the calls
//! themselves: what goes in, what comes out, and how one call bears on the next.
//!
//! A law speaks of a call as `call_ensures(function, arguments, result)`, for every
//! result that the function may return, and of what it may be called with as
//! `call_requires(function, arguments)`. What the graphics device does between two
//! calls is modelled in [`device`](crate::device).

use vstd::prelude::*;

use crate::bindings::FrameBindings;
use crate::bindings::SampleType;
use crate::bindings::ShaderStages;
use crate::bindings::SlotKind;
use crate::bindings::ViewDimension;
use crate::browser::BrowserLaunch;
use crate::browser::CefOffscreenBrowser;
use crate::browser::HostCommand;
use crate::browser::Platform;
use crate::channels::ChannelOrder;
use crate::channels::TextureFormat;
use crate::device::DeviceTexture;
use crate::error::PaintError;
use crate::error::RenderError;
use crate::paint::Paint;
use crate::paint::PaintElementType;
use crate::paint::TextureImport;
use crate::readback::ReadbackLayout;
use crate::readback::ReadbackPlan;
use crate::readback::TextureAspect;
use crate::render_handler::CefRenderHandler;
use crate::render_handler::Rect;
use crate::render_handler::ScaleFactor;

verus! {

/// The least multiple of 256 that is no less than `4 * width`, in plain numbers.
pub open spec fn aligned_row(width: u32) -> int {
    (4 * width + 255) / 256 * 256
}

/// The lengths that reading a frame back takes stay below 2 to the 32.
pub open spec fn in_32_bits(width: u32, height: u32) -> bool {
    4 * width + 255 < 0x1_0000_0000 && aligned_row(width) * height < 0x1_0000_0000
}

/// The lengths of a readback in plain numbers.
proof fn lemma_numbers(width: u32, height: u32)
    ensures
        crate::readback::row_bytes(width as nat) == 4 * width,
        crate::readback::padded_row_bytes(width as nat) == aligned_row(width),
        crate::readback::readback_bytes(width as nat, height as nat) == aligned_row(width) * height,
        height > 0 ==> crate::readback::rows_end(width as nat, height as nat) == aligned_row(width)
            * (height - 1) + 4 * width,
        height == 0 ==> crate::readback::rows_end(width as nat, height as nat) == 0,
{
}

/// A frame can be captured exactly where the lengths that reading it back takes
/// stay below 2 to the 32; nothing else limits its size.
pub proof fn law_can_capture<B>(
    b: B,
    width: u32,
    height: u32,
    browser: CefOffscreenBrowser<B>,
    answer: bool,
    fits: bool,
)
    requires
        call_ensures(
            CefOffscreenBrowser::<B>::new,
            (Some(b), width, height),
            Ok::<CefOffscreenBrowser<B>, RenderError>(browser),
        ),
        call_ensures(CefOffscreenBrowser::<B>::can_capture, (&browser,), answer),
        call_ensures(ReadbackLayout::fits, (width, height), fits),
    ensures
        answer <==> 4 * width + 255 < 0x1_0000_0000 && ((4 * width + 255) / 256 * 256) * height
            < 0x1_0000_0000,
        fits == answer,
        width <= 16384 && height <= 16384 ==> answer,
{
    lemma_numbers(width, height);
    assert(width <= 16384 && height <= 16384 ==> aligned_row(width) * height <= 65536 * 16384)
        by (nonlinear_arith)
        requires
            width <= 16384 ==> 0 <= aligned_row(width) <= 65536,
            0 <= height,
    ;
}

/// A browser may begin and finish captures wherever a frame can be captured, and
/// where it has no frame at any size.
pub proof fn law_captures_are_allowed<B, T: Clone>(
    b: B,
    width: u32,
    height: u32,
    browser: CefOffscreenBrowser<B>,
    texture: T,
    cause: String,
    order: ChannelOrder,
    data: &[u8],
)
    requires
        call_ensures(
            CefOffscreenBrowser::<B>::new,
            (Some(b), width, height),
            Ok::<CefOffscreenBrowser<B>, RenderError>(browser),
        ),
    ensures
        in_32_bits(width, height) ==> call_requires(
            CefOffscreenBrowser::<B>::begin_capture::<T>,
            (&browser, Ok::<Option<&Option<T>>, String>(Some(&Some(texture)))),
        ),
        call_requires(
            CefOffscreenBrowser::<B>::begin_capture::<T>,
            (&browser, Ok::<Option<&Option<T>>, String>(Some(&None))),
        ),
        call_requires(
            CefOffscreenBrowser::<B>::begin_capture::<T>,
            (&browser, Ok::<Option<&Option<T>>, String>(None)),
        ),
        call_requires(
            CefOffscreenBrowser::<B>::begin_capture::<T>,
            (&browser, Err::<Option<&Option<T>>, String>(cause)),
        ),
        in_32_bits(width, height) && (height > 0 ==> data@.len() >= aligned_row(width) * (height
            - 1) + 4 * width) ==> {
            &&& call_requires(
                CefOffscreenBrowser::<B>::capture_frame_pixels,
                (&browser, order, Ok::<Result<&[u8], String>, String>(Ok(data))),
            )
            &&& call_requires(
                CefOffscreenBrowser::<B>::capture_frame,
                (&browser, order, Ok::<Result<&[u8], String>, String>(Ok(data))),
            )
        },
        call_requires(
            CefOffscreenBrowser::<B>::capture_frame_pixels,
            (&browser, order, Ok::<Result<&[u8], String>, String>(Err(cause))),
        ),
        call_requires(
            CefOffscreenBrowser::<B>::capture_frame_pixels,
            (&browser, order, Err::<Result<&[u8], String>, String>(cause)),
        ),
        call_requires(
            CefOffscreenBrowser::<B>::capture_frame,
            (&browser, order, Ok::<Result<&[u8], String>, String>(Err(cause))),
        ),
        call_requires(
            CefOffscreenBrowser::<B>::capture_frame,
            (&browser, order, Err::<Result<&[u8], String>, String>(cause)),
        ),
{
    lemma_numbers(width, height);
}

/// A capture of a drawn frame begins with the texture of that frame, and with a
/// plan that the device allows on any texture of the size of the view: the copy
/// into the buffer, and then its mapping for reading.
pub proof fn law_plan_is_allowed<B, T: Clone>(
    b: B,
    width: u32,
    height: u32,
    browser: CefOffscreenBrowser<B>,
    handle: T,
    begun: Result<(T, ReadbackPlan), RenderError>,
    texture: DeviceTexture,
)
    requires
        call_ensures(
            CefOffscreenBrowser::<B>::new,
            (Some(b), width, height),
            Ok::<CefOffscreenBrowser<B>, RenderError>(browser),
        ),
        in_32_bits(width, height),
        call_ensures(
            CefOffscreenBrowser::<B>::begin_capture::<T>,
            (&browser, Ok::<Option<&Option<T>>, String>(Some(&Some(handle)))),
            begun,
        ),
        texture.width == width,
        texture.height == height,
    ensures
        begun is Ok,
        cloned(handle, begun->Ok_0.0),
        crate::device::allows_copy(begun->Ok_0.1.buffer, begun->Ok_0.1.copy, texture),
        crate::device::allows_read(begun->Ok_0.1.buffer),
{
    lemma_numbers(width, height);
    let padded = aligned_row(width);
    if height > 0 {
        assert(padded * (height - 1) + padded == padded * height) by (nonlinear_arith);
    }
}

/// A plan reads back the view and no more: the copy takes each of its pixels from
/// the same place of the texture, to rows as close together as the alignment of
/// 256 bytes lets them be, in a buffer that ends with the last of them.
pub proof fn law_plan_covers_the_view<B, T: Clone>(
    b: B,
    width: u32,
    height: u32,
    browser: CefOffscreenBrowser<B>,
    handle: T,
    begun: Result<(T, ReadbackPlan), RenderError>,
)
    requires
        call_ensures(
            CefOffscreenBrowser::<B>::new,
            (Some(b), width, height),
            Ok::<CefOffscreenBrowser<B>, RenderError>(browser),
        ),
        in_32_bits(width, height),
        call_ensures(
            CefOffscreenBrowser::<B>::begin_capture::<T>,
            (&browser, Ok::<Option<&Option<T>>, String>(Some(&Some(handle)))),
            begun,
        ),
    ensures
        begun is Ok,
        begun->Ok_0.1.copy.mip_level == 0,
        begun->Ok_0.1.copy.aspect == TextureAspect::All,
        begun->Ok_0.1.copy.origin == (0u32, 0u32, 0u32),
        begun->Ok_0.1.copy.extent == (width, height, 1u32),
        begun->Ok_0.1.copy.offset == 0,
        begun->Ok_0.1.copy.rows_per_image == Some(height),
        begun->Ok_0.1.copy.bytes_per_row is Some,
        begun->Ok_0.1.copy.bytes_per_row->0 % 256 == 0,
        4 * width <= begun->Ok_0.1.copy.bytes_per_row->0 < 4 * width + 256,
        begun->Ok_0.1.buffer.size == begun->Ok_0.1.copy.bytes_per_row->0 * height,
        begun->Ok_0.1.buffer.copy_dst,
        begun->Ok_0.1.buffer.map_read,
        !begun->Ok_0.1.buffer.mapped_at_creation,
{
    lemma_numbers(width, height);
}

/// Every texel of the texture is captured, and nothing else. Where the buffer of
/// the plan was filled by the copy of the plan, from a texture of the size of the
/// view, the captured pixels are the texels row by row, with their channels in the
/// order red, green, blue, alpha.
pub proof fn law_capture_returns_every_texel<B, T: Clone>(
    b: B,
    width: u32,
    height: u32,
    browser: CefOffscreenBrowser<B>,
    handle: T,
    taken: T,
    plan: ReadbackPlan,
    texture: DeviceTexture,
    order: ChannelOrder,
    before: Seq<u8>,
    data: &[u8],
    captured: Result<(Vec<u8>, u32, u32), RenderError>,
)
    requires
        call_ensures(
            CefOffscreenBrowser::<B>::new,
            (Some(b), width, height),
            Ok::<CefOffscreenBrowser<B>, RenderError>(browser),
        ),
        in_32_bits(width, height),
        call_ensures(
            CefOffscreenBrowser::<B>::begin_capture::<T>,
            (&browser, Ok::<Option<&Option<T>>, String>(Some(&Some(handle)))),
            Ok::<(T, ReadbackPlan), RenderError>((taken, plan)),
        ),
        texture.width == width,
        texture.height == height,
        before.len() == plan.buffer.size,
        crate::device::copies(plan.copy, texture, before, data@),
        call_ensures(
            CefOffscreenBrowser::<B>::capture_frame_pixels,
            (&browser, order, Ok::<Result<&[u8], String>, String>(Ok(data))),
            captured,
        ),
    ensures
        call_requires(
            CefOffscreenBrowser::<B>::capture_frame_pixels,
            (&browser, order, Ok::<Result<&[u8], String>, String>(Ok(data))),
        ),
        captured is Ok,
        captured->Ok_0.1 == width,
        captured->Ok_0.2 == height,
        captured->Ok_0.0@.len() == width * height * 4,
        forall|x: int, y: int|
            0 <= x < width && 0 <= y < height ==> is_pixel(
                captured->Ok_0.0@,
                width,
                x,
                y,
                #[trigger] (texture.texel)(0, 0, x, y),
                order,
            ),
{
    lemma_numbers(width, height);
    let padded = aligned_row(width);
    let w = width as nat;
    let h = height as nat;
    crate::readback::lemma_frame_within_buffer(w, h);
    crate::readback::lemma_frame_length(data@, w, h);
    let frame = crate::readback::frame_of(data@, w, h);
    let pixels = captured->Ok_0.0@;
    assert forall|x: int, y: int| 0 <= x < width && 0 <= y < height implies is_pixel(
        pixels,
        width,
        x,
        y,
        #[trigger] (texture.texel)(0, 0, x, y),
        order,
    ) by {
        let texel = (texture.texel)(0, 0, x, y);
        let n = y * w + x;
        assert(0 <= n < w * h) by (nonlinear_arith)
            requires
                n == y * w + x,
                0 <= x < w,
                0 <= y < h,
        ;
        crate::readback::lemma_pixel_position(data@, w, h, x, y, 0);
        assert(data@[crate::device::copied_to(plan.copy, x, y, 0)] == texel[0]);
        crate::readback::lemma_pixel_position(data@, w, h, x, y, 1);
        assert(data@[crate::device::copied_to(plan.copy, x, y, 1)] == texel[1]);
        crate::readback::lemma_pixel_position(data@, w, h, x, y, 2);
        assert(data@[crate::device::copied_to(plan.copy, x, y, 2)] == texel[2]);
        crate::readback::lemma_pixel_position(data@, w, h, x, y, 3);
        assert(data@[crate::device::copied_to(plan.copy, x, y, 3)] == texel[3]);
        crate::channels::lemma_channels(frame, order, n, 0);
        crate::channels::lemma_channels(frame, order, n, 1);
        crate::channels::lemma_channels(frame, order, n, 2);
        crate::channels::lemma_channels(frame, order, n, 3);
    }
}

/// The pixel in column `x` and row `y` of a frame has the red, green, blue and
/// alpha, in this order, of a texel that holds them in `order`.
pub open spec fn is_pixel(
    pixels: Seq<u8>,
    width: u32,
    x: int,
    y: int,
    texel: Seq<u8>,
    order: ChannelOrder,
) -> bool {
    let i = 4 * (y * width + x);
    match order {
        ChannelOrder::Rgba => {
            &&& pixels[i] == texel[0]
            &&& pixels[i + 1] == texel[1]
            &&& pixels[i + 2] == texel[2]
            &&& pixels[i + 3] == texel[3]
        },
        ChannelOrder::Bgra => {
            &&& pixels[i] == texel[2]
            &&& pixels[i + 1] == texel[1]
            &&& pixels[i + 2] == texel[0]
            &&& pixels[i + 3] == texel[3]
        },
    }
}

/// A captured image holds the pixels that are captured of the same frame, in the
/// same size, and the two captures fail alike.
pub proof fn law_image_shows_the_pixels<B>(
    browser: CefOffscreenBrowser<B>,
    order: ChannelOrder,
    mapped: Result<Result<&[u8], String>, String>,
    pixels: Result<(Vec<u8>, u32, u32), RenderError>,
    image: Result<slint::Image, RenderError>,
)
    requires
        call_ensures(
            CefOffscreenBrowser::<B>::capture_frame_pixels,
            (&browser, order, mapped),
            pixels,
        ),
        call_ensures(CefOffscreenBrowser::<B>::capture_frame, (&browser, order, mapped), image),
    ensures
        image is Ok <==> pixels is Ok,
        image is Ok <==> mapped is Ok && mapped->Ok_0 is Ok,
        image is Ok ==> crate::image::image_bytes(image->Ok_0) == pixels->Ok_0.0@,
        image is Ok ==> crate::image::image_size(image->Ok_0) == (
            pixels->Ok_0.1,
            pixels->Ok_0.2,
        ),
        image is Err ==> image->Err_0 == pixels->Err_0,
{
}

/// A browser is made exactly where the browser was created. Its commands then
/// go to that browser, and say what they are named for.
pub proof fn law_commands_reach_the_browser<B>(
    b: B,
    width: u32,
    height: u32,
    made: Result<CefOffscreenBrowser<B>, RenderError>,
    url: &str,
    held: Option<&B>,
    begin_frame: Option<(&B, HostCommand)>,
    close: Option<(&B, HostCommand)>,
    load: Option<(&B, String)>,
)
    requires
        call_ensures(CefOffscreenBrowser::<B>::new, (Some(b), width, height), made),
        call_ensures(CefOffscreenBrowser::<B>::browser, (&made->Ok_0,), held),
        call_ensures(CefOffscreenBrowser::<B>::send_frame, (&made->Ok_0,), begin_frame),
        call_ensures(CefOffscreenBrowser::<B>::close, (&made->Ok_0,), close),
        call_ensures(CefOffscreenBrowser::<B>::load_url, (&made->Ok_0, url), load),
    ensures
        made is Ok,
        held == Some(&b),
        begin_frame == Some((&b, HostCommand::SendExternalBeginFrame)),
        close == Some((&b, HostCommand::CloseBrowser { force_close: 0 })),
        load matches Some((browser, page)) && browser == &b && page@ == url@,
{
}

/// What is addressed to a host or a frame that is not there is not done.
pub proof fn law_addressed<R, C>(
    receiver: R,
    task: C,
    to_one: Option<(R, C)>,
    to_none: Option<(R, C)>,
)
    requires
        call_ensures(crate::browser::addressed::<R, C>, (Some(receiver), task), to_one),
        call_ensures(crate::browser::addressed::<R, C>, (None::<R>, task), to_none),
    ensures
        to_one == Some((receiver, task)),
        to_none is None,
{
}

/// A resize tells the host of the same browser, and sets the size of the handler.
/// The browser is the same before and after.
pub proof fn law_resize_tells_the_host<B>(
    browser: &mut CefOffscreenBrowser<B>,
    handler_size: &mut (u32, u32),
    width: u32,
    height: u32,
    call: Option<(&B, HostCommand)>,
    before: Option<&B>,
    after: Option<&B>,
)
    requires
        call_ensures(CefOffscreenBrowser::<B>::browser, (&*old(browser),), before),
        call_ensures(
            CefOffscreenBrowser::<B>::resize,
            (browser, Some(handler_size), width, height),
            call,
        ),
        call_ensures(CefOffscreenBrowser::<B>::browser, (&*final(browser),), after),
    ensures
        before is Some,
        after == before,
        call == Some((before->0, HostCommand::WasResized)),
        final(handler_size).0 == width,
        final(handler_size).1 == height,
{
}

/// After a resize, with the lock of the handler poisoned or not, frames are
/// captured as by a browser that was made in the new size.
pub proof fn law_resized_captures_as_new<B, T: Clone>(
    browser: &mut CefOffscreenBrowser<B>,
    handler_size: Option<&mut (u32, u32)>,
    width: u32,
    height: u32,
    call: Option<(&B, HostCommand)>,
    b: B,
    made: CefOffscreenBrowser<B>,
    slot: Result<Option<&Option<T>>, String>,
    begun: Result<(T, ReadbackPlan), RenderError>,
    made_begun: Result<(T, ReadbackPlan), RenderError>,
    order: ChannelOrder,
    mapped: Result<Result<&[u8], String>, String>,
    pixels: Result<(Vec<u8>, u32, u32), RenderError>,
    made_pixels: Result<(Vec<u8>, u32, u32), RenderError>,
    answer: bool,
    made_answer: bool,
)
    requires
        call_ensures(
            CefOffscreenBrowser::<B>::resize,
            (browser, handler_size, width, height),
            call,
        ),
        call_ensures(
            CefOffscreenBrowser::<B>::new,
            (Some(b), width, height),
            Ok::<CefOffscreenBrowser<B>, RenderError>(made),
        ),
        call_ensures(CefOffscreenBrowser::<B>::can_capture, (&*final(browser),), answer),
        call_ensures(CefOffscreenBrowser::<B>::can_capture, (&made,), made_answer),
        call_ensures(
            CefOffscreenBrowser::<B>::begin_capture::<T>,
            (&*final(browser), slot),
            begun,
        ),
        call_ensures(CefOffscreenBrowser::<B>::begin_capture::<T>, (&made, slot), made_begun),
        call_ensures(
            CefOffscreenBrowser::<B>::capture_frame_pixels,
            (&*final(browser), order, mapped),
            pixels,
        ),
        call_ensures(
            CefOffscreenBrowser::<B>::capture_frame_pixels,
            (&made, order, mapped),
            made_pixels,
        ),
    ensures
        answer == made_answer,
        begun is Ok <==> made_begun is Ok,
        begun is Ok ==> begun->Ok_0.1 == made_begun->Ok_0.1,
        begun is Err ==> begun->Err_0 == made_begun->Err_0,
        pixels is Ok <==> made_pixels is Ok,
        pixels is Ok ==> pixels->Ok_0.0@ == made_pixels->Ok_0.0@,
        pixels is Ok ==> pixels->Ok_0.1 == width && pixels->Ok_0.2 == height,
        pixels is Err ==> pixels->Err_0 == made_pixels->Err_0,
{
}

/// A browser is launched without a window, at 60 frames per second, on the page
/// that was asked for. Textures are shared, and frames begun from outside, exactly
/// in a program with web views on a platform that has them. The handler has no
/// frame yet, and the size and the scale that were asked for.
pub proof fn law_launch<T: Clone, G: Clone>(
    url: &str,
    width: u32,
    height: u32,
    scale: ScaleFactor,
    platform: Platform,
    webview: bool,
    launch: BrowserLaunch<T, G>,
    texture: Option<T>,
    bind_group: Option<G>,
)
    requires
        call_ensures(
            BrowserLaunch::<T, G>::new,
            (url, width, height, scale, platform, webview),
            launch,
        ),
        call_ensures(CefRenderHandler::<T, G>::get_current_texture, (&launch.handler,), texture),
        call_ensures(
            CefRenderHandler::<T, G>::get_current_bind_group,
            (&launch.handler,),
            bind_group,
        ),
    ensures
        launch.url@ == url@,
        launch.settings.windowless_frame_rate == 60,
        launch.window_info.windowless_rendering_enabled == 1,
        launch.window_info.shared_texture_enabled == 0
            || launch.window_info.shared_texture_enabled == 1,
        launch.window_info.shared_texture_enabled == 1 <==> webview && (platform is MacOs
            || platform is Windows || platform is Linux),
        launch.window_info.external_begin_frame_enabled
            == launch.window_info.shared_texture_enabled,
        launch.handler.size == (width, height),
        launch.handler.device_scale_factor == scale,
        texture is None,
        bind_group is None,
{
}

/// A browser of a launch is the one that was created, in a view of the size that
/// the launch was made for.
pub proof fn law_created<B, T, G>(
    url: &str,
    width: u32,
    height: u32,
    scale: ScaleFactor,
    platform: Platform,
    webview: bool,
    launch: BrowserLaunch<T, G>,
    b: B,
    created: Result<CefOffscreenBrowser<B>, RenderError>,
    held: Option<&B>,
    order: ChannelOrder,
    data: &[u8],
    pixels: Result<(Vec<u8>, u32, u32), RenderError>,
)
    requires
        call_ensures(
            BrowserLaunch::<T, G>::new,
            (url, width, height, scale, platform, webview),
            launch,
        ),
        call_ensures(BrowserLaunch::<T, G>::created::<B>, (&launch, Some(b)), created),
        call_ensures(CefOffscreenBrowser::<B>::browser, (&created->Ok_0,), held),
        call_ensures(
            CefOffscreenBrowser::<B>::capture_frame_pixels,
            (&created->Ok_0, order, Ok::<Result<&[u8], String>, String>(Ok(data))),
            pixels,
        ),
    ensures
        created is Ok,
        held == Some(&b),
        pixels is Ok,
        pixels->Ok_0.1 == width,
        pixels->Ok_0.2 == height,
{
}

/// Where no browser was created, both ways of making one say so.
pub proof fn law_not_created<B, T, G>(
    launch: BrowserLaunch<T, G>,
    width: u32,
    height: u32,
    created: Result<CefOffscreenBrowser<B>, RenderError>,
    made: Result<CefOffscreenBrowser<B>, RenderError>,
    message: String,
)
    requires
        call_ensures(BrowserLaunch::<T, G>::created::<B>, (&launch, None::<B>), created),
        call_ensures(CefOffscreenBrowser::<B>::new, (None::<B>, width, height), made),
        call_ensures(RenderError::message, (&created->Err_0,), message),
    ensures
        created is Err,
        made == created,
        message@ == "Failed to create CEF browser"@,
{
}

/// A handler holds what it was made with, and no frame.
pub proof fn law_new_handler<T: Clone, G: Clone>(
    scale: ScaleFactor,
    size: (u32, u32),
    handler: CefRenderHandler<T, G>,
    texture: Option<T>,
    bind_group: Option<G>,
)
    requires
        call_ensures(CefRenderHandler::<T, G>::new, (scale, size), handler),
        call_ensures(CefRenderHandler::<T, G>::get_current_texture, (&handler,), texture),
        call_ensures(CefRenderHandler::<T, G>::get_current_bind_group, (&handler,), bind_group),
    ensures
        handler.device_scale_factor == scale,
        handler.size == size,
        texture is None,
        bind_group is None,
{
}

/// After a resize the browser is told a rectangle of the new size, each length
/// modulo 2 to the 32, in its corner. A view with an empty side changes nothing.
pub proof fn law_view_rect_follows_the_resize<B>(
    browser: &mut CefOffscreenBrowser<B>,
    handler_size: &mut (u32, u32),
    width: u32,
    height: u32,
    call: Option<(&B, HostCommand)>,
    rect: &mut Rect,
)
    requires
        call_ensures(
            CefOffscreenBrowser::<B>::resize,
            (browser, Some(handler_size), width, height),
            call,
        ),
        call_ensures(crate::render_handler::view_rect, (*final(handler_size), Some(rect)), ()),
    ensures
        final(rect).x == old(rect).x,
        final(rect).y == old(rect).y,
        width > 0 && height > 0 ==> (final(rect).width - width) % 0x1_0000_0000 == 0,
        width > 0 && height > 0 ==> (final(rect).height - height) % 0x1_0000_0000 == 0,
        0 < width <= 0x7fff_ffff && 0 < height ==> final(rect).width == width,
        0 < height <= 0x7fff_ffff && 0 < width ==> final(rect).height == height,
        width == 0 || height == 0 ==> *final(rect) == *old(rect),
{
}

/// The browser is told the scale that the handler was made with, and that it was
/// told.
pub proof fn law_screen_info<T, G>(
    scale: ScaleFactor,
    size: (u32, u32),
    handler: CefRenderHandler<T, G>,
    asked: &mut ScaleFactor,
    told: i32,
    not_told: i32,
)
    requires
        call_ensures(CefRenderHandler::<T, G>::new, (scale, size), handler),
        call_ensures(
            crate::render_handler::screen_info,
            (handler.device_scale_factor, Some(asked)),
            told,
        ),
        call_ensures(
            crate::render_handler::screen_info,
            (handler.device_scale_factor, None::<&mut ScaleFactor>),
            not_told,
        ),
    ensures
        final(asked).bits == scale.bits,
        told == 1,
        not_told == 0,
{
}

/// No point of the view has a place on a screen, and none is written.
pub proof fn law_screen_point(
    view_x: i32,
    view_y: i32,
    screen_x: &mut i32,
    screen_y: &mut i32,
    answer: i32,
)
    requires
        call_ensures(
            crate::render_handler::screen_point,
            (view_x, view_y, Some(screen_x), Some(screen_y)),
            answer,
        ),
    ensures
        answer == 0,
        *final(screen_x) == *old(screen_x),
        *final(screen_y) == *old(screen_y),
{
}

/// The current frame is what the slots hold, and there is none where a slot is
/// empty or poisoned.
pub proof fn law_current_frame<B, T: Clone, G: Clone>(
    browser: CefOffscreenBrowser<B>,
    handler: CefRenderHandler<T, G>,
    texture: Option<T>,
    bind_group: Option<G>,
    shown: Option<G>,
    poisoned: Option<G>,
)
    requires
        call_ensures(CefRenderHandler::<T, G>::get_current_texture, (&handler,), texture),
        call_ensures(CefRenderHandler::<T, G>::get_current_bind_group, (&handler,), bind_group),
        call_ensures(
            CefOffscreenBrowser::<B>::get_texture::<G>,
            (&browser, Some(&handler.current_bind_group)),
            shown,
        ),
        call_ensures(
            CefOffscreenBrowser::<B>::get_texture::<G>,
            (&browser, None::<&Option<G>>),
            poisoned,
        ),
    ensures
        match handler.current_texture {
            Some(held) => texture is Some && cloned(held, texture->0),
            None => texture is None,
        },
        match handler.current_bind_group {
            Some(held) => {
                &&& bind_group is Some && cloned(held, bind_group->0)
                &&& shown is Some && cloned(held, shown->0)
            },
            None => bind_group is None && shown is None,
        },
        poisoned is None,
{
}

/// A slot is read as it is, by a copy of what it holds.
pub proof fn law_current<H: Clone>(slot: Option<&Option<H>>, r: Option<H>)
    requires
        call_ensures(crate::render_handler::current::<H>, (slot,), r),
    ensures
        match slot {
            Some(Some(held)) => r is Some && cloned(*held, r->0),
            _ => r is None,
        },
{
}

/// A capture that cannot begin says why: the text of the poisoned lock, or that
/// there is no texture, be the slot empty or poisoned.
pub proof fn law_capture_does_not_begin<B, T: Clone>(
    browser: CefOffscreenBrowser<B>,
    cause: String,
    locked_out: Result<(T, ReadbackPlan), RenderError>,
    empty: Result<(T, ReadbackPlan), RenderError>,
    poisoned: Result<(T, ReadbackPlan), RenderError>,
    locked_out_message: String,
    empty_message: String,
)
    requires
        call_ensures(
            CefOffscreenBrowser::<B>::begin_capture::<T>,
            (&browser, Err::<Option<&Option<T>>, String>(cause)),
            locked_out,
        ),
        call_ensures(
            CefOffscreenBrowser::<B>::begin_capture::<T>,
            (&browser, Ok::<Option<&Option<T>>, String>(Some(&None))),
            empty,
        ),
        call_ensures(
            CefOffscreenBrowser::<B>::begin_capture::<T>,
            (&browser, Ok::<Option<&Option<T>>, String>(None)),
            poisoned,
        ),
        call_ensures(RenderError::message, (&locked_out->Err_0,), locked_out_message),
        call_ensures(RenderError::message, (&empty->Err_0,), empty_message),
    ensures
        locked_out is Err,
        locked_out_message@ == "Failed to lock render handler: "@ + cause@,
        empty is Err,
        empty_message@ == "No texture available"@,
        poisoned == empty,
{
}

/// A capture whose buffer cannot be read says why, with the text of the error.
pub proof fn law_capture_cannot_be_read<B>(
    browser: CefOffscreenBrowser<B>,
    order: ChannelOrder,
    cause: String,
    lost: Result<(Vec<u8>, u32, u32), RenderError>,
    refused: Result<(Vec<u8>, u32, u32), RenderError>,
    lost_message: String,
    refused_message: String,
)
    requires
        call_ensures(
            CefOffscreenBrowser::<B>::capture_frame_pixels,
            (&browser, order, Err::<Result<&[u8], String>, String>(cause)),
            lost,
        ),
        call_ensures(
            CefOffscreenBrowser::<B>::capture_frame_pixels,
            (&browser, order, Ok::<Result<&[u8], String>, String>(Err(cause))),
            refused,
        ),
        call_ensures(RenderError::message, (&lost->Err_0,), lost_message),
        call_ensures(RenderError::message, (&refused->Err_0,), refused_message),
    ensures
        lost is Err,
        lost_message@ == "Failed to receive map result: "@ + cause@,
        refused is Err,
        refused_message@ == "Failed to map buffer: "@ + cause@,
{
}

/// A layout is to be had for every frame that fits, plans to copy the whole
/// frame, and reads it from a buffer that holds its rows.
pub proof fn law_layout(
    width: u32,
    height: u32,
    layout: ReadbackLayout,
    plan: ReadbackPlan,
    data: &[u8],
    pixels: Vec<u8>,
    texture: DeviceTexture,
)
    requires
        in_32_bits(width, height),
        call_ensures(ReadbackLayout::new, (width, height), layout),
        call_ensures(ReadbackLayout::plan, (&layout,), plan),
        call_ensures(ReadbackLayout::unpad, (&layout, data), pixels),
        texture.width == width,
        texture.height == height,
    ensures
        call_requires(ReadbackLayout::new, (width, height)),
        crate::device::allows_copy(plan.buffer, plan.copy, texture),
        crate::device::allows_read(plan.buffer),
        plan.copy.origin == (0u32, 0u32, 0u32),
        plan.copy.extent == (width, height, 1u32),
        data@.len() == plan.buffer.size ==> call_requires(ReadbackLayout::unpad, (&layout, data)),
        pixels@.len() == width * height * 4,
        forall|x: int, y: int, k: int|
            0 <= x < width && 0 <= y < height && 0 <= k < 4
                ==> #[trigger] data@[crate::device::copied_to(plan.copy, x, y, k)]
                == pixels@[4 * (y * width + x) + k],
{
    lemma_numbers(width, height);
    let padded = aligned_row(width);
    if height > 0 {
        assert(padded * (height - 1) + padded == padded * height) by (nonlinear_arith);
    }
    let w = width as nat;
    let h = height as nat;
    crate::readback::lemma_frame_length(data@, w, h);
    assert forall|x: int, y: int, k: int|
        0 <= x < width && 0 <= y < height && 0 <= k < 4 implies
        #[trigger] data@[crate::device::copied_to(plan.copy, x, y, k)]
        == pixels@[4 * (y * width + x) + k] by {
        crate::readback::lemma_pixel_position(data@, w, h, x, y, k);
    }
}

/// The channels of a pixel are read as the format of its texture has them: where
/// a format is named for red first they stay, where it is named for blue first red
/// and blue change places. A format of neither kind has no order.
pub proof fn law_channels(
    format: TextureFormat,
    order: Option<ChannelOrder>,
    frame: Vec<u8>,
    pixels: Vec<u8>,
)
    requires
        call_ensures(crate::channels::channel_order, (format,), order),
        order is Some,
        frame@.len() % 4 == 0,
        call_ensures(crate::channels::to_rgba, (frame, order->0), pixels),
    ensures
        !(format is Other),
        call_requires(crate::channels::to_rgba, (frame, order->0)),
        pixels@.len() == frame@.len(),
        format is Rgba8Unorm || format is Rgba8UnormSrgb ==> pixels@ == frame@,
        format is Bgra8Unorm || format is Bgra8UnormSrgb ==> forall|i: int|
            0 <= i < frame@.len() ==> #[trigger] pixels@[i] == frame@[if i % 4 == 0 {
                i + 2
            } else if i % 4 == 2 {
                i - 2
            } else {
                i
            }],
{
}

/// Every format with four channels of one byte has an order, and no other has.
pub proof fn law_channel_order(format: TextureFormat, order: Option<ChannelOrder>)
    requires
        call_ensures(crate::channels::channel_order, (format,), order),
    ensures
        order is None <==> format is Other,
{
}

/// An image is made of the pixels that are given, in the size that is given.
pub proof fn law_image(pixels: Vec<u8>, width: u32, height: u32, image: slint::Image)
    requires
        pixels@.len() == 4 * width * height,
        call_ensures(crate::image::image_from_frame, (&pixels, width, height), image),
    ensures
        call_requires(crate::image::image_from_frame, (&pixels, width, height)),
        crate::image::image_bytes(image) == pixels@,
        crate::image::image_size(image).0 == width,
        crate::image::image_size(image).1 == height,
{
}

/// A frame of the page with a shared texture that is imported ends up in the
/// handler, texture and bind group both, through every step on the way.
pub proof fn law_painted_frame_is_kept<T, G>(
    texture: T,
    bind_group: G,
    arrived: Paint<T, G>,
    imported: Paint<T, G>,
    bindings: FrameBindings,
    bound: Paint<T, G>,
    texture_slot: &mut Option<T>,
    half_kept: Paint<T, G>,
    bind_group_slot: &mut Option<G>,
    kept: Paint<T, G>,
)
    requires
        call_ensures(
            Paint::<T, G>::on_accelerated_paint,
            (PaintElementType::View, true),
            arrived,
        ),
        call_ensures(
            Paint::<T, G>::import_finished,
            (arrived, TextureImport::Imported(texture)),
            imported,
        ),
        call_ensures(FrameBindings::standard, (), bindings),
        call_ensures(Paint::<T, G>::bind_group_created, (imported, bind_group), bound),
        call_ensures(Paint::<T, G>::keep_texture, (bound, Some(texture_slot)), half_kept),
        call_ensures(Paint::<T, G>::keep_bind_group, (half_kept, Some(bind_group_slot)), kept),
    ensures
        arrived is Import,
        imported == (Paint::<T, G>::Bind { texture, bindings }),
        bound == (Paint::<T, G>::KeepTexture { texture, bind_group }),
        *final(texture_slot) == Some(texture),
        half_kept == (Paint::<T, G>::KeepBindGroup { texture_free: true, bind_group }),
        *final(bind_group_slot) == Some(bind_group),
        kept == (Paint::<T, G>::Stored { texture_free: true, bind_group_free: true }),
{
}

/// A poisoned slot keeps neither the other from being filled nor the frame from
/// going on, and is reported.
pub proof fn law_poisoned_slots<T, G>(
    texture: T,
    bind_group: G,
    without_texture: Paint<T, G>,
    bind_group_slot: &mut Option<G>,
    only_bind_group: Paint<T, G>,
    neither: Paint<T, G>,
    texture_slot: &mut Option<T>,
    with_texture: Paint<T, G>,
    only_texture: Paint<T, G>,
)
    requires
        call_ensures(
            Paint::<T, G>::keep_texture,
            ((Paint::<T, G>::KeepTexture { texture, bind_group }), None::<&mut Option<T>>),
            without_texture,
        ),
        call_ensures(
            Paint::<T, G>::keep_bind_group,
            (without_texture, Some(bind_group_slot)),
            only_bind_group,
        ),
        call_ensures(
            Paint::<T, G>::keep_bind_group,
            (without_texture, None::<&mut Option<G>>),
            neither,
        ),
        call_ensures(
            Paint::<T, G>::keep_texture,
            ((Paint::<T, G>::KeepTexture { texture, bind_group }), Some(texture_slot)),
            with_texture,
        ),
        call_ensures(
            Paint::<T, G>::keep_bind_group,
            (with_texture, None::<&mut Option<G>>),
            only_texture,
        ),
    ensures
        *final(bind_group_slot) == Some(bind_group),
        only_bind_group == (Paint::<T, G>::Stored { texture_free: false, bind_group_free: true }),
        neither == (Paint::<T, G>::Stored { texture_free: false, bind_group_free: false }),
        *final(texture_slot) == Some(texture),
        only_texture == (Paint::<T, G>::Stored { texture_free: true, bind_group_free: false }),
{
}

/// A painted frame is taken up exactly if it is one of the page and comes with a
/// shared texture.
pub proof fn law_only_the_page_is_taken_up<T, G>(
    element: PaintElementType,
    has_info: bool,
    arrived: Paint<T, G>,
)
    requires
        call_ensures(Paint::<T, G>::on_accelerated_paint, (element, has_info), arrived),
    ensures
        arrived is Import <==> has_info && element is View,
        arrived is Ignored <==> !has_info || element is Popup,
{
}

/// A texture that cannot be imported is given up, with the message to be logged.
pub proof fn law_failed_import<T, G>(
    cause: String,
    unsupported: Paint<T, G>,
    failed: Paint<T, G>,
    unsupported_message: String,
    failed_message: String,
)
    requires
        call_ensures(
            Paint::<T, G>::import_finished,
            (Paint::<T, G>::Import, TextureImport::Unsupported),
            unsupported,
        ),
        call_ensures(
            Paint::<T, G>::import_finished,
            (Paint::<T, G>::Import, TextureImport::Failed(cause)),
            failed,
        ),
        call_ensures(PaintError::message, (&unsupported->Failed_0,), unsupported_message),
        call_ensures(PaintError::message, (&failed->Failed_0,), failed_message),
    ensures
        unsupported is Failed,
        unsupported_message@ == "Platform does not support accelerated painting"@,
        failed is Failed,
        failed_message@ == "Failed to import shared texture: "@ + cause@,
{
}

/// A frame that does not wait for a step is not changed by it, nor is the handler.
pub proof fn law_steps_out_of_turn<T, G>(
    paint: Paint<T, G>,
    import: TextureImport<T>,
    imported: Paint<T, G>,
    bind_group: G,
    bound: Paint<T, G>,
    texture_slot: &mut Option<T>,
    texture_kept: Paint<T, G>,
    bind_group_slot: &mut Option<G>,
    bind_group_kept: Paint<T, G>,
)
    requires
        call_ensures(Paint::<T, G>::import_finished, (paint, import), imported),
        call_ensures(Paint::<T, G>::bind_group_created, (paint, bind_group), bound),
        call_ensures(Paint::<T, G>::keep_texture, (paint, Some(texture_slot)), texture_kept),
        call_ensures(
            Paint::<T, G>::keep_bind_group,
            (paint, Some(bind_group_slot)),
            bind_group_kept,
        ),
    ensures
        !(paint is Import) ==> imported == paint,
        !(paint is Bind) ==> bound == paint,
        !(paint is KeepTexture) ==> texture_kept == paint && *final(texture_slot) == *old(
            texture_slot,
        ),
        !(paint is KeepBindGroup) ==> bind_group_kept == paint && *final(bind_group_slot) == *old(
            bind_group_slot,
        ),
{
}

/// A shader of the fragment stage reads the frame and its sampler from the slots
/// of their kinds, blends texels linearly, and sees the edge of the frame beyond it.
pub proof fn law_bindings(bindings: FrameBindings)
    requires
        call_ensures(FrameBindings::standard, (), bindings),
    ensures
        bindings.sampler.address_mode_u is ClampToEdge,
        bindings.sampler.address_mode_v is ClampToEdge,
        bindings.sampler.address_mode_w is ClampToEdge,
        bindings.sampler.mag_filter is Linear,
        bindings.sampler.min_filter is Linear,
        bindings.sampler.mipmap_filter is Linear,
        bindings.layout.0.binding == 0,
        bindings.layout.1.binding == 1,
        bindings.layout.0.visibility == (ShaderStages {
            vertex: false,
            fragment: true,
            compute: false,
        }),
        bindings.layout.1.visibility == bindings.layout.0.visibility,
        bindings.layout.0.count is None,
        bindings.layout.1.count is None,
        bindings.layout.0.kind == (SlotKind::Texture {
            multisampled: false,
            dimension: ViewDimension::D2,
            sample_type: SampleType::Float { filterable: true },
        }),
        bindings.layout.1.kind == (SlotKind::Sampler { filtering: true }),
        bindings.group.0.binding == bindings.layout.0.binding,
        bindings.group.1.binding == bindings.layout.1.binding,
        bindings.group.0.resource is FrameView,
        bindings.group.1.resource is Sampler,
{
}

} // verus!
