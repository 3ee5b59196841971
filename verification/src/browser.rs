//! The offscreen browser: how it is set up, what it asks of its host, and how
//! its frames are captured.
//!
//! The browser itself, the graphics device and the locks that a handler is shared
//! behind stand outside. A function here that needs a part of the handler takes
//! what locking it gave.

use vstd::prelude::*;

use crate::channels::ChannelOrder;
use crate::error::RenderError;
use crate::readback::ReadbackLayout;
use crate::readback::ReadbackPlan;
use crate::render_handler::CefRenderHandler;
use crate::render_handler::ScaleFactor;

verus! {

/// The frames per second that a page is drawn at.
pub const WINDOWLESS_FRAME_RATE: i32 = 60;

/// The system that the program runs on.
#[derive(Clone, Copy, PartialEq, Eq, Structural, Debug)]
pub enum Platform {
    MacOs,
    Windows,
    Linux,
    Other,
}

/// Whether pages are drawn into shared textures: on the platforms that have
/// them, in a program built with web views.
pub open spec fn accelerated(platform: Platform, webview: bool) -> bool {
    webview && platform != Platform::Other
}

/// What is set of a window; each field is a flag, 0 or 1.
#[derive(Clone, Copy, PartialEq, Eq, Structural, Debug)]
pub struct WindowInfo {
    pub windowless_rendering_enabled: i32,
    pub shared_texture_enabled: i32,
    pub external_begin_frame_enabled: i32,
}

/// What is set of a browser.
#[derive(Clone, Copy, PartialEq, Eq, Structural, Debug)]
pub struct BrowserSettings {
    pub windowless_frame_rate: i32,
}

/// The window of a browser that draws without one.
pub open spec fn offscreen_window(accelerated: bool) -> WindowInfo {
    let flag: i32 = if accelerated {
        1
    } else {
        0
    };
    WindowInfo {
        windowless_rendering_enabled: 1,
        shared_texture_enabled: flag,
        external_begin_frame_enabled: flag,
    }
}

/// All that is needed to create a browser.
pub struct BrowserLaunch<T, G> {
    /// The handler that the browser draws through.
    pub handler: CefRenderHandler<T, G>,
    pub window_info: WindowInfo,
    pub settings: BrowserSettings,
    /// The page to open.
    pub url: String,
}

impl<T, G> BrowserLaunch<T, G> {
    /// Prepares a browser that opens `url` in a view of `width` by `height`.
    pub fn new(
        url: &str,
        width: u32,
        height: u32,
        device_scale_factor: ScaleFactor,
        platform: Platform,
        webview: bool,
    ) -> (launch: Self)
        ensures
            launch.handler == CefRenderHandler::<T, G>::fresh(device_scale_factor, (width, height)),
            launch.window_info == offscreen_window(accelerated(platform, webview)),
            launch.settings.windowless_frame_rate == WINDOWLESS_FRAME_RATE,
            launch.url@ == url@,
    {
        let accelerated_osr: bool = match platform {
            Platform::MacOs | Platform::Windows | Platform::Linux => webview,
            Platform::Other => false,
        };
        let flag: i32 = if accelerated_osr {
            1
        } else {
            0
        };
        BrowserLaunch {
            handler: CefRenderHandler::new(device_scale_factor, (width, height)),
            window_info: WindowInfo {
                windowless_rendering_enabled: 1,
                shared_texture_enabled: flag,
                external_begin_frame_enabled: flag,
            },
            settings: BrowserSettings { windowless_frame_rate: WINDOWLESS_FRAME_RATE },
            url: url.to_owned(),
        }
    }

    /// Makes an offscreen browser of what creating it gave, in a view of the size
    /// that the handler has.
    pub fn created<B>(&self, browser: Option<B>) -> (r: Result<CefOffscreenBrowser<B>, RenderError>)
        ensures
            match browser {
                Some(b) => {
                    &&& r is Ok
                    &&& r->Ok_0@ == (BrowserState { browser: b, size: self.handler.size })
                    &&& in_step(r->Ok_0@, self.handler)
                },
                None => r == Err::<CefOffscreenBrowser<B>, RenderError>(
                    RenderError::BrowserCreation,
                ),
            },
    {
        CefOffscreenBrowser::new(browser, self.handler.size.0, self.handler.size.1)
    }
}

/// What the host of a browser is to do.
#[derive(Clone, Copy, PartialEq, Eq, Structural, Debug)]
pub enum HostCommand {
    /// Take notice that the view has another size.
    WasResized,
    /// Begin a frame.
    SendExternalBeginFrame,
    /// Close the browser, by force where the flag is not 0.
    CloseBrowser { force_close: i32 },
}

/// Addresses what is to be done to whom it is for, the host or the main frame of
/// a browser. Without one there is nothing to do.
pub fn addressed<R, C>(receiver: Option<R>, task: C) -> (r: Option<(R, C)>)
    ensures
        r == (match receiver {
            Some(receiver) => Some((receiver, task)),
            None => None::<(R, C)>,
        }),
{
    match receiver {
        Some(receiver) => Some((receiver, task)),
        None => None,
    }
}

/// What an offscreen browser holds; `B` is the handle of the browser.
#[verifier::ext_equal]
pub struct BrowserState<B> {
    pub browser: B,
    pub size: (u32, u32),
}

/// An offscreen browser whose frames can be captured.
pub struct CefOffscreenBrowser<B> {
    browser: Option<B>,
    size: (u32, u32),
}

impl<B> View for CefOffscreenBrowser<B> {
    type V = BrowserState<B>;

    closed spec fn view(&self) -> BrowserState<B> {
        BrowserState { browser: self.browser->0, size: self.size }
    }
}

/// The browser and its handler agree on the size of the view.
pub open spec fn in_step<B, T, G>(
    browser: BrowserState<B>,
    handler: CefRenderHandler<T, G>,
) -> bool {
    browser.size == handler.size
}

impl<B> BrowserState<B> {
    /// The state with another view size.
    pub open spec fn resized(self, width: u32, height: u32) -> Self {
        BrowserState { size: (width, height), ..self }
    }

    /// Whether a frame of the view can be read back.
    pub open spec fn can_capture(self) -> bool {
        crate::readback::fits(self.size.0 as nat, self.size.1 as nat)
    }

    /// The frame that a mapped readback buffer holds, with its channels as the
    /// texture has them.
    pub open spec fn frame(self, data: Seq<u8>) -> Seq<u8> {
        crate::readback::frame_of(data, self.size.0 as nat, self.size.1 as nat)
    }

    /// Its pixels in RGBA order, of a texture that holds them in `order`.
    pub open spec fn pixels(self, data: Seq<u8>, order: ChannelOrder) -> Seq<u8> {
        crate::channels::rgba_of(self.frame(data), order)
    }

    /// How much of the buffer that frame is read from.
    pub open spec fn mapped_bytes(self) -> nat {
        crate::readback::rows_end(self.size.0 as nat, self.size.1 as nat)
    }
}

impl<B> CefOffscreenBrowser<B> {
    #[verifier::type_invariant]
    spec fn wf(self) -> bool {
        self.browser is Some
    }

    /// Makes an offscreen browser of what creating it gave.
    pub fn new(browser: Option<B>, width: u32, height: u32) -> (r: Result<Self, RenderError>)
        ensures
            match browser {
                Some(b) => r is Ok && r->Ok_0@ == (BrowserState { browser: b, size: (width, height) }),
                None => r == Err::<Self, RenderError>(RenderError::BrowserCreation),
            },
    {
        if browser.is_none() {
            return Err(RenderError::BrowserCreation);
        }
        Ok(CefOffscreenBrowser { browser, size: (width, height) })
    }

    /// Bind group of the last frame. The slot is `None` where it, or the handler,
    /// could not be locked.
    pub fn get_texture<G: Clone>(&self, bind_group_slot: Option<&Option<G>>) -> (r: Option<G>)
        ensures
            r is Some <==> bind_group_slot is Some && *bind_group_slot->0 is Some,
            r is Some ==> cloned(bind_group_slot->0->0, r->0),
    {
        crate::render_handler::current(bind_group_slot)
    }

    /// Gives the view another size, in the handler too unless that is `None`,
    /// its lock being poisoned. The host of the browser is to be told.
    pub fn resize(
        &mut self,
        handler_size: Option<&mut (u32, u32)>,
        width: u32,
        height: u32,
    ) -> (call: Option<(&B, HostCommand)>)
        ensures
            final(self)@ == old(self)@.resized(width, height),
            match handler_size {
                Some(size) => *final(size) == (width, height),
                None => true,
            },
            call == Some((&old(self)@.browser, HostCommand::WasResized)),
    {
        proof {
            use_type_invariant(&*self);
        }
        self.size = (width, height);
        if let Some(size) = handler_size {
            *size = (width, height);
        }
        match &self.browser {
            Some(browser) => Some((browser, HostCommand::WasResized)),
            None => None,
        }
    }

    /// Asks the host of the browser for a frame.
    pub fn send_frame(&self) -> (call: Option<(&B, HostCommand)>)
        ensures
            call == Some((&self@.browser, HostCommand::SendExternalBeginFrame)),
    {
        proof {
            use_type_invariant(self);
        }
        match &self.browser {
            Some(browser) => Some((browser, HostCommand::SendExternalBeginFrame)),
            None => None,
        }
    }

    /// Sends the main frame of the browser to another page.
    pub fn load_url(&self, url: &str) -> (call: Option<(&B, String)>)
        ensures
            call matches Some((browser, page)) && browser == &self@.browser && page@ == url@,
    {
        proof {
            use_type_invariant(self);
        }
        match &self.browser {
            Some(browser) => Some((browser, url.to_owned())),
            None => None,
        }
    }

    /// Has the host close the browser, not by force.
    pub fn close(&self) -> (call: Option<(&B, HostCommand)>)
        ensures
            call == Some((&self@.browser, HostCommand::CloseBrowser { force_close: 0 })),
    {
        proof {
            use_type_invariant(self);
        }
        match &self.browser {
            Some(browser) => Some((browser, HostCommand::CloseBrowser { force_close: 0 })),
            None => None,
        }
    }

    /// The underlying browser.
    pub fn browser(&self) -> (r: Option<&B>)
        ensures
            r == Some(&self@.browser),
    {
        proof {
            use_type_invariant(self);
        }
        self.browser.as_ref()
    }

    /// Tells whether a frame of the view can be read back.
    pub fn can_capture(&self) -> (r: bool)
        ensures
            r == self@.can_capture(),
    {
        ReadbackLayout::fits(self.size.0, self.size.1)
    }

    /// Begins to capture the current frame: gives its texture and how to read
    /// that back. The slot of the texture is an error text where the handler could
    /// not be locked, and `None` where the slot could not.
    pub fn begin_capture<T: Clone>(
        &self,
        texture_slot: Result<Option<&Option<T>>, String>,
    ) -> (r: Result<(T, ReadbackPlan), RenderError>)
        requires
            texture_slot matches Ok(Some(Some(_))) ==> self@.can_capture(),
        ensures
            match texture_slot {
                Err(cause) => r == Err::<(T, ReadbackPlan), RenderError>(
                    RenderError::HandlerLock(cause),
                ),
                Ok(Some(Some(texture))) => {
                    &&& r is Ok
                    &&& cloned(*texture, r->Ok_0.0)
                    &&& r->Ok_0.1.is_of(self@.size.0, self@.size.1)
                },
                Ok(_) => r == Err::<(T, ReadbackPlan), RenderError>(RenderError::NoTexture),
            },
    {
        match texture_slot {
            Err(cause) => Err(RenderError::HandlerLock(cause)),
            Ok(slot) => match crate::render_handler::current(slot) {
                None => Err(RenderError::NoTexture),
                Some(texture) => {
                    let (width, height): (u32, u32) = self.size;
                    Ok((texture, ReadbackLayout::new(width, height).plan()))
                },
            },
        }
    }

    /// Captures the frame as raw RGBA pixels, four bytes each, with its width and
    /// height. `order` is the one that the texture holds its channels in.
    /// `mapped` is what came of mapping the readback buffer: its bytes, or the
    /// text of the error of the mapping, or that of its result not arriving.
    pub fn capture_frame_pixels(
        &self,
        order: ChannelOrder,
        mapped: Result<Result<&[u8], String>, String>,
    ) -> (r: Result<(Vec<u8>, u32, u32), RenderError>)
        requires
            mapped matches Ok(Ok(data)) ==> self@.can_capture() && data@.len()
                >= self@.mapped_bytes(),
        ensures
            match mapped {
                Err(cause) => r == Err::<(Vec<u8>, u32, u32), RenderError>(
                    RenderError::MapResultLost(cause),
                ),
                Ok(Err(cause)) => r == Err::<(Vec<u8>, u32, u32), RenderError>(
                    RenderError::BufferMapping(cause),
                ),
                Ok(Ok(data)) => {
                    &&& r is Ok
                    &&& r->Ok_0.0@ == self@.pixels(data@, order)
                    &&& r->Ok_0.1 == self@.size.0
                    &&& r->Ok_0.2 == self@.size.1
                },
            },
    {
        match mapped {
            Err(cause) => Err(RenderError::MapResultLost(cause)),
            Ok(Err(cause)) => Err(RenderError::BufferMapping(cause)),
            Ok(Ok(data)) => {
                let (width, height): (u32, u32) = self.size;
                let frame: Vec<u8> = ReadbackLayout::new(width, height).unpad(data);
                proof {
                    crate::readback::lemma_frame_length(data@, width as nat, height as nat);
                }
                let rgba_data: Vec<u8> = crate::channels::to_rgba(frame, order);
                Ok((rgba_data, width, height))
            },
        }
    }

    /// Captures the frame as a Slint image. `order` and `mapped` are as for
    /// [`CefOffscreenBrowser::capture_frame_pixels`].
    pub fn capture_frame(
        &self,
        order: ChannelOrder,
        mapped: Result<Result<&[u8], String>, String>,
    ) -> (r: Result<slint::Image, RenderError>)
        requires
            mapped matches Ok(Ok(data)) ==> self@.can_capture() && data@.len()
                >= self@.mapped_bytes(),
        ensures
            match mapped {
                Err(cause) => r == Err::<slint::Image, RenderError>(
                    RenderError::MapResultLost(cause),
                ),
                Ok(Err(cause)) => r == Err::<slint::Image, RenderError>(
                    RenderError::BufferMapping(cause),
                ),
                Ok(Ok(data)) => {
                    &&& r is Ok
                    &&& crate::image::image_bytes(r->Ok_0) == self@.pixels(data@, order)
                    &&& crate::image::image_size(r->Ok_0) == self@.size
                },
            },
    {
        match self.capture_frame_pixels(order, mapped) {
            Err(error) => Err(error),
            Ok((rgba_data, width, height)) => {
                Ok(crate::image::image_from_frame(&rgba_data, width, height))
            },
        }
    }
}

/// What the browser draws is what is captured. Where the readback buffer was
/// filled from the texture as [`CefOffscreenBrowser::begin_capture`] planned it,
/// the captured pixels are red, green, blue and alpha of each texel, in whichever
/// order the texture holds them. `picture` has four bytes for each texel, row by
/// row: its red, green, blue and alpha.
pub proof fn lemma_captured_frame<B>(
    browser: BrowserState<B>,
    plan: crate::readback::ReadbackPlan,
    order: ChannelOrder,
    picture: Seq<u8>,
    data: Seq<u8>,
)
    requires
        plan.is_of(browser.size.0, browser.size.1),
        picture.len() == browser.size.0 * browser.size.1 * 4,
        data.len() == plan.buffer.size,
        forall|x: int, y: int, c: int|
            0 <= x < browser.size.0 && 0 <= y < browser.size.1 && 0 <= c < 4
                ==> #[trigger] data[plan.copy.offset + y * plan.copy.bytes_per_row->0 + 4 * x
                + order.place(c)] == picture[4 * (y * browser.size.0 + x) + c],
    ensures
        data.len() >= browser.mapped_bytes(),
        browser.pixels(data, order) == picture,
{
    let w = browser.size.0 as nat;
    let h = browser.size.1 as nat;
    crate::readback::lemma_frame_within_buffer(w, h);
    crate::readback::lemma_frame_length(data, w, h);
    let frame = browser.frame(data);
    let pixels = browser.pixels(data, order);
    assert forall|i: int| 0 <= i < picture.len() implies pixels[i] == picture[i] by {
        let n = i / 4;
        let c = i % 4;
        assert(w > 0 && n < h * w) by (nonlinear_arith)
            requires
                0 <= i < w * h * 4,
                n == i / 4,
                w >= 0,
                h >= 0,
        ;
        let y = n / (w as int);
        let x = n % (w as int);
        assert(0 <= y < h && 0 <= x < w && y * w + x == n) by (nonlinear_arith)
            requires
                w > 0,
                0 <= n < h * w,
                y == n / (w as int),
                x == n % (w as int),
        ;
        crate::channels::lemma_channels(frame, order, n, c);
        crate::readback::lemma_pixel_position(data, w, h, x, y, order.place(c));
        assert(data[plan.copy.offset + y * plan.copy.bytes_per_row->0 + 4 * x + order.place(c)]
            == picture[4 * (y * browser.size.0 + x) + c]);
    }
    assert(pixels =~= picture);
}

} // verus!
