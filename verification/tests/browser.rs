use cef_renderer::browser::{
    addressed, BrowserLaunch, BrowserSettings, CefOffscreenBrowser, HostCommand, Platform,
    WindowInfo,
};
use cef_renderer::channels::ChannelOrder;
use cef_renderer::error::RenderError;
use cef_renderer::paint::{Paint, PaintElementType, TextureImport};
use cef_renderer::render_handler::{view_rect, Rect, ScaleFactor};

type Launch = BrowserLaunch<u8, u16>;

const SCALE: ScaleFactor = ScaleFactor { bits: 0x4000_0000 };

fn launch(platform: Platform, webview: bool) -> Launch {
    Launch::new("https://slint.dev/", 800, 600, SCALE, platform, webview)
}

fn browser(width: u32, height: u32) -> CefOffscreenBrowser<char> {
    CefOffscreenBrowser::new(Some('b'), width, height).unwrap()
}

fn shown(size: (u32, u32)) -> (i32, i32) {
    let mut rect = Rect {
        x: 0,
        y: 0,
        width: 0,
        height: 0,
    };
    view_rect(size, Some(&mut rect));
    (rect.width, rect.height)
}

/// Two rows of two pixels, 256 bytes apart, with noise in the padding.
fn mapped() -> Vec<u8> {
    let mut data = vec![0xee; 512];
    data[0..8].copy_from_slice(&[1, 2, 3, 4, 5, 6, 7, 8]);
    data[256..264].copy_from_slice(&[11, 12, 13, 14, 15, 16, 17, 18]);
    data
}

const FRAME: [u8; 16] = [1, 2, 3, 4, 5, 6, 7, 8, 11, 12, 13, 14, 15, 16, 17, 18];

#[test]
fn launch_with_shared_textures() {
    for platform in [Platform::MacOs, Platform::Windows, Platform::Linux] {
        assert_eq!(
            launch(platform, true).window_info,
            WindowInfo {
                windowless_rendering_enabled: 1,
                shared_texture_enabled: 1,
                external_begin_frame_enabled: 1,
            }
        );
    }
}

#[test]
fn launch_without_shared_textures() {
    for (platform, webview) in [
        (Platform::MacOs, false),
        (Platform::Windows, false),
        (Platform::Linux, false),
        (Platform::Other, false),
        (Platform::Other, true),
    ] {
        assert_eq!(
            launch(platform, webview).window_info,
            WindowInfo {
                windowless_rendering_enabled: 1,
                shared_texture_enabled: 0,
                external_begin_frame_enabled: 0,
            }
        );
    }
}

#[test]
fn launch_opens_the_page_at_sixty_frames() {
    let launch = launch(Platform::Linux, true);
    assert_eq!(
        launch.settings,
        BrowserSettings {
            windowless_frame_rate: 60
        }
    );
    assert_eq!(launch.url, "https://slint.dev/");
}

#[test]
fn launch_makes_a_handler_of_the_view() {
    let launch = launch(Platform::Linux, true);
    assert_eq!(launch.handler.device_scale_factor, SCALE);
    assert_eq!(launch.handler.size, (800, 600));
    assert_eq!(launch.handler.get_current_texture(), None);
    assert_eq!(launch.handler.get_current_bind_group(), None);
}

#[test]
fn a_launched_browser_has_the_size_of_its_handler() {
    let launch = launch(Platform::Linux, true);
    let browser = launch.created(Some('b')).unwrap();
    assert_eq!(browser.browser(), Some(&'b'));
    let (_, plan) = browser.begin_capture(Ok(Some(&Some(1)))).unwrap();
    assert_eq!(plan.copy.extent, (800, 600, 1));
    assert_eq!(launch.handler.size, (800, 600));
    assert!(matches!(
        launch.created(None::<char>),
        Err(RenderError::BrowserCreation)
    ));
}

#[test]
fn a_browser_that_was_not_created_is_an_error() {
    match CefOffscreenBrowser::<char>::new(None, 800, 600) {
        Err(error) => {
            assert!(matches!(error, RenderError::BrowserCreation));
            assert_eq!(error.message(), "Failed to create CEF browser");
        }
        Ok(_) => panic!("a browser of nothing"),
    }
}

#[test]
fn a_browser_that_was_created_is_held() {
    assert_eq!(browser(800, 600).browser(), Some(&'b'));
}

#[test]
fn commands_of_a_browser() {
    let browser = browser(800, 600);
    assert_eq!(
        browser.send_frame(),
        Some((&'b', HostCommand::SendExternalBeginFrame))
    );
    assert_eq!(
        browser.load_url("about:blank"),
        Some((&'b', "about:blank".to_string()))
    );
    assert_eq!(
        browser.close(),
        Some((&'b', HostCommand::CloseBrowser { force_close: 0 }))
    );
}

#[test]
fn commands_address_their_own_browser() {
    let first = CefOffscreenBrowser::new(Some(1), 4, 4).unwrap();
    let second = CefOffscreenBrowser::new(Some(2), 4, 4).unwrap();
    assert_eq!(first.send_frame().unwrap().0, &1);
    assert_eq!(second.send_frame().unwrap().0, &2);
    assert_eq!(first.close().unwrap().0, &1);
    assert_eq!(second.close().unwrap().0, &2);
}

#[test]
fn nothing_is_done_without_a_receiver() {
    assert_eq!(
        addressed(Some("host"), HostCommand::WasResized),
        Some(("host", HostCommand::WasResized))
    );
    assert_eq!(addressed(None::<&str>, HostCommand::WasResized), None);
}

#[test]
fn get_texture_gives_the_bind_group() {
    let browser = browser(800, 600);
    assert_eq!(browser.get_texture::<u16>(Some(&None)), None);
    assert_eq!(browser.get_texture(Some(&Some(2))), Some(2));
    assert_eq!(browser.get_texture::<u16>(None), None);
}

#[test]
fn resize_reaches_browser_and_handler() {
    let mut browser = browser(2, 2);
    let mut size = (2, 2);
    assert_eq!(
        browser.resize(Some(&mut size), 65, 3),
        Some((&'b', HostCommand::WasResized))
    );
    assert_eq!(size, (65, 3));
    assert_eq!(shown(size), (65, 3));
    let (texture, plan) = browser.begin_capture(Ok(Some(&Some(1)))).unwrap();
    assert_eq!(texture, 1);
    assert_eq!(plan.copy.extent, (65, 3, 1));
    assert_eq!(plan.buffer.size, 1536);
    assert_eq!(browser.browser(), Some(&'b'));
}

#[test]
fn resize_goes_on_where_the_handler_cannot_be_locked() {
    let mut browser = browser(800, 600);
    assert_eq!(
        browser.resize(None, 2, 2),
        Some((&'b', HostCommand::WasResized))
    );
    let data = mapped();
    let (pixels, width, height) = browser
        .capture_frame_pixels(ChannelOrder::Rgba, Ok(Ok(&data)))
        .unwrap();
    assert_eq!((pixels.as_slice(), width, height), (&FRAME[..], 2, 2));
}

#[test]
fn begin_capture_plans_the_readback() {
    let (texture, plan) = browser(2, 2).begin_capture(Ok(Some(&Some(1)))).unwrap();
    assert_eq!(texture, 1);
    assert_eq!(plan.buffer.size, 512);
    assert!(plan.buffer.copy_dst && plan.buffer.map_read && !plan.buffer.mapped_at_creation);
    assert_eq!(plan.copy.bytes_per_row, Some(256));
    assert_eq!(plan.copy.rows_per_image, Some(2));
    assert_eq!(plan.copy.extent, (2, 2, 1));
}

#[test]
fn begin_capture_needs_the_lock() {
    let error = browser(2, 2)
        .begin_capture::<u8>(Err("poisoned lock".to_string()))
        .unwrap_err();
    assert!(matches!(error, RenderError::HandlerLock(_)));
    assert_eq!(
        error.message(),
        "Failed to lock render handler: poisoned lock"
    );
}

#[test]
fn begin_capture_needs_a_frame() {
    for slot in [Some(&None::<u8>), None] {
        let error = browser(2, 2).begin_capture(Ok(slot)).unwrap_err();
        assert!(matches!(error, RenderError::NoTexture));
        assert_eq!(error.message(), "No texture available");
    }
}

#[test]
fn begin_capture_without_a_frame_does_not_mind_the_size() {
    let browser = browser(u32::MAX, u32::MAX);
    assert!(!browser.can_capture());
    assert!(matches!(
        browser.begin_capture(Ok(Some(&None::<u8>))),
        Err(RenderError::NoTexture)
    ));
}

#[test]
fn can_capture_goes_by_the_size() {
    assert!(browser(1920, 1080).can_capture());
    assert!(browser(0, 0).can_capture());
    assert!(!browser(40_000, 40_000).can_capture());
    assert!(!browser(u32::MAX, 1).can_capture());
}

#[test]
fn captured_pixels_have_no_padding() {
    let data = mapped();
    let (pixels, width, height) = browser(2, 2)
        .capture_frame_pixels(ChannelOrder::Rgba, Ok(Ok(&data)))
        .unwrap();
    assert_eq!(pixels, FRAME);
    assert_eq!((width, height), (2, 2));
}

#[test]
fn captured_pixels_are_rgba_whatever_the_texture() {
    let mut data = vec![0; 256];
    data[..4].copy_from_slice(&[30, 20, 10, 255]);
    let browser = browser(1, 1);
    assert_eq!(
        browser
            .capture_frame_pixels(ChannelOrder::Bgra, Ok(Ok(&data)))
            .unwrap(),
        (vec![10, 20, 30, 255], 1, 1)
    );
    assert_eq!(
        browser
            .capture_frame_pixels(ChannelOrder::Rgba, Ok(Ok(&data)))
            .unwrap(),
        (vec![30, 20, 10, 255], 1, 1)
    );
}

#[test]
fn a_picture_is_captured_in_both_orders() {
    let (width, height) = (65usize, 3usize);
    let picture: Vec<u8> = (0..width * height * 4).map(|i| (i % 249) as u8).collect();
    for (order, place) in [
        (ChannelOrder::Rgba, [0usize, 1, 2, 3]),
        (ChannelOrder::Bgra, [2, 1, 0, 3]),
    ] {
        let mut data = vec![0xee; 512 * height];
        for y in 0..height {
            for x in 0..width {
                for c in 0..4 {
                    data[y * 512 + 4 * x + place[c]] = picture[4 * (y * width + x) + c];
                }
            }
        }
        let browser = browser(width as u32, height as u32);
        let (pixels, _, _) = browser.capture_frame_pixels(order, Ok(Ok(&data))).unwrap();
        assert_eq!(pixels, picture);
        let image = browser.capture_frame(order, Ok(Ok(&data))).unwrap();
        assert_eq!(image.to_rgba8().unwrap().as_bytes(), picture);
    }
}

#[test]
fn a_lost_map_result_is_an_error() {
    let browser = browser(2, 2);
    let lost = || Err("oneshot canceled".to_string());
    let text = "Failed to receive map result: oneshot canceled";
    let error = browser
        .capture_frame_pixels(ChannelOrder::Rgba, lost())
        .unwrap_err();
    assert!(matches!(error, RenderError::MapResultLost(_)));
    assert_eq!(error.message(), text);
    let error = browser
        .capture_frame(ChannelOrder::Bgra, lost())
        .unwrap_err();
    assert!(matches!(error, RenderError::MapResultLost(_)));
    assert_eq!(error.message(), text);
}

#[test]
fn a_failed_mapping_is_an_error() {
    let browser = browser(2, 2);
    let failed = || Ok(Err("BufferAsyncError".to_string()));
    let text = "Failed to map buffer: BufferAsyncError";
    let error = browser
        .capture_frame_pixels(ChannelOrder::Rgba, failed())
        .unwrap_err();
    assert!(matches!(error, RenderError::BufferMapping(_)));
    assert_eq!(error.message(), text);
    let error = browser
        .capture_frame(ChannelOrder::Bgra, failed())
        .unwrap_err();
    assert!(matches!(error, RenderError::BufferMapping(_)));
    assert_eq!(error.message(), text);
}

#[test]
fn a_captured_image_holds_the_frame() {
    let data = mapped();
    let image = browser(2, 2)
        .capture_frame(ChannelOrder::Rgba, Ok(Ok(&data)))
        .unwrap();
    assert_eq!((image.size().width, image.size().height), (2, 2));
    let buffer = image.to_rgba8().unwrap();
    assert_eq!((buffer.width(), buffer.height()), (2, 2));
    assert_eq!(buffer.as_bytes(), FRAME);
    let pixel = buffer.as_slice()[3];
    assert_eq!((pixel.r, pixel.g, pixel.b, pixel.a), (15, 16, 17, 18));
}

#[test]
fn a_captured_image_has_red_and_blue_in_place() {
    let data = mapped();
    let image = browser(2, 2)
        .capture_frame(ChannelOrder::Bgra, Ok(Ok(&data)))
        .unwrap();
    let buffer = image.to_rgba8().unwrap();
    let pixel = buffer.as_slice()[0];
    assert_eq!((pixel.r, pixel.g, pixel.b, pixel.a), (3, 2, 1, 4));
    let pixel = buffer.as_slice()[3];
    assert_eq!((pixel.r, pixel.g, pixel.b, pixel.a), (17, 16, 15, 18));
}

#[test]
fn a_captured_image_is_as_wide_as_the_view() {
    let data: Vec<u8> = (0..=255).collect();
    let image = browser(3, 1)
        .capture_frame(ChannelOrder::Rgba, Ok(Ok(&data)))
        .unwrap();
    assert_eq!((image.size().width, image.size().height), (3, 1));
    assert_eq!(image.to_rgba8().unwrap().as_bytes(), &data[..12]);
}

#[test]
fn image_and_pixels_agree() {
    let data: Vec<u8> = (0..1536).map(|i| (i % 253) as u8).collect();
    let browser = browser(65, 3);
    for order in [ChannelOrder::Rgba, ChannelOrder::Bgra] {
        let (pixels, width, height) = browser.capture_frame_pixels(order, Ok(Ok(&data))).unwrap();
        let image = browser.capture_frame(order, Ok(Ok(&data))).unwrap();
        assert_eq!((image.size().width, image.size().height), (width, height));
        assert_eq!(image.to_rgba8().unwrap().as_bytes(), pixels);
    }
}

#[test]
fn an_image_of_an_empty_view() {
    let image = browser(0, 4)
        .capture_frame(ChannelOrder::Bgra, Ok(Ok(&[])))
        .unwrap();
    assert_eq!((image.size().width, image.size().height), (0, 4));
    assert_eq!(image.to_rgba8().unwrap().as_bytes(), &[] as &[u8]);
}

#[test]
fn a_run_of_resizes_and_paints() {
    let launch = launch(Platform::Linux, true);
    let mut browser = launch.created(Some('b')).unwrap();
    let mut handler = launch.handler;
    assert_eq!(handler.size, (800, 600));
    for (step, (width, height)) in [(10u32, 20u32), (1, 1), (300, 200)].into_iter().enumerate() {
        let (texture, bind_group) = (step as u8, 100 + step as u16);
        assert_eq!(
            handler.get_current_texture().is_some(),
            handler.get_current_bind_group().is_some()
        );
        Paint::on_accelerated_paint(PaintElementType::View, true)
            .import_finished(TextureImport::Imported(texture))
            .bind_group_created(bind_group)
            .keep_texture(Some(&mut handler.current_texture))
            .keep_bind_group(Some(&mut handler.current_bind_group));
        browser.resize(Some(&mut handler.size), width, height);
        let slot = Ok(Some(&handler.current_texture));
        let (captured, plan) = browser.begin_capture(slot).unwrap();
        assert_eq!(captured, texture);
        assert_eq!(plan.copy.extent, (width, height, 1));
        assert_eq!(handler.size, (width, height));
        assert_eq!(shown(handler.size), (width as i32, height as i32));
        assert_eq!(handler.get_current_texture(), Some(texture));
        assert_eq!(
            browser.get_texture(Some(&handler.current_bind_group)),
            Some(bind_group)
        );
        assert_eq!(handler.device_scale_factor, SCALE);
        assert_eq!(browser.browser(), Some(&'b'));
    }
}
