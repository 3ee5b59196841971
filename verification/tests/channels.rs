use cef_renderer::channels::{channel_order, to_rgba, ChannelOrder, TextureFormat};

#[test]
fn rgba_stays_as_it_is() {
    let frame = vec![1, 2, 3, 4, 5, 6, 7, 8];
    assert_eq!(to_rgba(frame.clone(), ChannelOrder::Rgba), frame);
}

#[test]
fn bgra_has_red_and_blue_exchanged() {
    assert_eq!(
        to_rgba(vec![30, 20, 10, 255, 3, 2, 1, 0], ChannelOrder::Bgra),
        vec![10, 20, 30, 255, 1, 2, 3, 0]
    );
}

#[test]
fn no_pixels_in_any_order() {
    assert_eq!(to_rgba(Vec::new(), ChannelOrder::Rgba), Vec::<u8>::new());
    assert_eq!(to_rgba(Vec::new(), ChannelOrder::Bgra), Vec::<u8>::new());
}

#[test]
fn exchanging_twice_changes_nothing() {
    let frame: Vec<u8> = (0..=255).collect();
    for order in [ChannelOrder::Rgba, ChannelOrder::Bgra] {
        let once = to_rgba(frame.clone(), order);
        assert_eq!(once.len(), frame.len());
        assert_eq!(to_rgba(once, order), frame);
    }
}

#[test]
fn every_channel_has_its_place() {
    let frame: Vec<u8> = (0..=255).collect();
    let pixels = to_rgba(frame.clone(), ChannelOrder::Bgra);
    for pixel in 0..64 {
        for (c, place) in [2usize, 1, 0, 3].into_iter().enumerate() {
            assert_eq!(pixels[4 * pixel + c], frame[4 * pixel + place]);
        }
    }
}

#[test]
fn formats_tell_the_order() {
    for (format, order) in [
        (TextureFormat::Rgba8Unorm, Some(ChannelOrder::Rgba)),
        (TextureFormat::Rgba8UnormSrgb, Some(ChannelOrder::Rgba)),
        (TextureFormat::Bgra8Unorm, Some(ChannelOrder::Bgra)),
        (TextureFormat::Bgra8UnormSrgb, Some(ChannelOrder::Bgra)),
        (TextureFormat::Other, None),
    ] {
        assert_eq!(channel_order(format), order);
    }
}
