use cef_renderer::bindings::{
    AddressMode, FilterMode, FrameBindings, GroupSlot, LayoutSlot, Resource, SampleType,
    SamplerPlan, ShaderStages, SlotKind, ViewDimension,
};
use cef_renderer::error::PaintError;
use cef_renderer::paint::{Paint, PaintElementType, TextureImport};

fn imported(texture: u8) -> Paint<u8, u16> {
    Paint::on_accelerated_paint(PaintElementType::View, true)
        .import_finished(TextureImport::Imported(texture))
}

#[test]
fn only_the_page_with_a_texture_is_handled() {
    let begin = Paint::<u8, u16>::on_accelerated_paint;
    assert!(matches!(begin(PaintElementType::View, true), Paint::Import));
    assert!(matches!(begin(PaintElementType::View, false), Paint::Ignored));
    assert!(matches!(begin(PaintElementType::Popup, true), Paint::Ignored));
    assert!(matches!(begin(PaintElementType::Popup, false), Paint::Ignored));
}

#[test]
fn a_painted_frame_is_stored() {
    let (mut texture, mut bind_group) = (None, None);
    let paint = imported(5);
    match &paint {
        Paint::Bind { texture, bindings } => {
            assert_eq!(*texture, 5);
            assert_eq!(*bindings, FrameBindings::standard());
        }
        other => panic!("{:?}", other),
    }
    let paint = paint.bind_group_created(6)
        .keep_texture(Some(&mut texture))
        .keep_bind_group(Some(&mut bind_group));
    assert!(matches!(
        paint,
        Paint::Stored {
            texture_free: true,
            bind_group_free: true
        }
    ));
    assert_eq!((texture, bind_group), (Some(5), Some(6)));
}

#[test]
fn texture_and_bind_group_are_kept_one_after_the_other() {
    let (mut texture, mut bind_group) = (None, None);
    let paint = imported(5).bind_group_created(6);
    assert!(matches!(
        paint,
        Paint::KeepTexture {
            texture: 5,
            bind_group: 6
        }
    ));
    let paint = paint.keep_bind_group(Some(&mut bind_group));
    assert_eq!(bind_group, None);
    let paint = paint.keep_texture(Some(&mut texture));
    assert_eq!((texture, bind_group), (Some(5), None));
    assert!(matches!(
        paint,
        Paint::KeepBindGroup {
            texture_free: true,
            bind_group: 6
        }
    ));
    paint.keep_bind_group(Some(&mut bind_group));
    assert_eq!((texture, bind_group), (Some(5), Some(6)));
}

#[test]
fn the_last_frame_counts() {
    let (mut texture, mut bind_group) = (None, None);
    imported(1).bind_group_created(2)
        .keep_texture(Some(&mut texture))
        .keep_bind_group(Some(&mut bind_group));
    imported(3).bind_group_created(4)
        .keep_texture(Some(&mut texture))
        .keep_bind_group(Some(&mut bind_group));
    assert_eq!((texture, bind_group), (Some(3), Some(4)));
}

#[test]
fn a_poisoned_texture_slot_does_not_keep_out_the_bind_group() {
    let mut bind_group = Some(1);
    let paint = imported(5).bind_group_created(6)
        .keep_texture(None)
        .keep_bind_group(Some(&mut bind_group));
    assert!(matches!(
        paint,
        Paint::Stored {
            texture_free: false,
            bind_group_free: true
        }
    ));
    assert_eq!(bind_group, Some(6));
}

#[test]
fn a_poisoned_bind_group_slot_does_not_keep_out_the_texture() {
    let mut texture = Some(1);
    let paint = imported(5).bind_group_created(6)
        .keep_texture(Some(&mut texture))
        .keep_bind_group(None);
    assert!(matches!(
        paint,
        Paint::Stored {
            texture_free: true,
            bind_group_free: false
        }
    ));
    assert_eq!(texture, Some(5));
}

#[test]
fn a_frame_is_lost_where_no_slot_can_be_locked() {
    let paint = imported(5).bind_group_created(6)
        .keep_texture(None)
        .keep_bind_group(None);
    assert!(matches!(
        paint,
        Paint::Stored {
            texture_free: false,
            bind_group_free: false
        }
    ));
}

#[test]
fn an_unsupported_platform_fails() {
    let (mut texture, mut bind_group) = (Some(1), Some(2));
    let paint = Paint::on_accelerated_paint(PaintElementType::View, true)
        .import_finished(TextureImport::Unsupported)
        .bind_group_created(6)
        .keep_texture(Some(&mut texture))
        .keep_bind_group(Some(&mut bind_group));
    match paint {
        Paint::Failed(error) => {
            assert!(matches!(error, PaintError::Unsupported));
            assert_eq!(
                error.message(),
                "Platform does not support accelerated painting"
            );
        }
        other => panic!("{:?}", other),
    }
    assert_eq!((texture, bind_group), (Some(1u8), Some(2)));
}

#[test]
fn a_failed_import_fails() {
    let (mut texture, mut bind_group) = (None, None);
    let paint = Paint::<u8, u16>::on_accelerated_paint(PaintElementType::View, true)
        .import_finished(TextureImport::Failed("UnsupportedPlatform".to_string()))
        .bind_group_created(6)
        .keep_texture(Some(&mut texture))
        .keep_bind_group(Some(&mut bind_group));
    match paint {
        Paint::Failed(error) => assert_eq!(
            error.message(),
            "Failed to import shared texture: UnsupportedPlatform"
        ),
        other => panic!("{:?}", other),
    }
    assert_eq!((texture, bind_group), (None, None));
}

#[test]
fn an_ignored_frame_changes_nothing() {
    let (mut texture, mut bind_group) = (None, Some(2));
    let paint = Paint::on_accelerated_paint(PaintElementType::Popup, true)
        .import_finished(TextureImport::Imported(5u8))
        .bind_group_created(6)
        .keep_texture(Some(&mut texture))
        .keep_bind_group(Some(&mut bind_group));
    assert!(matches!(paint, Paint::Ignored));
    assert_eq!((texture, bind_group), (None, Some(2)));
}

#[test]
fn a_stored_frame_waits_for_nothing() {
    let (mut texture, mut bind_group) = (None, None);
    let paint = imported(5)
        .bind_group_created(6)
        .keep_texture(Some(&mut texture))
        .keep_bind_group(Some(&mut bind_group))
        .import_finished(TextureImport::Imported(7u8))
        .bind_group_created(8)
        .keep_texture(Some(&mut texture))
        .keep_bind_group(Some(&mut bind_group));
    assert!(matches!(paint, Paint::Stored { .. }));
    assert_eq!((texture, bind_group), (Some(5), Some(6)));
}

#[test]
fn bindings_of_a_frame() {
    assert_eq!(
        FrameBindings::standard(),
        FrameBindings {
            sampler: SamplerPlan {
                address_mode_u: AddressMode::ClampToEdge,
                address_mode_v: AddressMode::ClampToEdge,
                address_mode_w: AddressMode::ClampToEdge,
                mag_filter: FilterMode::Linear,
                min_filter: FilterMode::Linear,
                mipmap_filter: FilterMode::Linear,
            },
            layout: (
                LayoutSlot {
                    binding: 0,
                    visibility: ShaderStages {
                        vertex: false,
                        fragment: true,
                        compute: false,
                    },
                    kind: SlotKind::Texture {
                        multisampled: false,
                        dimension: ViewDimension::D2,
                        sample_type: SampleType::Float { filterable: true },
                    },
                    count: None,
                },
                LayoutSlot {
                    binding: 1,
                    visibility: ShaderStages {
                        vertex: false,
                        fragment: true,
                        compute: false,
                    },
                    kind: SlotKind::Sampler { filtering: true },
                    count: None,
                },
            ),
            group: (
                GroupSlot {
                    binding: 0,
                    resource: Resource::FrameView
                },
                GroupSlot {
                    binding: 1,
                    resource: Resource::Sampler
                },
            ),
        }
    );
}

#[test]
fn the_bind_group_suits_its_layout() {
    let bindings = FrameBindings::standard();
    let pairs = [
        (bindings.group.0, bindings.layout.0),
        (bindings.group.1, bindings.layout.1),
    ];
    for (group, layout) in pairs {
        assert_eq!(group.binding, layout.binding);
        assert!(matches!(
            (group.resource, layout.kind),
            (Resource::FrameView, SlotKind::Texture { .. })
                | (Resource::Sampler, SlotKind::Sampler { .. })
        ));
    }
    assert_ne!(bindings.layout.0.binding, bindings.layout.1.binding);
}
