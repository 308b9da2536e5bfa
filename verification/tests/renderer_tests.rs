use rect_renderer::decode::DecodedImage;
use rect_renderer::rat::Frac;
use rect_renderer::renderer::{choose_format_index, Renderer, SurfaceConfig};
use rect_renderer::textures::{SlotRef, TextureArray};
use rect_renderer::RendererError;
use rect_renderer::TEXTURE_CAPACITY;

fn opaque_rgba(width: u32, height: u32) -> Vec<u8> {
    let mut pixels = Vec::new();
    for _ in 0..width * height {
        pixels.extend_from_slice(&[200u8, 100, 50, 255]);
    }
    pixels
}

#[test]
fn handles_are_sequential() {
    let mut textures = TextureArray::new();
    assert_eq!(textures.register(2, 2), Ok(0));
    assert_eq!(textures.register(16, 8), Ok(1));
    assert_eq!(textures.register(1, 1), Ok(2));
    assert_eq!(textures.registered.len(), 3);
    assert_eq!(textures.registered[1].width, 16);
    assert_eq!(textures.registered[1].height, 8);
}

#[test]
fn registration_beyond_capacity_is_rejected_whole() {
    let mut textures = TextureArray::new();
    for i in 0..TEXTURE_CAPACITY {
        assert_eq!(textures.register(2, 2), Ok(i));
    }
    assert_eq!(textures.register(2, 2), Err(RendererError::CapacityExceeded));
    assert_eq!(textures.registered.len(), TEXTURE_CAPACITY);
    // a later attempt still fails and still changes nothing
    assert_eq!(textures.register(4, 4), Err(RendererError::CapacityExceeded));
    assert_eq!(textures.registered.len(), TEXTURE_CAPACITY);
}

#[test]
fn binding_slots_cover_the_full_capacity() {
    let mut textures = TextureArray::new();
    for _ in 0..3 {
        textures.register(2, 2).unwrap();
    }
    let slots = textures.binding_slots();
    assert_eq!(slots.len(), TEXTURE_CAPACITY);
    let populated = slots
        .iter()
        .filter(|s| matches!(s, SlotRef::Registered(_)))
        .count();
    assert_eq!(populated, 3);
    for (i, slot) in slots.iter().enumerate() {
        if i < 3 {
            assert_eq!(*slot, SlotRef::Registered(i));
        } else {
            assert_eq!(*slot, SlotRef::Placeholder);
        }
    }
}

#[test]
fn empty_array_binds_only_placeholders() {
    let textures = TextureArray::new();
    let slots = textures.binding_slots();
    assert_eq!(slots.len(), TEXTURE_CAPACITY);
    assert!(slots.iter().all(|s| *s == SlotRef::Placeholder));
}

#[test]
fn projection_entries_are_the_orthographic_transform() {
    let renderer = Renderer::new(800, 600);
    let entries: &Vec<Frac> = &renderer.projection.entries;
    assert_eq!(entries.len(), 16);
    // column-major: x scale, y scale, depth remap, translation column
    assert_eq!((entries[0].num, entries[0].den), (2, 800));
    assert_eq!((entries[5].num, entries[5].den), (-2, 600));
    assert_eq!((entries[10].num, entries[10].den), (-1, 2));
    assert_eq!((entries[12].num, entries[12].den), (-1, 1));
    assert_eq!((entries[13].num, entries[13].den), (1, 1));
    assert_eq!((entries[14].num, entries[14].den), (1, 2));
    assert_eq!((entries[15].num, entries[15].den), (1, 1));
    // every remaining entry is zero
    for i in [1, 2, 3, 4, 6, 7, 8, 9, 11] {
        assert_eq!(entries[i].num, 0);
    }
}

#[test]
fn projection_maps_corners_to_clip_corners() {
    let w = 800f64;
    let h = 600f64;
    let renderer = Renderer::new(800, 600);
    let e: Vec<f64> = renderer
        .projection
        .entries
        .iter()
        .map(|f| f.num as f64 / f.den as f64)
        .collect();
    // clip = M * (x, y, 0, 1), column-major M
    let apply = |x: f64, y: f64| {
        (
            e[0] * x + e[4] * y + e[12],
            e[1] * x + e[5] * y + e[13],
            e[2] * x + e[6] * y + e[14],
            e[3] * x + e[7] * y + e[15],
        )
    };
    assert_eq!(apply(0.0, 0.0), (-1.0, 1.0, 0.5, 1.0));
    assert_eq!(apply(w, h), (1.0, -1.0, 0.5, 1.0));
    assert_eq!(apply(w / 2.0, h / 2.0).0, 0.0);
    assert_eq!(apply(w / 2.0, h / 2.0).1, 0.0);
}

#[test]
fn zero_sized_resize_is_ignored() {
    let mut renderer = Renderer::new(800, 600);
    let config_before = renderer.config;
    let entries_before: Vec<(i64, i64)> = renderer
        .projection
        .entries
        .iter()
        .map(|f| (f.num, f.den))
        .collect();

    renderer.resize(0, 600);
    assert_eq!(renderer.config, config_before);
    let entries_after: Vec<(i64, i64)> = renderer
        .projection
        .entries
        .iter()
        .map(|f| (f.num, f.den))
        .collect();
    assert_eq!(entries_after, entries_before);

    // a later nonzero resize restores normal operation
    renderer.resize(800, 600);
    assert_eq!(renderer.config, SurfaceConfig { width: 800, height: 600 });
    let entries_restored: Vec<(i64, i64)> = renderer
        .projection
        .entries
        .iter()
        .map(|f| (f.num, f.den))
        .collect();
    assert_eq!(entries_restored, entries_before);
}

#[test]
fn resize_recomputes_projection_only() {
    let mut renderer = Renderer::new(800, 600);
    renderer.register_texture(&opaque_rgba(2, 2), 2, 2).unwrap();
    renderer.resize(1024, 768);
    assert_eq!(renderer.config, SurfaceConfig { width: 1024, height: 768 });
    assert_eq!((renderer.projection.entries[0].num, renderer.projection.entries[0].den), (2, 1024));
    assert_eq!((renderer.projection.entries[5].num, renderer.projection.entries[5].den), (-2, 768));
    assert_eq!(renderer.textures.registered.len(), 1);
}

#[test]
fn renderer_registration_rebuilds_binding() {
    let mut renderer = Renderer::new(800, 600);
    assert_eq!(renderer.binding.len(), TEXTURE_CAPACITY);
    assert_eq!(renderer.binding[0], SlotRef::Placeholder);

    let handle = renderer.register_texture(&opaque_rgba(2, 2), 2, 2).unwrap();
    assert_eq!(handle, 0);
    assert_eq!(renderer.binding[0], SlotRef::Registered(0));
    assert_eq!(renderer.binding[1], SlotRef::Placeholder);

    let handle = renderer.register_texture(&opaque_rgba(4, 4), 4, 4).unwrap();
    assert_eq!(handle, 1);
    assert_eq!(renderer.binding[1], SlotRef::Registered(1));
    assert_eq!(renderer.binding[2], SlotRef::Placeholder);
}

#[test]
fn renderer_rejects_registration_beyond_capacity_unchanged() {
    let mut renderer = Renderer::new(800, 600);
    let pixels = opaque_rgba(1, 1);
    for i in 0..TEXTURE_CAPACITY {
        assert_eq!(renderer.register_texture(&pixels, 1, 1), Ok(i));
    }
    let config_before = renderer.config;
    assert_eq!(
        renderer.register_texture(&pixels, 1, 1),
        Err(RendererError::CapacityExceeded)
    );
    assert_eq!(renderer.textures.registered.len(), TEXTURE_CAPACITY);
    assert_eq!(renderer.config, config_before);
    assert_eq!(
        renderer.binding[TEXTURE_CAPACITY - 1],
        SlotRef::Registered(TEXTURE_CAPACITY - 1)
    );
}

fn png_bytes(width: u32, height: u32) -> Vec<u8> {
    let mut buffer = image::RgbaImage::new(width, height);
    for pixel in buffer.pixels_mut() {
        *pixel = image::Rgba([200u8, 100, 50, 255]);
    }
    let mut bytes: Vec<u8> = Vec::new();
    image::DynamicImage::ImageRgba8(buffer)
        .write_to(
            &mut std::io::Cursor::new(&mut bytes),
            image::ImageOutputFormat::Png,
        )
        .unwrap();
    bytes
}

#[test]
fn registering_from_encoded_bytes_decodes_them() {
    let bytes = png_bytes(2, 2);
    let mut renderer = Renderer::new(800, 600);
    let (handle, img): (usize, DecodedImage) =
        renderer.register_texture_from_bytes(&bytes).unwrap();
    assert_eq!(handle, 0);
    assert_eq!((img.width, img.height), (2, 2));
    // the decoder really decoded: 16 raw RGBA bytes out of a PNG container
    assert_eq!(img.pixels, opaque_rgba(2, 2));
    assert_ne!(img.pixels, bytes);
    assert_eq!(renderer.textures.registered.len(), 1);
    assert_eq!(renderer.binding[0], SlotRef::Registered(0));
}

#[test]
fn undecodable_bytes_leave_the_renderer_unchanged() {
    let garbage = vec![7u8; 64];
    let mut renderer = Renderer::new(800, 600);
    let r = renderer.register_texture_from_bytes(&garbage);
    assert!(matches!(r, Err(RendererError::DecodeError)));
    assert_eq!(renderer.textures.registered.len(), 0);
    assert_eq!(renderer.binding[0], SlotRef::Placeholder);
}

#[test]
fn full_array_rejects_decoded_bytes_with_capacity_error() {
    let mut renderer = Renderer::new(800, 600);
    let pixels = opaque_rgba(1, 1);
    for _ in 0..TEXTURE_CAPACITY {
        renderer.register_texture(&pixels, 1, 1).unwrap();
    }
    let bytes = png_bytes(2, 2);
    let r = renderer.register_texture_from_bytes(&bytes);
    assert!(matches!(r, Err(RendererError::CapacityExceeded)));
    assert_eq!(renderer.textures.registered.len(), TEXTURE_CAPACITY);
}

#[test]
fn format_choice_prefers_first_srgb() {
    assert_eq!(choose_format_index(&vec![false, true, true, false]), 1);
    assert_eq!(choose_format_index(&vec![true, false]), 0);
    assert_eq!(choose_format_index(&vec![false, false, false]), 0);
    assert_eq!(choose_format_index(&vec![false]), 0);
}
