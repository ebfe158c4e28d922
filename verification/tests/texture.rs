use egui_mpv_glow::texture::{
    FboParams, ImageStep, PlayerTexture, Rect, TextureId, TextureSlot, TextureStep, RGB,
};

fn rect(min_x: f32, min_y: f32, max_x: f32, max_y: f32) -> Rect {
    Rect {
        min_x: min_x.to_bits(),
        min_y: min_y.to_bits(),
        max_x: max_x.to_bits(),
        max_y: max_y.to_bits(),
    }
}

#[test]
fn rectangles_compare_as_floats_do() {
    let values = [
        0.0,
        -0.0,
        1.0,
        -1.0,
        640.5,
        f32::MIN_POSITIVE,
        f32::MAX,
        f32::INFINITY,
        f32::NEG_INFINITY,
        f32::NAN,
        -f32::NAN,
    ];
    for a in values {
        for b in values {
            let same = a == b;
            assert_eq!(rect(a, 0.0, 1.0, 1.0).is_same(&rect(b, 0.0, 1.0, 1.0)), same);
            assert_eq!(rect(0.0, a, 1.0, 1.0).is_same(&rect(0.0, b, 1.0, 1.0)), same);
            assert_eq!(rect(0.0, 0.0, a, 1.0).is_same(&rect(0.0, 0.0, b, 1.0)), same);
            assert_eq!(rect(0.0, 0.0, 1.0, a).is_same(&rect(0.0, 0.0, 1.0, b)), same);
        }
    }
}

#[test]
fn texture_is_made_anew_for_another_rectangle() {
    let small = rect(0.0, 0.0, 640.0, 480.0);
    let large = rect(0.0, 0.0, 1280.0, 720.0);
    let mut slot = TextureSlot::new();
    assert_eq!(slot.prepare(&small), TextureStep::Create);
    assert_eq!(slot.texture(), None);
    slot.install(PlayerTexture::new(small, 4, 5));
    assert_eq!(slot.prepare(&small), TextureStep::Keep);
    assert_eq!(slot.texture(), Some(4));
    match slot.prepare(&large) {
        TextureStep::Replace(tex) => assert_eq!((tex.tex(), tex.fbo()), (4, 5)),
        other => panic!("{:?}", other),
    }
    slot.install(PlayerTexture::new(large, 6, 7));
    assert_eq!(slot.prepare(&large), TextureStep::Keep);
    assert_eq!(slot.current().map(|t| t.size()), Some(large));
    slot.clear();
    assert_eq!(slot.prepare(&large), TextureStep::Create);
}

#[test]
fn texture_for_a_nan_is_never_kept() {
    let nan = rect(f32::NAN, 0.0, 640.0, 480.0);
    let mut slot = TextureSlot::new();
    slot.install(PlayerTexture::new(nan, 4, 5));
    assert!(matches!(slot.prepare(&nan), TextureStep::Replace(_)));
}

#[test]
fn image_needs_a_registered_texture() {
    let size = rect(0.0, 0.0, 640.0, 480.0);
    let mut slot = TextureSlot::new();
    assert_eq!(slot.image(), ImageStep::NoImage);
    slot.set_tex_id(TextureId::User(9));
    assert_eq!(slot.image(), ImageStep::NoImage);
    slot.install(PlayerTexture::new(size, 4, 5));
    assert_eq!(slot.image(), ImageStep::Register(4));
    slot.set_tex_id(TextureId::User(9));
    assert_eq!(slot.image(), ImageStep::Ready(TextureId::User(9), size));
    slot.install(PlayerTexture::new(size, 8, 5));
    assert_eq!(slot.image(), ImageStep::Register(8));
}

#[test]
fn texture_remembers_its_name() {
    let size = rect(0.0, 0.0, 640.0, 480.0);
    let mut tex = PlayerTexture::new(size, 4, 5);
    assert_eq!(tex.tex_id(), None);
    tex.set_tex_id(TextureId::Managed(2));
    assert_eq!(tex.tex_id(), Some(TextureId::Managed(2)));
    assert_eq!((tex.tex(), tex.fbo(), tex.size()), (4, 5, size));
}

#[test]
fn framebuffer_parameters() {
    let size = rect(0.0, 0.0, 640.0, 480.0);
    assert_eq!(
        PlayerTexture::new(size, 4, 5).fbo_params(640, 480),
        FboParams {
            fbo: 5,
            w: 640,
            h: 480,
            internal_format: RGB
        }
    );
    assert_eq!(RGB, 0x1907);
    assert_eq!(PlayerTexture::new(size, 4, u32::MAX).fbo_params(1, 1).fbo, -1);
    assert_eq!(
        PlayerTexture::new(size, 4, 0x8000_0000).fbo_params(1, 1).fbo,
        i32::MIN
    );
}
