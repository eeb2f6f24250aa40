use vc4::hvs::displaylist::{DisplayList, CONTROL_END, CONTROL_UNITY, CONTROL_VALID};
use vc4::hvs::plane::{PixelFormat, PixelOrder, Plane};
use vc4::hvs::{FrameBufferData, Hvs};

#[test]
fn plane_presets() {
    let white = Plane::white();
    assert_eq!(white.framebuffer.len(), 480 * 480);
    assert!(white.framebuffer.iter().all(|p| *p == 0xFFFF_FFFF));
    assert_eq!(white.pitch, 32);

    let green = Plane::green_half_alpha();
    assert!(green.framebuffer.iter().all(|p| *p == 0x3300_FF00));
}

#[test]
fn plane_setters() {
    let p = Plane::white()
        .set_pixel_format(PixelFormat::Rgb565)
        .set_pixel_order(PixelOrder::Abgr)
        .set_start_x(10)
        .set_start_y(20)
        .set_width(100)
        .set_height(200)
        .set_pitch(400)
        .set_framebuffer(vec![1, 2, 3]);
    assert!(matches!(p.format, PixelFormat::Rgb565));
    assert!(matches!(p.order, PixelOrder::Abgr));
    assert_eq!((p.start_x, p.start_y), (10, 20));
    assert_eq!((p.width, p.height), (100, 200));
    assert_eq!(p.pitch, 400);
    assert_eq!(p.framebuffer, vec![1, 2, 3]);
}

#[test]
fn pixel_format_codes_and_depths() {
    assert_eq!(PixelFormat::Rgb332.code(), 0);
    assert_eq!(PixelFormat::Rgba8888.code(), 7);
    assert_eq!(PixelFormat::Rgb332.depth(), 8);
    assert_eq!(PixelFormat::Rgb565.depth(), 16);
    assert_eq!(PixelFormat::Rgb888.depth(), 24);
    assert_eq!(PixelFormat::Rgba8888.depth(), 32);
    assert!(matches!(PixelFormat::default(), PixelFormat::Rgba8888));
    assert_eq!(PixelOrder::Argb.code(), 2);
    assert!(matches!(PixelOrder::default(), PixelOrder::Argb));
}

#[test]
fn display_list_plane_words() {
    let mut dl = DisplayList::new();
    let plane = Plane::white().set_start_x(8).set_start_y(16).set_pitch(1920);
    dl.write_plane(&plane, 0xDE80_0000);
    let words = dl.words();
    assert_eq!(words.len(), 7);
    let expected_ctl =
        CONTROL_VALID | CONTROL_UNITY | (2 << 13) | (7 << 24) | 7;
    assert_eq!(words[0], expected_ctl);
    assert_eq!(words[1], 8 | (16 << 16));
    assert_eq!(words[2], 480 | (480 << 16));
    assert_eq!(words[3], 0xDEAD_BEEF);
    assert_eq!(words[4], 0x1E80_0000); // clipped to the 30-bit bus window
    assert_eq!(words[5], 0xDEAD_BEEF);
    assert_eq!(words[6], 1920);
}

#[test]
fn hvs_draw_stages_all_planes_and_end_word() {
    let mut hvs = Hvs::new();
    hvs.add_plane(Plane::white());
    hvs.add_plane(Plane::green_half_alpha());
    hvs.draw(&[0xDE00_0000, 0xDE40_0000]);
    let words = hvs.display_list.words();
    assert_eq!(words.len(), 15);
    assert_eq!(words[4], 0x1E00_0000);
    assert_eq!(words[11], 0x1E40_0000);
    assert_eq!(words[14], CONTROL_END);

    hvs.display_list.finish();
    assert_eq!(hvs.display_list.words().len(), 0);

    hvs.reset();
    assert_eq!(hvs.planes.len(), 0);
}

#[test]
fn framebuffer_data_is_plain() {
    let fb = FrameBufferData { width: 480, height: 480, pitch: 1920 };
    assert_eq!(fb.width, 480);
    assert_eq!(fb.pitch, 1920);
}
