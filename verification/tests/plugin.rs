use comp_surf::{
    comp_surf_de_initialize, comp_surf_draw_frame, comp_surf_initialize, comp_surf_load_functions,
    comp_surf_resize, comp_surf_run_task, comp_surf_version, CompSurfContext, NativeWindow,
};

fn open() -> Box<CompSurfContext> {
    comp_surf_initialize(b"secret", 800, 600, 0x4000, b"/opt/assets", b"/tmp/cache")
}

#[test]
fn plugin_version_is_the_context_version() {
    assert_eq!(comp_surf_version(), 0x0001_0000);
    assert_eq!(comp_surf_version(), CompSurfContext::version());
    assert_eq!(comp_surf_version(), comp_surf_version());
}

#[test]
fn initialize_stores_what_it_is_given() {
    let ctx = open();
    assert_eq!(ctx.access_token(), "secret");
    assert_eq!(ctx.width(), 800);
    assert_eq!(ctx.height(), 600);
    assert_eq!(ctx.native_window(), 0x4000);
    assert_eq!(ctx.assets_path(), "/opt/assets");
    assert_eq!(ctx.cache_path(), "/tmp/cache");
}

#[test]
fn initialize_then_de_initialize() {
    let ctx = open();
    comp_surf_de_initialize(Some(ctx));
}

#[test]
fn sessions_are_independent() {
    let mut a = open();
    let b = comp_surf_initialize(b"other", 1, 2, 0x8000, b"a", b"c");
    comp_surf_resize(Some(&mut *a), 10, 20);
    assert_eq!(a.width(), 10);
    assert_eq!(b.width(), 1);
    assert_eq!(b.height(), 2);
    comp_surf_de_initialize(Some(a));
    assert_eq!(b.access_token(), "other");
    comp_surf_de_initialize(Some(b));
}

#[test]
fn empty_handle_is_accepted_everywhere() {
    comp_surf_load_functions(None, None);
    comp_surf_load_functions(None, Some(0x1234));
    comp_surf_run_task(None);
    comp_surf_draw_frame(None, 0);
    comp_surf_draw_frame(None, f64::NAN.to_bits());
    comp_surf_resize(None, 100, 100);
    comp_surf_de_initialize(None);
}

#[test]
fn empty_handle_touches_no_session() {
    let ctx = open();
    comp_surf_resize(None, 1, 1);
    comp_surf_run_task(None);
    comp_surf_de_initialize(None);
    assert_eq!(ctx.width(), 800);
    assert_eq!(ctx.height(), 600);
    assert_eq!(ctx.access_token(), "secret");
}

#[test]
fn resize_through_the_handle() {
    let mut ctx = open();
    comp_surf_resize(Some(&mut *ctx), 1024, 768);
    assert_eq!(ctx.width(), 1024);
    assert_eq!(ctx.height(), 768);
    comp_surf_resize(Some(&mut *ctx), -1, 0);
    assert_eq!(ctx.width(), -1);
    assert_eq!(ctx.height(), 0);
    assert_eq!(ctx.access_token(), "secret");
    assert_eq!(ctx.assets_path(), "/opt/assets");
    assert_eq!(ctx.cache_path(), "/tmp/cache");
    assert_eq!(ctx.native_window(), 0x4000);
}

#[test]
fn hooks_through_the_handle_change_nothing() {
    let mut ctx = open();
    comp_surf_load_functions(Some(&mut *ctx), None);
    comp_surf_load_functions(Some(&mut *ctx), Some(0xFFFF_0000));
    comp_surf_run_task(Some(&mut *ctx));
    comp_surf_draw_frame(Some(&mut *ctx), 0.0f64.to_bits());
    comp_surf_draw_frame(Some(&mut *ctx), 1234.5f64.to_bits());
    assert_eq!(ctx.access_token(), "secret");
    assert_eq!(ctx.width(), 800);
    assert_eq!(ctx.height(), 600);
    assert_eq!(ctx.native_window(), 0x4000);
    assert_eq!(ctx.assets_path(), "/opt/assets");
    assert_eq!(ctx.cache_path(), "/tmp/cache");
}

#[test]
fn hooks_in_any_order() {
    let mut ctx = open();
    comp_surf_draw_frame(Some(&mut *ctx), 1);
    comp_surf_resize(Some(&mut *ctx), 5, 6);
    comp_surf_run_task(Some(&mut *ctx));
    comp_surf_load_functions(Some(&mut *ctx), Some(1));
    comp_surf_draw_frame(Some(&mut *ctx), 2);
    assert_eq!(ctx.width(), 5);
    assert_eq!(ctx.height(), 6);
    comp_surf_de_initialize(Some(ctx));
}

#[test]
fn ascii_text_is_stored_byte_for_byte() {
    let token = b"AbC-09_~ !\"#$%&'()*+,./:;<=>?@[\\]^`{|}";
    let assets = b"/a/b c/d.e";
    let cache = b"C:\\cache\\dir";
    let ctx = comp_surf_initialize(token, 0, 0, 0, assets, cache);
    assert_eq!(ctx.access_token().as_bytes(), token);
    assert_eq!(ctx.assets_path().as_bytes(), assets);
    assert_eq!(ctx.cache_path().as_bytes(), cache);
}

#[test]
fn every_ascii_byte_is_stored_as_it_is() {
    let all: Vec<u8> = (0u8..128).collect();
    let ctx = comp_surf_initialize(&all, 0, 0, 0, &all[1..], &all[..1]);
    assert_eq!(ctx.access_token().as_bytes(), &all[..]);
    assert_eq!(ctx.assets_path().as_bytes(), &all[1..]);
    assert_eq!(ctx.cache_path().as_bytes(), &all[..1]);
    assert_eq!(ctx.access_token().chars().count(), 128);
}

#[test]
fn empty_text_is_stored_empty() {
    let ctx = comp_surf_initialize(b"", 0, 0, 0, b"", b"");
    assert_eq!(ctx.access_token(), "");
    assert_eq!(ctx.assets_path(), "");
    assert_eq!(ctx.cache_path(), "");
}

#[test]
fn valid_utf8_is_stored_as_the_text_it_encodes() {
    let path = "/data/\u{E9}t\u{E9}/\u{65E5}\u{672C}/\u{1F600}";
    let ctx = comp_surf_initialize(path.as_bytes(), 0, 0, 0, path.as_bytes(), b"x");
    assert_eq!(ctx.access_token(), path);
    assert_eq!(ctx.assets_path().as_bytes(), path.as_bytes());
    assert_eq!(ctx.cache_path(), "x");
}

#[test]
fn invalid_bytes_become_replacement_characters() {
    let ctx = comp_surf_initialize(b"f\xFFo", 0, 0, 0, b"\xC3", b"ab\xE2\x82");
    assert_eq!(ctx.access_token(), "f\u{FFFD}o");
    assert_eq!(ctx.assets_path(), "\u{FFFD}");
    assert_eq!(ctx.cache_path(), "ab\u{FFFD}");
    assert_ne!(ctx.access_token().as_bytes(), b"f\xFFo");
}

#[test]
fn invalid_bytes_leave_the_valid_ones_in_place() {
    let ctx = comp_surf_initialize(b"\x80/usr\xFE/lib\xC0\xAF", 0, 0, 0, b"", b"");
    let token = ctx.access_token();
    assert!(token.starts_with('\u{FFFD}'));
    assert!(token.contains("/usr"));
    assert!(token.contains("/lib"));
    assert_eq!(token, String::from_utf8_lossy(b"\x80/usr\xFE/lib\xC0\xAF"));
}

#[test]
fn initialize_then_dump() {
    let ctx = comp_surf_initialize(b"tok", 320, 240, 0x9000, b"/assets", b"/cache");
    let window = NativeWindow { display: 0x10, surface: 0x20, egl_display: 0, egl_window: 0 };
    assert_eq!(
        ctx.dump(&window),
        "Width: 320\nHeight: 240\nAssetsPath: [/assets]\nCachePath: [/cache]\n\
         AccessToken: [tok]\nNative Display: 0x10\nNative Surface: 0x20\n\
         Native EGL Display: 0x00\nNative EGL Window: 0x00\n"
    );
    comp_surf_de_initialize(Some(ctx));
}
