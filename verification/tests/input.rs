use aish::input::{is_image_path, sgr_mouse_bytes, sgr_mouse_button, sgr_wheel_bytes, MouseButton};

#[test]
fn is_image_path_accepts_common_raster() {
    for ext in ["png", "jpg", "jpeg", "gif", "webp", "bmp", "tiff", "ico", "svg"] {
        let p = format!("foo.{ext}");
        assert!(is_image_path(&p), "{} should be image", ext);
    }
}

#[test]
fn is_image_path_case_insensitive() {
    assert!(is_image_path("photo.JPG"));
    assert!(is_image_path("Screenshot.PNG"));
    assert!(is_image_path("icon.IcO"));
}

#[test]
fn is_image_path_rejects_non_image() {
    assert!(!is_image_path("doc.pdf"));
    assert!(!is_image_path("readme.txt"));
    assert!(!is_image_path("archive.zip"));
    assert!(!is_image_path("video.mp4"));
}

#[test]
fn is_image_path_rejects_no_extension() {
    assert!(!is_image_path("Makefile"));
    assert!(!is_image_path("noext"));
}

#[test]
fn is_image_path_accepts_full_path() {
    assert!(is_image_path("/tmp/foo/bar.png"));
    assert!(is_image_path("C:\\Users\\me\\pic.jpg"));
}

#[test]
fn is_image_path_ignores_dot_files() {
    assert!(!is_image_path(".png"));
    assert!(is_image_path("/tmp/.hidden.png"));
}

#[test]
fn sgr_button_codes() {
    assert_eq!(sgr_mouse_button(MouseButton::Left), Some(0));
    assert_eq!(sgr_mouse_button(MouseButton::Middle), Some(1));
    assert_eq!(sgr_mouse_button(MouseButton::Right), Some(2));
    assert_eq!(sgr_mouse_button(MouseButton::Navigate), None);
}

#[test]
fn sgr_press_and_release_reports() {
    assert_eq!(sgr_mouse_bytes(0, false, false, false, 3, 7, true), b"\x1b[<0;3;7M".to_vec());
    assert_eq!(sgr_mouse_bytes(2, true, false, true, 1, 1, false), b"\x1b[<22;1;1m".to_vec());
}

#[test]
fn sgr_wheel_repeats_per_line() {
    assert_eq!(sgr_wheel_bytes(false, 3, false, false, false, 1, 1), None);
    assert_eq!(
        sgr_wheel_bytes(true, 2, false, false, false, 4, 5),
        Some(b"\x1b[<64;4;5M\x1b[<64;4;5M".to_vec())
    );
    assert_eq!(
        sgr_wheel_bytes(true, -1, false, true, false, 1, 2),
        Some(b"\x1b[<73;1;2M".to_vec())
    );
    assert_eq!(sgr_wheel_bytes(true, 0, false, false, false, 1, 1), Some(Vec::new()));
}

use aish::input::{
    image_display_name, line_bytes, paste_bytes, plan_send, terminal_key_action, upload_extension,
    KeyAction, SendPlan,
};

#[test]
fn terminal_shortcuts_win_over_the_shell() {
    assert_eq!(terminal_key_action("C", true, true, false, true, false), KeyAction::CopySelection);
    assert_eq!(terminal_key_action("v", true, true, false, true, false), KeyAction::Paste);
    assert_eq!(terminal_key_action("pageup", true, true, false, false, false), KeyAction::MoveTab(-1));
    assert_eq!(terminal_key_action("pagedown", true, true, false, false, false), KeyAction::MoveTab(1));
    assert_eq!(terminal_key_action("w", true, false, false, true, false), KeyAction::CloseTab);
    assert_eq!(terminal_key_action("t", true, false, false, true, false), KeyAction::NewTab);
    assert_eq!(terminal_key_action("tab", true, true, false, false, false), KeyAction::CycleTab(-1));
    assert_eq!(terminal_key_action("tab", true, false, false, false, false), KeyAction::CycleTab(1));
}

#[test]
fn typed_characters_go_through_the_text_input() {
    assert_eq!(terminal_key_action("a", false, false, false, true, false), KeyAction::Ignore);
    assert_eq!(terminal_key_action("c", true, false, false, true, false), KeyAction::Send(vec![0x03]));
    assert_eq!(terminal_key_action("enter", false, false, false, false, false), KeyAction::Send(vec![b'\r']));
    assert_eq!(terminal_key_action("f1", false, false, false, false, false), KeyAction::Ignore);
}

#[test]
fn paste_normalizes_line_ends() {
    assert_eq!(paste_bytes("", false), None);
    assert_eq!(paste_bytes("a\r\nb\nc\rd", false), Some(b"a\rb\rc\rd".to_vec()));
    assert_eq!(paste_bytes("ls\n", true), Some(b"\x1b[200~ls\r\x1b[201~".to_vec()));
}

#[test]
fn sending_text_and_images() {
    assert_eq!(plan_send("hi", true, false), SendPlan::Blocked);
    assert_eq!(plan_send("hi", false, true), SendPlan::Images);
    assert_eq!(plan_send("  hi ", false, false), SendPlan::Text(Some(b"hi\r".to_vec())));
    assert_eq!(plan_send("   ", false, false), SendPlan::Text(None));
    assert_eq!(line_bytes(" ls -l "), Some(b"ls -l\r".to_vec()));
}

#[test]
fn queued_image_names_and_extensions() {
    assert_eq!(image_display_name("/tmp/shots/a.PNG"), "a.PNG");
    assert_eq!(upload_extension("/tmp/shots/a.PNG"), "png");
    assert_eq!(upload_extension("/tmp/shots/raw"), "png");
    assert_eq!(upload_extension("b.Jpeg"), "jpeg");
}
