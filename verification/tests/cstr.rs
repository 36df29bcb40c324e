use egui_glfw_gl::cstr::validate_cstr_contents;

#[test]
fn names_without_nul_are_valid() {
    assert!(validate_cstr_contents(b"u_screen_size"));
    assert!(validate_cstr_contents(b""));
    assert!(validate_cstr_contents(&[1, 255, 7]));
}

#[test]
fn a_nul_anywhere_is_refused() {
    assert!(!validate_cstr_contents(b"\0"));
    assert!(!validate_cstr_contents(b"\0position"));
    assert!(!validate_cstr_contents(b"posi\0tion"));
    assert!(!validate_cstr_contents(b"position\0"));
}
