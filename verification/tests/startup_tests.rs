use cmux::layout::{FocusDirection, SplitOrientation};
use cmux::shortcuts::{shortcut_for, Shortcut, ShortcutKey};
use cmux::startup::prefer_desktop_opengl;

#[test]
fn gdk_debug_gains_the_gl_flag() {
    assert_eq!(prefer_desktop_opengl(None).as_deref(), Some("gl-prefer-gl"));
    assert_eq!(prefer_desktop_opengl(Some("  ")).as_deref(), Some("gl-prefer-gl"));
    assert_eq!(prefer_desktop_opengl(Some("vulkan")).as_deref(), Some("vulkan,gl-prefer-gl"));
    assert_eq!(prefer_desktop_opengl(Some("vulkan, gl-prefer-gl ")), None);
    assert_eq!(prefer_desktop_opengl(Some("gl-prefer-gl")), None);
    assert_eq!(prefer_desktop_opengl(Some("gl-prefer-glx")).as_deref(), Some("gl-prefer-glx,gl-prefer-gl"));
}

#[test]
fn shortcuts_map_keys_to_commands() {
    assert_eq!(shortcut_for(ShortcutKey::T, true, true, false), Some(Shortcut::NewWorkspace));
    assert_eq!(shortcut_for(ShortcutKey::D, true, true, false), Some(Shortcut::Split(SplitOrientation::Horizontal)));
    assert_eq!(shortcut_for(ShortcutKey::E, true, true, false), Some(Shortcut::Split(SplitOrientation::Vertical)));
    assert_eq!(shortcut_for(ShortcutKey::Left, true, false, true), Some(Shortcut::FocusPane(FocusDirection::Left)));
    assert_eq!(shortcut_for(ShortcutKey::Down, true, true, true), Some(Shortcut::ResizePane(FocusDirection::Down)));
    assert_eq!(shortcut_for(ShortcutKey::BracketRight, true, true, false), Some(Shortcut::NextSurface));
    assert_eq!(shortcut_for(ShortcutKey::BracketRight, true, true, true), Some(Shortcut::MoveSurfaceForward));
    assert_eq!(shortcut_for(ShortcutKey::F2, false, false, false), Some(Shortcut::RenameWorkspace));
    assert_eq!(shortcut_for(ShortcutKey::F2, true, false, false), None);
    assert_eq!(shortcut_for(ShortcutKey::T, true, false, false), None);
    assert_eq!(shortcut_for(ShortcutKey::Other, true, true, false), None);
}
