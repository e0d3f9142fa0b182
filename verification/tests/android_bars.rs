use rdict::android::{
    android_system_font_paths, bars_appearance, sets_appearance, system_ui_visibility, LIGHT_APPEARANCE,
    LIGHT_UI_FLAGS,
};

#[test]
fn light_bars_set_both_light_flags() {
    assert_eq!(system_ui_visibility(0x0000_0001, true), 0x0000_2011);
    assert_eq!(system_ui_visibility(0x0000_2010, true), 0x0000_2010);
}

#[test]
fn dark_bars_clear_only_the_light_flags() {
    assert_eq!(system_ui_visibility(0x0000_2015, false), 0x0000_0005);
    assert_eq!(system_ui_visibility(-1, false), !LIGHT_UI_FLAGS);
}

#[test]
fn appearance_follows_the_theme() {
    assert_eq!(bars_appearance(true), LIGHT_APPEARANCE);
    assert_eq!(LIGHT_APPEARANCE, 0x18);
    assert_eq!(bars_appearance(false), 0);
}

#[test]
fn android_font_paths_cover_three_partitions() {
    let paths = android_system_font_paths();
    assert_eq!(paths.len(), 32);
    assert_eq!(paths[0], "/system/fonts/NotoSans-Regular.ttf");
    assert_eq!(paths[8], "/system/fonts/NotoSansCJK-Regular.ttc");
    assert_eq!(paths[16], "/product/fonts/NotoSans-Regular.ttf");
    assert_eq!(paths[31], "/system_ext/fonts/Roboto-Regular.ttf");
}

#[test]
fn appearance_needs_sdk_30_and_a_controller() {
    assert!(sets_appearance(30, true));
    assert!(sets_appearance(34, true));
    assert!(!sets_appearance(29, true));
    assert!(!sets_appearance(33, false));
}
