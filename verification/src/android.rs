//! The flags that the Android build sets on the window so that the status
//! and navigation bars match the theme: light bars (dark icons) on a light
//! theme, dark bars on a dark one.

use vstd::prelude::*;

verus! {

/// `View.SYSTEM_UI_FLAG_LIGHT_NAVIGATION_BAR`.
pub const SYSTEM_UI_FLAG_LIGHT_NAVIGATION_BAR: i32 = 0x0000_0010i32;

/// `View.SYSTEM_UI_FLAG_LIGHT_STATUS_BAR`.
pub const SYSTEM_UI_FLAG_LIGHT_STATUS_BAR: i32 = 0x0000_2000i32;

/// `WindowInsetsController.APPEARANCE_LIGHT_STATUS_BARS`.
pub const APPEARANCE_LIGHT_STATUS_BARS: i32 = 0x0000_0008i32;

/// `WindowInsetsController.APPEARANCE_LIGHT_NAVIGATION_BARS`.
pub const APPEARANCE_LIGHT_NAVIGATION_BARS: i32 = 0x0000_0010i32;

/// Both light-bar flags of the system UI visibility.
pub const LIGHT_UI_FLAGS: i32 = 0x0000_2010i32;

/// Both light-bar flags of the bars' appearance.
pub const LIGHT_APPEARANCE: i32 = 0x0000_0018i32;

/// The system UI visibility that follows `current`: the light-bar flags set
/// when `light_bars`, cleared otherwise, every other flag as it was.
pub fn system_ui_visibility(current: i32, light_bars: bool) -> (r: i32)
    ensures
        r & LIGHT_UI_FLAGS == (if light_bars {
            LIGHT_UI_FLAGS
        } else {
            0i32
        }),
        r & !LIGHT_UI_FLAGS == current & !LIGHT_UI_FLAGS,
{
    let flags: i32 = SYSTEM_UI_FLAG_LIGHT_STATUS_BAR | SYSTEM_UI_FLAG_LIGHT_NAVIGATION_BAR;
    assert(flags == 0x0000_2010i32) by (bit_vector)
        requires
            flags == 0x0000_2000i32 | 0x0000_0010i32,
    ;
    if light_bars {
        let r = current | flags;
        assert(r & 0x0000_2010i32 == 0x0000_2010i32 && r & !0x0000_2010i32 == current
            & !0x0000_2010i32) by (bit_vector)
            requires
                r == current | 0x0000_2010i32,
        ;
        r
    } else {
        let r = current & !flags;
        assert(r & 0x0000_2010i32 == 0i32 && r & !0x0000_2010i32 == current & !0x0000_2010i32)
            by (bit_vector)
            requires
                r == current & !0x0000_2010i32,
        ;
        r
    }
}

/// The appearance of the bars, under the mask `LIGHT_APPEARANCE`: both
/// light flags when `light_bars`, none otherwise.
pub fn bars_appearance(light_bars: bool) -> (r: i32)
    ensures
        r == (if light_bars {
            LIGHT_APPEARANCE
        } else {
            0i32
        }),
{
    if light_bars {
        let r: i32 = APPEARANCE_LIGHT_STATUS_BARS | APPEARANCE_LIGHT_NAVIGATION_BARS;
        assert(r == 0x0000_0018i32) by (bit_vector)
            requires
                r == 0x0000_0008i32 | 0x0000_0010i32,
        ;
        r
    } else {
        0
    }
}

/// The font files that the Android build loads, in order, when they exist:
/// Noto and Roboto fonts under `/system`, `/product` and `/system_ext`.
pub open spec fn android_font_paths() -> Seq<Seq<char>> {
    seq![
        "/system/fonts/NotoSans-Regular.ttf"@,
        "/system/fonts/NotoSans-Bold.ttf"@,
        "/system/fonts/NotoSans-Regular.otf"@,
        "/system/fonts/NotoSansDisplay-Regular.ttf"@,
        "/system/fonts/NotoSerif-Regular.ttf"@,
        "/system/fonts/NotoSansSymbols-Regular-Subsetted.ttf"@,
        "/system/fonts/NotoSansSymbols2-Regular.ttf"@,
        "/system/fonts/Roboto-Regular.ttf"@,
        "/system/fonts/NotoSansCJK-Regular.ttc"@,
        "/system/fonts/NotoSansCJK-Bold.ttc"@,
        "/system/fonts/NotoSansSC-Regular.otf"@,
        "/system/fonts/NotoSansSC-Bold.otf"@,
        "/system/fonts/NotoSansJP-Regular.otf"@,
        "/system/fonts/NotoSansJP-Bold.otf"@,
        "/system/fonts/NotoSansKR-Regular.otf"@,
        "/system/fonts/NotoSansKR-Bold.otf"@,
        "/product/fonts/NotoSans-Regular.ttf"@,
        "/product/fonts/NotoSans-Bold.ttf"@,
        "/product/fonts/NotoSans-Regular.otf"@,
        "/product/fonts/NotoSansDisplay-Regular.ttf"@,
        "/product/fonts/NotoSerif-Regular.ttf"@,
        "/product/fonts/NotoSansSymbols-Regular-Subsetted.ttf"@,
        "/product/fonts/NotoSansSymbols2-Regular.ttf"@,
        "/product/fonts/Roboto-Regular.ttf"@,
        "/product/fonts/NotoSansCJK-Regular.ttc"@,
        "/product/fonts/NotoSansCJK-Bold.ttc"@,
        "/system_ext/fonts/NotoSans-Regular.ttf"@,
        "/system_ext/fonts/NotoSansDisplay-Regular.ttf"@,
        "/system_ext/fonts/NotoSerif-Regular.ttf"@,
        "/system_ext/fonts/NotoSansSymbols-Regular-Subsetted.ttf"@,
        "/system_ext/fonts/NotoSansSymbols2-Regular.ttf"@,
        "/system_ext/fonts/Roboto-Regular.ttf"@,
    ]
}

/// The font files that the Android build loads, in order, when they exist.
pub fn android_system_font_paths() -> (r: Vec<&'static str>)
    ensures
        r@.map_values(|p: &'static str| p@) == android_font_paths(),
{
    let r = vec![
        "/system/fonts/NotoSans-Regular.ttf",
        "/system/fonts/NotoSans-Bold.ttf",
        "/system/fonts/NotoSans-Regular.otf",
        "/system/fonts/NotoSansDisplay-Regular.ttf",
        "/system/fonts/NotoSerif-Regular.ttf",
        "/system/fonts/NotoSansSymbols-Regular-Subsetted.ttf",
        "/system/fonts/NotoSansSymbols2-Regular.ttf",
        "/system/fonts/Roboto-Regular.ttf",
        "/system/fonts/NotoSansCJK-Regular.ttc",
        "/system/fonts/NotoSansCJK-Bold.ttc",
        "/system/fonts/NotoSansSC-Regular.otf",
        "/system/fonts/NotoSansSC-Bold.otf",
        "/system/fonts/NotoSansJP-Regular.otf",
        "/system/fonts/NotoSansJP-Bold.otf",
        "/system/fonts/NotoSansKR-Regular.otf",
        "/system/fonts/NotoSansKR-Bold.otf",
        "/product/fonts/NotoSans-Regular.ttf",
        "/product/fonts/NotoSans-Bold.ttf",
        "/product/fonts/NotoSans-Regular.otf",
        "/product/fonts/NotoSansDisplay-Regular.ttf",
        "/product/fonts/NotoSerif-Regular.ttf",
        "/product/fonts/NotoSansSymbols-Regular-Subsetted.ttf",
        "/product/fonts/NotoSansSymbols2-Regular.ttf",
        "/product/fonts/Roboto-Regular.ttf",
        "/product/fonts/NotoSansCJK-Regular.ttc",
        "/product/fonts/NotoSansCJK-Bold.ttc",
        "/system_ext/fonts/NotoSans-Regular.ttf",
        "/system_ext/fonts/NotoSansDisplay-Regular.ttf",
        "/system_ext/fonts/NotoSerif-Regular.ttf",
        "/system_ext/fonts/NotoSansSymbols-Regular-Subsetted.ttf",
        "/system_ext/fonts/NotoSansSymbols2-Regular.ttf",
        "/system_ext/fonts/Roboto-Regular.ttf",
    ];
    assert(r@.map_values(|p: &'static str| p@) =~= android_font_paths());
    r
}

/// Whether the bars' appearance is set through the window's insets
/// controller: from SDK level 30 on, when the window has one.
pub fn sets_appearance(sdk: i32, has_controller: bool) -> (r: bool)
    ensures
        r == (sdk >= 30 && has_controller),
{
    sdk >= 30 && has_controller
}

} // verus!
