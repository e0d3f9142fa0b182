//! The choice of a font for the word looked up, by the script it is written
//! in and the platform it is shown on.

use crate::text::chars_of;
use vstd::prelude::*;

verus! {

/// The platform whose system fonts are used.
#[derive(Debug, Clone, Copy, PartialEq, Eq)]
pub enum Platform {
    MacOs,
    Windows,
    Android,
    /// Linux and every other platform.
    Other,
}

/// A font for the title.
#[derive(Debug, Clone, Copy, PartialEq, Eq)]
pub enum TitleFont {
    /// The default font, bold.
    DefaultBold,
    /// Roboto Bold, bundled with the application.
    RobotoBold,
    /// The named system font family, bold.
    Family(&'static str),
}

/// Hiragana, Katakana and the Katakana phonetic extensions.
pub open spec fn is_kana(c: char) -> bool {
    let n = c as u32;
    0x3040 <= n <= 0x30FF || 0x31F0 <= n <= 0x31FF
}

/// The Hangul Jamo, compatibility Jamo, Jamo extensions and syllables.
pub open spec fn is_hangul(c: char) -> bool {
    let n = c as u32;
    ||| 0x1100 <= n <= 0x11FF
    ||| 0x3130 <= n <= 0x318F
    ||| 0xA960 <= n <= 0xA97F
    ||| 0xAC00 <= n <= 0xD7AF
    ||| 0xD7B0 <= n <= 0xD7FF
}

pub open spec fn has_kana(s: Seq<char>) -> bool {
    exists|i: int| 0 <= i < s.len() && is_kana(#[trigger] s[i])
}

pub open spec fn has_hangul(s: Seq<char>) -> bool {
    exists|i: int| 0 <= i < s.len() && is_hangul(#[trigger] s[i])
}

/// Whether `input_text` holds a kana character.
pub fn contains_japanese_kana(input_text: &str) -> (r: bool)
    ensures
        r == has_kana(input_text@),
{
    let v = chars_of(input_text);
    let mut i: usize = 0;
    while i < v.len()
        invariant
            i <= v.len(),
            v@ == input_text@,
            forall|j: int| 0 <= j < i ==> !is_kana(#[trigger] v@[j]),
        decreases v.len() - i,
    {
        let n: u32 = v[i] as u32;
        if (0x3040 <= n && n <= 0x30FF) || (0x31F0 <= n && n <= 0x31FF) {
            assert(is_kana(v@[i as int]));
            return true;
        }
        i = i + 1;
    }
    false
}

/// Whether `input_text` holds a Hangul character.
pub fn contains_hangul(input_text: &str) -> (r: bool)
    ensures
        r == has_hangul(input_text@),
{
    let v = chars_of(input_text);
    let mut i: usize = 0;
    while i < v.len()
        invariant
            i <= v.len(),
            v@ == input_text@,
            forall|j: int| 0 <= j < i ==> !is_hangul(#[trigger] v@[j]),
        decreases v.len() - i,
    {
        let n: u32 = v[i] as u32;
        if (0x1100 <= n && n <= 0x11FF) || (0x3130 <= n && n <= 0x318F) || (0xA960 <= n && n
            <= 0xA97F) || (0xAC00 <= n && n <= 0xD7AF) || (0xD7B0 <= n && n <= 0xD7FF) {
            assert(is_hangul(v@[i as int]));
            return true;
        }
        i = i + 1;
    }
    false
}

pub open spec fn chinese_family(platform: Platform) -> Seq<char> {
    match platform {
        Platform::MacOs => "PingFang SC"@,
        Platform::Windows => "Microsoft YaHei"@,
        _ => "Noto Sans CJK SC"@,
    }
}

pub open spec fn japanese_family(platform: Platform) -> Seq<char> {
    match platform {
        Platform::MacOs => "Hiragino Sans"@,
        Platform::Windows => "Yu Gothic"@,
        _ => "Noto Sans CJK JP"@,
    }
}

pub open spec fn korean_family(platform: Platform) -> Seq<char> {
    match platform {
        Platform::MacOs => "Apple SD Gothic Neo"@,
        Platform::Windows => "Malgun Gothic"@,
        _ => "Noto Sans CJK KR"@,
    }
}

/// The system font family for Chinese text.
pub fn system_chinese_font(platform: Platform) -> (r: &'static str)
    ensures
        r@ == chinese_family(platform),
{
    match platform {
        Platform::MacOs => "PingFang SC",
        Platform::Windows => "Microsoft YaHei",
        _ => "Noto Sans CJK SC",
    }
}

/// The system font family for Japanese text.
pub fn system_japanese_font(platform: Platform) -> (r: &'static str)
    ensures
        r@ == japanese_family(platform),
{
    match platform {
        Platform::MacOs => "Hiragino Sans",
        Platform::Windows => "Yu Gothic",
        _ => "Noto Sans CJK JP",
    }
}

/// The system font family for Korean text.
pub fn system_korean_font(platform: Platform) -> (r: &'static str)
    ensures
        r@ == korean_family(platform),
{
    match platform {
        Platform::MacOs => "Apple SD Gothic Neo",
        Platform::Windows => "Malgun Gothic",
        _ => "Noto Sans CJK KR",
    }
}

/// The title font of `input_text` on `platform`, where `cjk` tells whether
/// the text holds CJK characters by the GUI toolkit's own test. On Android
/// CJK text keeps the default font; elsewhere kana chooses the Japanese
/// family, then Hangul the Korean one, then CJK the Chinese one; other text
/// is set in Roboto.
pub fn title_font(input_text: &str, platform: Platform, cjk: bool) -> (r: TitleFont)
    ensures
        platform == Platform::Android && cjk ==> r == TitleFont::DefaultBold,
        !(platform == Platform::Android && cjk) ==> {
            if has_kana(input_text@) {
                r matches TitleFont::Family(f) && f@ == japanese_family(platform)
            } else if has_hangul(input_text@) {
                r matches TitleFont::Family(f) && f@ == korean_family(platform)
            } else if cjk {
                r matches TitleFont::Family(f) && f@ == chinese_family(platform)
            } else {
                r == TitleFont::RobotoBold
            }
        },
{
    let on_android = match platform {
        Platform::Android => true,
        _ => false,
    };
    if on_android && cjk {
        return TitleFont::DefaultBold;
    }
    if contains_japanese_kana(input_text) {
        TitleFont::Family(system_japanese_font(platform))
    } else if contains_hangul(input_text) {
        TitleFont::Family(system_korean_font(platform))
    } else if cjk {
        TitleFont::Family(system_chinese_font(platform))
    } else {
        TitleFont::RobotoBold
    }
}

} // verus!
