use rdict::text::{split, strip, strip_end, strip_start, trim, CharSet};

#[test]
fn trim_uses_unicode_whitespace() {
    assert_eq!(trim("\u{3000} 哪里\t\n"), "哪里");
    assert_eq!(trim("\u{A0}x\u{85}"), "x");
    assert_eq!(trim("   "), "");
    // U+200B ZERO WIDTH SPACE has no White_Space property.
    assert_eq!(trim("\u{200B}x"), "\u{200B}x");
    assert_eq!(trim("a b"), "a b");
}

#[test]
fn trim_twice_is_trim_once() {
    for s in ["  a  ", "\t\n", "x", "", " 어디 서 "] {
        assert_eq!(trim(&trim(s)), trim(s));
    }
}

#[test]
fn strip_matches_std() {
    assert_eq!(strip("//wer//", CharSet::Only('/')), "wer");
    assert_eq!(strip_start("..가.", CharSet::Only('.')), "가.");
    assert_eq!(strip_end("ab  \n", CharSet::Whitespace), "ab");
    assert_eq!(strip("【名词】", CharSet::Only('【')), "名词】");
    for s in ["//a/", "a", "", "////"] {
        assert_eq!(strip(s, CharSet::Only('/')), s.trim_matches('/'));
    }
}

#[test]
fn split_matches_std_and_rejoins() {
    for s in ["一；二", "；", "", "一；；二；", "none"] {
        let pieces = split(s, CharSet::Only('；'));
        let std: Vec<String> = s.split('；').map(|p| p.to_owned()).collect();
        assert_eq!(pieces, std);
        assert_eq!(pieces.join("；"), s);
    }
    assert_eq!(
        split("1.a 2.b 10.c", CharSet::NonzeroDigit),
        vec!["", ".a ", ".b ", "0.c"]
    );
}
