use music_player::{chars_of, trim};

#[test]
fn chars_keep_order_and_unicode() {
    assert_eq!(chars_of("aé\u{3000}z"), vec!['a', 'é', '\u{3000}', 'z']);
    assert_eq!(chars_of(""), Vec::<char>::new());
}

#[test]
fn trim_removes_unicode_space_at_both_ends_only() {
    let t = trim(&chars_of(" \t\u{a0}a b\r\n\u{2029}"));
    assert_eq!(t, vec!['a', ' ', 'b']);
    assert_eq!(trim(&chars_of(" \n\t ")), Vec::<char>::new());
    assert_eq!(trim(&chars_of("x")), vec!['x']);
    assert_eq!(trim(&chars_of("\u{200b}x")), vec!['\u{200b}', 'x']);
}
