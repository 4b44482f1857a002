use niumside_poptracker::google_calendar::formatting::html_to_md;

#[test]
fn test_html_to_md() {
    let html = r"
We're alive?<br><br>OPs by &lt;@<span>88392346210680832&gt;</span><br>See here for more info <a href='https://www.google.com'>Google</a>
        ";

    let md = html_to_md(html);

    let result = "We're alive?\n\nOPs by <@88392346210680832>\nSee here for more info [Google](https://www.google.com)";

    assert_eq!(md, result);
}

#[test]
fn styles_are_turned() {
    assert_eq!(html_to_md("<b>bold</b> and <strong>strong</strong>"), "**bold** and **strong**");
    assert_eq!(html_to_md("<i>slanted</i> <em>too</em>"), "*slanted* *too*");
    assert_eq!(html_to_md("<strike>gone</strike>"), "~~gone~~");
    assert_eq!(html_to_md("<u>under</u> a__b"), "under ab");
    assert_eq!(html_to_md("  a&nbsp;b<br/>c<br />d  "), "a b\nc\nd");
    assert_eq!(html_to_md("<a target=\"_blank\" href=\"https://x.example/\">here</a>"), "[here](https://x.example/)");
    assert_eq!(html_to_md(""), "");
    assert_eq!(html_to_md("plain"), "plain");
}

#[test]
fn white_space_is_taken_off_the_two_ends_only() {
    assert_eq!(html_to_md("\u{3000}\u{a0}\t a \u{2028} b\r\n\u{85}\u{205f}"), "a \u{2028} b");
    assert_eq!(html_to_md("\u{200b}a\u{200b}"), "\u{200b}a\u{200b}");
    assert_eq!(html_to_md("\u{1c}a\u{180e}"), "\u{1c}a\u{180e}");
    assert_eq!(html_to_md("&nbsp;a&nbsp;"), " a ");
    assert_eq!(html_to_md(" \u{1680}\u{2000}\u{200a}\u{2029}\u{202f}\u{b}\u{c} "), "");
}

#[test]
fn named_characters_are_put_back_from_the_left() {
    assert_eq!(html_to_md("&lt;&lt;&gt;&gt;"), "<<>>");
    assert_eq!(html_to_md("&&lt;lt;"), "&<lt;");
    assert_eq!(html_to_md("&l&lt;t;&g&gt;t;"), "&l<t;&g>t;");
    assert_eq!(html_to_md("&amp;lt; &LT; &lt"), "&amp;lt; &LT; &lt");
    assert_eq!(html_to_md("a&nbsp;&nbsp;b"), "a  b");
    assert_eq!(html_to_md("&lt;b&gt;x&lt;/b&gt;"), "**x**");
}
