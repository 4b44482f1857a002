//! The descriptions of calendar entries, turned from the markup they come in
//! into the markup of chat messages.
use vstd::prelude::*;

verus! {

/// Whether a character is white space: one of the characters to which
/// Unicode gives the property of that name.
pub open spec fn is_white_space(c: char) -> bool {
    let code = c as u32;
    ||| 0x09 <= code <= 0x0d
    ||| code == 0x20
    ||| code == 0x85
    ||| code == 0xa0
    ||| code == 0x1680
    ||| 0x2000 <= code <= 0x200a
    ||| code == 0x2028
    ||| code == 0x2029
    ||| code == 0x202f
    ||| code == 0x205f
    ||| code == 0x3000
}

/// A text without the white space that it begins with.
pub open spec fn trimmed_start(text: Seq<char>) -> Seq<char>
    decreases text.len(),
{
    if text.len() > 0 && is_white_space(text[0]) {
        trimmed_start(text.skip(1))
    } else {
        text
    }
}

/// A text without the white space that it ends with.
pub open spec fn trimmed_end(text: Seq<char>) -> Seq<char>
    decreases text.len(),
{
    if text.len() > 0 && is_white_space(text.last()) {
        trimmed_end(text.drop_last())
    } else {
        text
    }
}

/// A text without the white space at its two ends.
pub open spec fn trimmed(text: Seq<char>) -> Seq<char> {
    trimmed_end(trimmed_start(text))
}

/// A text with every match of `from` replaced by `to`. The text is read
/// from its start: where `from` stands, `to` is written and reading goes on
/// behind the match; elsewhere one character is kept. Without a `from`
/// nothing is replaced here.
pub open spec fn replaced(text: Seq<char>, from: Seq<char>, to: Seq<char>) -> Seq<char>
    decreases text.len(),
{
    if from.len() == 0 || text.len() < from.len() {
        text
    } else if text.take(from.len() as int) == from {
        to + replaced(text.skip(from.len() as int), from, to)
    } else {
        seq![text[0]] + replaced(text.skip(1), from, to)
    }
}

/// What `regex::Regex::replace_all` makes of a text for the expression
/// `pattern` and the replacement `replacement`; `None` where
/// `regex::Regex::new` refuses the expression.
pub uninterp spec fn regex_replaced(
    pattern: Seq<char>,
    text: Seq<char>,
    replacement: Seq<char>,
) -> Option<Seq<char>>;

/// Takes the white space off the two ends of a text with `str::trim`. The
/// contract claims that `str::trim` takes off, at either end, the
/// characters with Unicode's property of white space and no others.
#[verifier::external_body]
fn trim(text: &str) -> (r: String)
    ensures
        r@ == trimmed(text@),
{
    text.trim().to_string()
}

/// Replaces every match of `from` in a text by `to` with `str::replace`. The
/// contract claims that `str::replace` finds its matches from the start of
/// the text, each behind the one before it, and leaves the rest as it is.
/// Nothing is claimed of an empty `from`, which is left out.
#[verifier::external_body]
fn replace(text: &str, from: &str, to: &str) -> (r: String)
    requires
        from@.len() > 0,
    ensures
        r@ == replaced(text@, from@, to@),
{
    text.replace(from, to)
}

/// Replaces every match of the expression `pattern` in a text with
/// `regex::Regex::replace_all`, the expression being compiled with
/// `regex::Regex::new` first; `None` where it does not compile. The contract
/// names the result and claims no more.
#[verifier::external_body]
fn replace_all(pattern: &str, text: &str, replacement: &str) -> (r: Option<String>)
    ensures
        match r {
            Some(r) => regex_replaced(pattern@, text@, replacement@) == Some(r@),
            None => regex_replaced(pattern@, text@, replacement@) is None,
        },
{
    regex::Regex::new(pattern).ok().map(|re| re.replace_all(text, replacement).into_owned())
}

/// A text with the matches of an expression replaced; the text as it is
/// where the expression does not compile.
pub open spec fn rewritten(text: Seq<char>, pattern: Seq<char>, replacement: Seq<char>) -> Seq<
    char,
> {
    match regex_replaced(pattern, text, replacement) {
        Some(text) => text,
        None => text,
    }
}

fn rewrite(text: String, pattern: &str, replacement: &str) -> (r: String)
    ensures
        r@ == rewritten(text@, pattern@, replacement@),
{
    match replace_all(pattern, text.as_str(), replacement) {
        Some(text) => text,
        None => text,
    }
}

/// The description after the named characters have been put back.
pub open spec fn unescaped(description: Seq<char>) -> Seq<char> {
    replaced(
        replaced(replaced(trimmed(description), "&lt;"@, "<"@), "&gt;"@, ">"@),
        "&nbsp;"@,
        " "@,
    )
}

/// The description after its tags for weight, slant, underline and strike
/// have been turned; what would underline is then taken out again.
pub open spec fn restyled(text: Seq<char>) -> Seq<char> {
    rewritten(
        rewritten(
            rewritten(
                rewritten(rewritten(text, r"</?(b|strong)>"@, "**"@), r"</?(i|em)>"@, "*"@),
                r"</?u>"@,
                "__"@,
            ),
            r"</?strike>"@,
            "~~"@,
        ),
        r"__+"@,
        ""@,
    )
}

/// What a description in the calendar's markup becomes in the markup of chat
/// messages: the ends trimmed, the named characters put back, the tags for
/// style turned, the spans dropped, the line breaks made and the links
/// rewritten, in this order.
pub open spec fn spec_html_to_md(description: Seq<char>) -> Seq<char> {
    rewritten(
        rewritten(
            rewritten(restyled(unescaped(description)), r"</?span>"@, ""@),
            r"</?br\s?/?>"@,
            "\n"@,
        ),
        r#"<a.*?href=["']([^"']*)["'][^>]*>([^<]*)</a>"#@,
        "[$2]($1)"@,
    )
}

pub fn html_to_md(description: &str) -> (md: String)
    ensures
        md@ == spec_html_to_md(description@),
{
    let mut md = trim(description);

    proof {
        reveal_strlit("&lt;");
        reveal_strlit("&gt;");
        reveal_strlit("&nbsp;");
    }
    md = replace(md.as_str(), "&lt;", "<");
    md = replace(md.as_str(), "&gt;", ">");
    md = replace(md.as_str(), "&nbsp;", " ");

    md = rewrite(md, r"</?(b|strong)>", "**");
    md = rewrite(md, r"</?(i|em)>", "*");
    md = rewrite(md, r"</?u>", "__");
    md = rewrite(md, r"</?strike>", "~~");
    md = rewrite(md, r"__+", "");
    md = rewrite(md, r"</?span>", "");
    md = rewrite(md, r"</?br\s?/?>", "\n");
    md = rewrite(md, r#"<a.*?href=["']([^"']*)["'][^>]*>([^<]*)</a>"#, "[$2]($1)");

    md
}

} // verus!
