//! Which characters the text renderer rasterises into its glyph atlas.
use vstd::prelude::*;

verus! {

/// The characters of the glyph atlas: ASCII letters and digits, the space,
/// and the punctuation `. , ? ! - _ : ; ' " ( ) [ ] { } / \`.
pub open spec fn spec_filter(c: char) -> bool {
    ||| 'a' <= c <= 'z'
    ||| 'A' <= c <= 'Z'
    ||| '0' <= c <= '9'
    ||| c == ' ' || c == '.' || c == ',' || c == '?' || c == '!' || c == '-' || c == '_'
    ||| c == ':' || c == ';' || c == '\'' || c == '"' || c == '(' || c == ')'
    ||| c == '[' || c == ']' || c == '{' || c == '}' || c == '/' || c == '\\'
}

/// Whether `c` is one of the characters of the glyph atlas.
pub fn filter(c: char) -> (r: bool)
    ensures
        r == spec_filter(c),
{
    match c {
        'a'..='z' | 'A'..='Z' | '0'..='9' => true,
        ' ' | '.' | ',' | '?' | '!' | '-' | '_' | ':' | ';' | '\'' | '"' => true,
        '(' | ')' | '[' | ']' | '{' | '}' | '/' | '\\' => true,
        _ => false,
    }
}

/// Every character of the glyph atlas is printable ASCII.
pub proof fn lemma_filter_is_ascii(c: char)
    ensures
        spec_filter(c) ==> ' ' <= c <= '~',
{
}

/// Among the printable ASCII characters, the glyph atlas holds all but the
/// symbols `#`, `$`, `%`, `&`, `*`, `+`, `<`, `=`, `>`, `@`, `^`, `|`, `~`
/// and the backquote; in particular every letter and digit.
pub proof fn lemma_filter_on_printable_ascii(c: char)
    ensures
        ' ' <= c <= '~' ==> (spec_filter(c) <==> !(c == '#' || c == '$' || c == '%' || c == '&'
            || c == '*' || c == '+' || c == '<' || c == '=' || c == '>' || c == '@' || c == '^'
            || c == '`' || c == '|' || c == '~')),
{
}

} // verus!
