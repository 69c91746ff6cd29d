//! Bringing translation messages of different origins into one common form,
//! so that they can be compared.

use crate::net::{decimal, decimal_text};
use vstd::prelude::*;
use vstd::string::{StrSliceExecFns, StringExecFns};

verus! {

/// An escaped apostrophe.
pub const APOSTROPHES: &'static str = r"\\'";

/// An escaped double quote.
pub const DOUBLE_QUOTES: &'static str = r#"\\""#;

/// The start of a parameter together with its index.
pub const PARAMETERS: &'static str = r"%[0-9]*\$";

/// The start of a parameter together with its name.
pub const NAMED_PARAMETERS: &'static str = r"%\([^)]*\)";

/// A backslash.
pub const BACKSLASHES: &'static str = r"\\";

/// A double quote.
pub const PLAIN_DOUBLE_QUOTES: &'static str = r#"""#;

/// An apostrophe.
pub const PLAIN_APOSTROPHES: &'static str = "'";

/// A line break with the white space around it.
pub const LINE_BREAKS: &'static str = r"\s*\n\s*";

/// Whether `regex::Regex::new` accepts `pattern`.
pub uninterp spec fn regex_compiles(pattern: Seq<char>) -> bool;

/// What `regex::Regex::replace_all` returns for the regular expression
/// compiled from `pattern`, on `haystack` with `replacement`.
pub uninterp spec fn regex_replace_all(
    pattern: Seq<char>,
    haystack: Seq<char>,
    replacement: Seq<char>,
) -> Seq<char>;

/// What `htmlize::unescape` returns for `escaped`.
pub uninterp spec fn html_unescape(escaped: Seq<char>) -> Seq<char>;

/// What stands for `c` in escaped text: the character reference of an
/// ampersand, of a less-than sign and of a greater-than sign, and every
/// other character itself.
pub open spec fn html_escape_char(c: char) -> Seq<char> {
    if c == '&' {
        "&amp;"@
    } else if c == '<' {
        "&lt;"@
    } else if c == '>' {
        "&gt;"@
    } else {
        seq![c]
    }
}

/// `text` escaped for a text node: every character replaced by what stands
/// for it.
pub open spec fn html_escape_text(text: Seq<char>) -> Seq<char>
    decreases text.len(),
{
    if text.len() == 0 {
        Seq::empty()
    } else {
        html_escape_text(text.drop_last()) + html_escape_char(text.last())
    }
}

/// `text` with every match of `pattern` replaced by `replacement`; `text`
/// itself where `pattern` is no regular expression.
pub open spec fn replaced(pattern: Seq<char>, text: Seq<char>, replacement: Seq<char>) -> Seq<
    char,
> {
    if regex_compiles(pattern) {
        regex_replace_all(pattern, text, replacement)
    } else {
        text
    }
}

/// Compiles `pattern` with `regex::Regex::new` and replaces every match in
/// `haystack` with `regex::Regex::replace_all`. The result is `None` exactly
/// where the pattern does not compile; else it is what `replace_all`
/// returns, which depends on the three arguments alone.
#[verifier::external_body]
fn replace_all(pattern: &str, haystack: &str, replacement: &str) -> (r: Option<String>)
    ensures
        r is Some <==> regex_compiles(pattern@),
        r matches Some(text) ==> text@ == regex_replace_all(pattern@, haystack@, replacement@),
{
    match regex::Regex::new(pattern) {
        Ok(regex) => Some(regex.replace_all(haystack, replacement).into_owned()),
        Err(_) => None,
    }
}

/// Expands the character references in `escaped` with `htmlize::unescape`.
/// The result depends on the argument alone.
#[verifier::external_body]
fn unescape(escaped: String) -> (r: String)
    ensures
        r@ == html_unescape(escaped@),
{
    htmlize::unescape(escaped).into_owned()
}

/// Escapes `text` for a text node with `htmlize::escape_text`, which puts
/// `&amp;`, `&lt;` and `&gt;` in the place of an ampersand, a less-than sign
/// and a greater-than sign and leaves every other character as it is.
#[verifier::external_body]
fn escape_text(text: &str) -> (r: String)
    ensures
        r@ == html_escape_text(text@),
{
    htmlize::escape_text(text).into_owned()
}

/// `text` with every match of `pattern` replaced by `replacement`.
pub fn replace(pattern: &str, text: String, replacement: &str) -> (r: String)
    ensures
        r@ == replaced(pattern@, text@, replacement@),
{
    match replace_all(pattern, text.as_str(), replacement) {
        Some(replaced) => replaced,
        None => text,
    }
}

/// Whether `c` is a decimal digit.
pub open spec fn is_digit(c: char) -> bool {
    c == '0' || c == '1' || c == '2' || c == '3' || c == '4' || c == '5' || c == '6' || c == '7'
        || c == '8' || c == '9'
}

/// Whether an index stands in `text` at `at`: one or more digits and a
/// dollar sign after them.
pub open spec fn index_at(text: Seq<char>, at: int) -> bool
    decreases text.len() - at,
{
    0 <= at && at + 1 < text.len() && is_digit(text[at]) && (text[at + 1] == '$' || index_at(
        text,
        at + 1,
    ))
}

/// The index that the parameter gets which comes after `seen` other
/// parameters: the one that `ordering` gives for it, or else its place in
/// the text, counted from 1.
pub open spec fn index_of(ordering: Option<Seq<i8>>, seen: nat) -> int {
    match ordering {
        Some(ordering) => if seen < ordering.len() {
            ordering[seen as int] as int
        } else {
            (seen + 1) as int
        },
        None => (seen + 1) as int,
    }
}

/// The numeral of an index, with a minus sign where it is negative.
pub open spec fn index_text(index: int) -> Seq<char> {
    if index < 0 {
        "-"@ + decimal_text((-index) as nat)
    } else {
        decimal_text(index as nat)
    }
}

/// The rest of `text` from `at` on with every parameter indexed, where
/// `seen` parameters stand before `at`. A percent sign begins a parameter,
/// unless another percent sign follows it: the two stand for a percent sign
/// and stay as they are. A parameter with an index stays as it is; one
/// without gets its index and a dollar sign behind its percent sign.
pub open spec fn indexed_from(
    text: Seq<char>,
    ordering: Option<Seq<i8>>,
    at: int,
    seen: nat,
) -> Seq<char>
    decreases text.len() - at,
{
    if at < 0 || at >= text.len() {
        Seq::empty()
    } else if text[at] != '%' {
        seq![text[at]] + indexed_from(text, ordering, at + 1, seen)
    } else if at + 1 < text.len() && text[at + 1] == '%' {
        "%%"@ + indexed_from(text, ordering, at + 2, seen)
    } else if index_at(text, at + 1) {
        "%"@ + indexed_from(text, ordering, at + 1, seen + 1)
    } else {
        "%"@ + index_text(index_of(ordering, seen)) + "$"@ + indexed_from(
            text,
            ordering,
            at + 1,
            seen + 1,
        )
    }
}

/// `text` with every parameter indexed.
pub open spec fn indexed(text: Seq<char>, ordering: Option<Seq<i8>>) -> Seq<char> {
    indexed_from(text, ordering, 0, 0)
}

/// The view of an ordering that may be absent.
pub open spec fn ordering_view(ordering: Option<Vec<i8>>) -> Option<Seq<i8>> {
    match ordering {
        Some(ordering) => Some(ordering@),
        None => None,
    }
}

/// Whether `c` is a decimal digit.
fn digit(c: char) -> (r: bool)
    ensures
        r == is_digit(c),
{
    c == '0' || c == '1' || c == '2' || c == '3' || c == '4' || c == '5' || c == '6' || c == '7'
        || c == '8' || c == '9'
}

/// Whether an index stands in `text` at `at`.
fn index_follows(text: &str, at: usize, length: usize) -> (r: bool)
    requires
        length == text@.len(),
        at <= length,
    ensures
        r == index_at(text@, at as int),
    decreases length - at,
{
    if at < length && at + 1 < length && digit(text.get_char(at)) {
        text.get_char(at + 1) == '$' || index_follows(text, at + 1, length)
    } else {
        false
    }
}

/// The numeral of the index that the parameter gets which comes after
/// `seen` other parameters.
fn describe_index(ordering: &Option<Vec<i8>>, seen: usize) -> (r: String)
    requires
        seen < usize::MAX,
    ensures
        r@ == index_text(index_of(ordering_view(*ordering), seen as nat)),
{
    let given: Option<i8> = match ordering {
        Some(ordering) => {
            if seen < ordering.len() {
                Some(ordering[seen])
            } else {
                None
            }
        },
        None => None,
    };
    match given {
        Some(index) => {
            if index < 0 {
                let mut text = String::from_str("-");
                text.append(decimal((-(index as i64)) as u64).as_str());
                text
            } else {
                decimal(index as u64)
            }
        },
        None => decimal((seen + 1) as u64),
    }
}

/// `original` with every parameter indexed: a parameter without an index
/// gets the one that `arg_ordering` gives for it, or else its place in the
/// text.
pub fn ensure_parameters_are_indexed(
    original: &str,
    arg_ordering: &Option<Vec<i8>>,
) -> (r: String)
    ensures
        r@ == indexed(original@, ordering_view(*arg_ordering)),
{
    let length = original.unicode_len();
    let ghost ordering = ordering_view(*arg_ordering);
    let mut output = String::new();
    let mut at: usize = 0;
    let mut seen: usize = 0;
    proof {
        assert(output@ + indexed_from(original@, ordering, 0, 0) =~= indexed(
            original@,
            ordering,
        ));
    }
    while at < length
        invariant
            at <= length,
            seen <= at,
            length == original@.len(),
            ordering == ordering_view(*arg_ordering),
            indexed(original@, ordering) == output@ + indexed_from(
                original@,
                ordering,
                at as int,
                seen as nat,
            ),
        decreases length - at,
    {
        let ghost before = output@;
        let c = original.get_char(at);
        if c != '%' {
            output.append(original.substring_char(at, at + 1));
            assert(original@.subrange(at as int, at + 1) =~= seq![original@[at as int]]);
            assert(output@ + indexed_from(original@, ordering, at + 1, seen as nat) =~= before
                + indexed_from(original@, ordering, at as int, seen as nat));
            at += 1;
        } else if at + 1 < length && original.get_char(at + 1) == '%' {
            output.append("%%");
            assert(output@ + indexed_from(original@, ordering, at + 2, seen as nat) =~= before
                + indexed_from(original@, ordering, at as int, seen as nat));
            at += 2;
        } else if index_follows(original, at + 1, length) {
            output.append("%");
            assert(output@ + indexed_from(original@, ordering, at + 1, (seen + 1) as nat)
                =~= before + indexed_from(original@, ordering, at as int, seen as nat));
            at += 1;
            seen += 1;
        } else {
            output.append("%");
            output.append(describe_index(arg_ordering, seen).as_str());
            output.append("$");
            assert(output@ + indexed_from(original@, ordering, at + 1, (seen + 1) as nat)
                =~= before + indexed_from(original@, ordering, at as int, seen as nat));
            at += 1;
            seen += 1;
        }
    }
    assert(output@ + Seq::<char>::empty() =~= output@);
    output
}

/// A message that can be brought into the common form.
pub trait Normalize {
    /// Normalize the string value into a common format.
    ///
    /// Makes it possible to compare different representations of translation
    /// messages.
    fn normalize(&self) -> String;
}

/// The value of an Android string resource, escaped as the resource file
/// holds it.
#[derive(Debug, PartialEq, Eq)]
pub struct StringValue(pub String);

impl StringValue {
    /// The text of the value with apostrophes, double quotes and character
    /// references unescaped.
    pub open spec fn unescaped(self) -> Seq<char> {
        html_unescape(replaced(DOUBLE_QUOTES@, replaced(APOSTROPHES@, self.0@, "'"@), "\""@))
    }

    /// The text of the value in the common form.
    pub open spec fn normalized(self) -> Seq<char> {
        html_unescape(
            replaced(
                PARAMETERS@,
                replaced(DOUBLE_QUOTES@, replaced(APOSTROPHES@, self.0@, "'"@), "\""@),
                "%"@,
            ),
        )
    }

    /// The escaped form of `text`: backslashes, double quotes and
    /// apostrophes escaped with a backslash, after the characters that XML
    /// reserves have been escaped.
    pub open spec fn escaped(text: Seq<char>) -> Seq<char> {
        replaced(
            PLAIN_APOSTROPHES@,
            replaced(
                PLAIN_DOUBLE_QUOTES@,
                replaced(BACKSLASHES@, html_escape_text(text), r"\\"@),
                r#"\""#@,
            ),
            r"\'"@,
        )
    }

    /// The value that is made of `text`: `text` escaped, then every
    /// parameter indexed, then every line break collapsed to a space
    /// together with the white space around it.
    pub open spec fn of_unescaped(text: Seq<char>, ordering: Option<Seq<i8>>) -> Seq<char> {
        replaced(LINE_BREAKS@, indexed(StringValue::escaped(text), ordering), " "@)
    }

    /// Creates a `StringValue` from an unescaped string.
    ///
    /// The string will be properly escaped, and all parameters will have
    /// indices added to them if they don't have any: the indices that
    /// `arg_ordering` gives, or else their places in the string.
    pub fn from_unescaped(string: &str, arg_ordering: Option<Vec<i8>>) -> (r: StringValue)
        ensures
            r.0@ == StringValue::of_unescaped(string@, ordering_view(arg_ordering)),
    {
        let value = escape_text(string);
        let value = replace(BACKSLASHES, value, r"\\");
        let value = replace(PLAIN_DOUBLE_QUOTES, value, r#"\""#);
        let value = replace(PLAIN_APOSTROPHES, value, r"\'");
        let value = ensure_parameters_are_indexed(value.as_str(), &arg_ordering);
        let value = replace(LINE_BREAKS, value, " ");
        StringValue(value)
    }

    /// The common form of the value, but with the indices of its parameters
    /// kept.
    pub fn normalize_keep_parameter_indices(&self) -> (r: String)
        ensures
            r@ == self.unescaped(),
    {
        // Unescape apostrophes
        let value = replace(APOSTROPHES, self.0.clone(), "'");
        // Unescape double quotes
        let value = replace(DOUBLE_QUOTES, value, "\"");
        // Unescape XML characters
        unescape(value)
    }
}

impl Normalize for StringValue {
    fn normalize(&self) -> (r: String)
        ensures
            r@ == self.normalized(),
    {
        // Unescape apostrophes
        let value = replace(APOSTROPHES, self.0.clone(), "'");
        // Unescape double quotes
        let value = replace(DOUBLE_QUOTES, value, "\"");
        // Mark where parameters are positioned, removing the parameter index
        let value = replace(PARAMETERS, value, "%");
        // Unescape XML characters
        unescape(value)
    }
}

/// A gettext message string, escaped as the message file holds it.
#[derive(Debug, PartialEq, Eq)]
pub struct MsgString(pub String);

impl MsgString {
    /// The text of the message in the common form.
    pub open spec fn normalized(self) -> Seq<char> {
        replaced(
            DOUBLE_QUOTES@,
            replaced(
                APOSTROPHES@,
                replaced(PARAMETERS@, replaced(NAMED_PARAMETERS@, self.0@, "%"@), "%"@),
                "'"@,
            ),
            "\""@,
        )
    }

    /// Creates a `MsgString` from text that is escaped already.
    pub fn from_escaped(string: &str) -> (r: MsgString)
        ensures
            r.0@ == string@,
    {
        MsgString(string.to_owned())
    }
}

impl Normalize for MsgString {
    fn normalize(&self) -> (r: String)
        ensures
            r@ == self.normalized(),
    {
        // Mark where parameters are positioned, removing the parameter name
        let string = replace(NAMED_PARAMETERS, self.0.clone(), "%");
        let string = replace(PARAMETERS, string, "%");
        // Remove escaped single-quotes
        let string = replace(APOSTROPHES, string, "'");
        // Remove escaped double-quotes
        replace(DOUBLE_QUOTES, string, "\"")
    }
}

} // verus!
