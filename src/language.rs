use vstd::prelude::*;
use vstd::string::*;
use crate::error::TranslatorError;
use crate::translator::GoogleTranslator;

verus! {

#[verifier::external_type_specification]
#[verifier::external_body]
pub struct ExFmtError(strfmt::FmtError);

pub const LANGUAGE_AUTO: &'static str = "auto";
pub const SELECTOR_SOURCE_LANG: &'static str =
    ".hRFt4b .OoYv6d .MeCBDd .vSUSRc :nth-child(3) .qSb8Pe[data-language-code=\"{source}\"]";
pub const SELECTOR_TARGET_LANG: &'static str =
    ".hRFt4b .ykTHSe .MeCBDd .vSUSRc :nth-child(2) .qSb8Pe[data-language-code=\"{target}\"]";
pub const SELECTOR_SOURCE_AUTO: &'static str =
    ".hRFt4b .OoYv6d .MeCBDd .vSUSRc :nth-child(1) .qSb8Pe[data-language-code=\"auto\"]";

/// Which language card a code is chosen on.
#[derive(Debug, Clone, Copy, PartialEq, Eq, Structural)]
pub enum Side {
    Source,
    Target,
}

pub open spec fn is_auto(code: Seq<char>) -> bool {
    code == "auto"@
}

pub open spec fn is_en(code: Seq<char>) -> bool {
    code == "en"@
}

pub open spec fn is_zh_cn(code: Seq<char>) -> bool {
    code == "zh-CN"@
}

/// Codes accepted as the source language: auto-detection, English, simplified Chinese.
pub open spec fn supported_source(code: Seq<char>) -> bool {
    is_auto(code) || is_en(code) || is_zh_cn(code)
}

/// Codes accepted as the target language: auto-detection is not one of them.
pub open spec fn supported_target(code: Seq<char>) -> bool {
    is_en(code) || is_zh_cn(code)
}

pub open spec fn opt_view(s: Option<&str>) -> Option<Seq<char>> {
    match s {
        Some(x) => Some(x@),
        None => None,
    }
}

/// A requested pair is valid when at least one side is requested and every
/// requested side is supported.
pub open spec fn pair_valid(from: Option<Seq<char>>, to: Option<Seq<char>>) -> bool {
    &&& (from is Some || to is Some)
    &&& (from is Some ==> supported_source(from->0))
    &&& (to is Some ==> supported_target(to->0))
}

pub open spec fn or_empty(s: Option<Seq<char>>) -> Seq<char> {
    match s {
        Some(x) => x,
        None => Seq::empty(),
    }
}

/// Compares two strings character by character.
pub fn str_equal(a: &str, b: &str) -> (r: bool)
    ensures
        r == (a@ == b@),
{
    let n = a.unicode_len();
    if n != b.unicode_len() {
        return false;
    }
    let mut i: usize = 0;
    while i < n
        invariant
            n == a@.len(),
            n == b@.len(),
            i <= n,
            forall|j: int| 0 <= j < i ==> a@[j] == b@[j],
        decreases n - i,
    {
        if a.get_char(i) != b.get_char(i) {
            return false;
        }
        i = i + 1;
    }
    assert(a@ =~= b@);
    true
}

fn is_auto_code(code: &str) -> (r: bool)
    ensures
        r == is_auto(code@),
{
    str_equal(code, "auto")
}

fn is_supported_source(code: &str) -> (r: bool)
    ensures
        r == supported_source(code@),
{
    is_auto_code(code) || str_equal(code, "en") || str_equal(code, "zh-CN")
}

fn is_supported_target(code: &str) -> (r: bool)
    ensures
        r == supported_target(code@),
{
    str_equal(code, "en") || str_equal(code, "zh-CN")
}

fn owned_or_empty(s: Option<&str>) -> (r: String)
    ensures
        r@ == or_empty(opt_view(s)),
{
    match s {
        Some(x) => String::from_str(x),
        None => String::new(),
    }
}

impl GoogleTranslator {
    /// Checks a requested language pair before any page action. On failure the
    /// error carries the requested codes, an absent side as the empty string.
    pub fn validate_language(from: Option<&str>, to: Option<&str>) -> (r: Result<(), TranslatorError>)
        ensures
            r is Ok <==> pair_valid(opt_view(from), opt_view(to)),
            r matches Err(e) ==> (e matches TranslatorError::InvalidLanguage(s, t)
                && s@ == or_empty(opt_view(from)) && t@ == or_empty(opt_view(to))),
    {
        let ok = match (from, to) {
            (None, None) => false,
            (Some(source), None) => is_supported_source(source),
            (None, Some(target)) => is_supported_target(target),
            (Some(source), Some(target)) => is_supported_source(source) && is_supported_target(target),
        };
        if ok {
            Ok(())
        } else {
            Err(TranslatorError::InvalidLanguage(owned_or_empty(from), owned_or_empty(to)))
        }
    }
}

/// No brace occurs in `s`.
pub open spec fn brace_free(s: Seq<char>) -> bool {
    forall|i: int| 0 <= i < s.len() ==> s[i] != '{' && s[i] != '}'
}

/// A key that strfmt reads as a bare identifier: not empty, no brace, no colon.
pub open spec fn plain_key(k: Seq<char>) -> bool {
    &&& k.len() > 0
    &&& forall|i: int| 0 <= i < k.len() ==> k[i] != '{' && k[i] != '}' && k[i] != ':'
}

/// `template` holds `{key}` at `pos` and no other brace.
pub open spec fn single_placeholder(template: Seq<char>, key: Seq<char>, pos: int) -> bool {
    &&& plain_key(key)
    &&& 0 <= pos
    &&& pos + key.len() + 2 <= template.len()
    &&& template[pos] == '{'
    &&& template.subrange(pos + 1, pos + 1 + key.len()) == key
    &&& template[pos + 1 + key.len()] == '}'
    &&& brace_free(template.take(pos))
    &&& brace_free(template.skip(pos + key.len() + 2))
}

/// The template with the placeholder at `pos` replaced by `value`.
pub open spec fn substituted(template: Seq<char>, key: Seq<char>, pos: int, value: Seq<char>) -> Seq<char> {
    template.take(pos) + value + template.skip(pos + key.len() + 2)
}

/// Wherever `template` holds a single placeholder for `key`, `r` is the
/// template with `value` in its place.
pub open spec fn fills_placeholder(
    template: Seq<char>,
    key: Seq<char>,
    value: Seq<char>,
    r: Result<String, strfmt::FmtError>,
) -> bool {
    forall|pos: int| #[trigger] single_placeholder(template, key, pos) ==> (r matches Ok(s)
        && s@ == substituted(template, key, pos, value))
}

proof fn lemma_option_templates()
    ensures
        single_placeholder(SELECTOR_SOURCE_LANG@, "source"@, PLACEHOLDER_POS as int),
        single_placeholder(SELECTOR_TARGET_LANG@, "target"@, PLACEHOLDER_POS as int),
{
    reveal_strlit(".hRFt4b .OoYv6d .MeCBDd .vSUSRc :nth-child(3) .qSb8Pe[data-language-code=\"{source}\"]");
    reveal_strlit(".hRFt4b .ykTHSe .MeCBDd .vSUSRc :nth-child(2) .qSb8Pe[data-language-code=\"{target}\"]");
    reveal_strlit("source");
    reveal_strlit("target");
    assert(SELECTOR_SOURCE_LANG@.subrange(75, 81) =~= "source"@);
    assert(SELECTOR_TARGET_LANG@.subrange(75, 81) =~= "target"@);
}

/// What strfmt makes of `template` when `key` is bound to `value`, or None
/// where it reports an error.
pub uninterp spec fn strfmt_of(template: Seq<char>, key: Seq<char>, value: Seq<char>) -> Option<Seq<char>>;

/// Relies on strfmt::strfmt: the result depends on the template and the one
/// binding alone, and is an error exactly where strfmt reports one. A
/// template whose only braces enclose the bound key, with no format spec, is
/// copied with the value in place of the placeholder.
#[verifier::external_body]
fn format_template(template: &str, key: &str, value: &str) -> (r: Result<String, strfmt::FmtError>)
    ensures
        r matches Ok(s) ==> strfmt_of(template@, key@, value@) == Some(s@),
        r is Err ==> strfmt_of(template@, key@, value@) is None,
        fills_placeholder(template@, key@, value@, r),
{
    let mut vars = std::collections::HashMap::<String, String>::new();
    vars.insert(key.to_string(), value.to_string());
    strfmt::strfmt(template, &vars)
}

pub open spec fn template_of(side: Side) -> Seq<char> {
    match side {
        Side::Source => SELECTOR_SOURCE_LANG@,
        Side::Target => SELECTOR_TARGET_LANG@,
    }
}

pub open spec fn key_of(side: Side) -> Seq<char> {
    match side {
        Side::Source => "source"@,
        Side::Target => "target"@,
    }
}

/// Where the placeholder stands in each side's option template.
pub const PLACEHOLDER_POS: usize = 74;

/// The locator of a language option: the auto-detection entry has its own,
/// any other code is put in place of the placeholder of the side's template.
pub open spec fn option_selector(side: Side, code: Seq<char>) -> Option<Seq<char>> {
    if side == Side::Source && is_auto(code) {
        Some(SELECTOR_SOURCE_AUTO@)
    } else {
        Some(substituted(template_of(side), key_of(side), PLACEHOLDER_POS as int, code))
    }
}

/// Turns the outcome of filling a selector template into a locator; a
/// template that could not be filled fails closed.
pub fn selector_from_format(formatted: Result<String, strfmt::FmtError>, side: Side) -> (r: Result<String, TranslatorError>)
    ensures
        formatted matches Ok(s) ==> (r matches Ok(t) && t@ == s@),
        formatted is Err ==> (r matches Err(e) && e matches TranslatorError::OperationFailure(_)),
{
    match formatted {
        Ok(s) => Ok(s),
        Err(_) => {
            let msg = match side {
                Side::Source => "Failed to generate selector for source language",
                Side::Target => "Failed to generate selector for target language",
            };
            Err(TranslatorError::OperationFailure(String::from_str(msg)))
        },
    }
}

/// The locator of the option for `code` on the card of `side`. The source
/// side's auto-detection entry has a locator of its own.
pub fn resolve_option_selector(side: Side, code: &str) -> (r: Result<String, TranslatorError>)
    ensures
        r matches Ok(s) && Some(s@) == option_selector(side, code@),
{
    if side == Side::Source && is_auto_code(code) {
        return Ok(String::from_str(SELECTOR_SOURCE_AUTO));
    }
    let key = match side {
        Side::Source => "source",
        Side::Target => "target",
    };
    proof {
        lemma_option_templates();
    }
    selector_from_format(format_template(
        match side { Side::Source => SELECTOR_SOURCE_LANG, Side::Target => SELECTOR_TARGET_LANG },
        key, code), side)
}

} // verus!
