//! Rendering a text template against the `package` table of a manifest.

use crate::text::is_space;
use vstd::prelude::*;
use vstd::string::*;

verus! {

/// The templates registered with `tinytemplate`.
#[verifier::external_type_specification]
#[verifier::external_body]
pub struct ExTinyTemplate<'template>(tinytemplate::TinyTemplate<'template>);

/// The source text of each template that is registered, by name.
pub uninterp spec fn template_sources(templates: tinytemplate::TinyTemplate) -> Map<
    Seq<char>,
    Seq<char>,
>;

/// Whether the registry formats values as one does that was just made: no
/// formatter was added, and the default one was not changed.
pub uninterp spec fn plain_registry(templates: tinytemplate::TinyTemplate) -> bool;

/// What `tinytemplate` says of a text that it does not accept as a template;
/// nothing for a text that it accepts.
pub uninterp spec fn template_refusal(text: Seq<char>) -> Option<Seq<char>>;

/// What `tinytemplate` renders for the template registered under `name`
/// among `sources`, with a TOML value as the context: the text, or its
/// description of the error.
pub uninterp spec fn template_rendering(
    sources: Map<Seq<char>, Seq<char>>,
    name: Seq<char>,
    context: toml::Value,
) -> Result<Seq<char>, Seq<char>>;

/// Whether `needle` stands in `text` at position `at`.
pub open spec fn stands_at(text: Seq<char>, needle: Seq<char>, at: int) -> bool {
    0 <= at && at + needle.len() <= text.len() && text.subrange(at, at + needle.len()) == needle
}

/// Whether `needle` stands somewhere in `text`.
pub open spec fn has_part(text: Seq<char>, needle: Seq<char>) -> bool {
    exists|at: int| stands_at(text, needle, at)
}

/// Whether the character takes one byte and is neither white space, nor a
/// dash, nor a closing brace.
pub open spec fn solid(c: char) -> bool {
    c <= '\u{7f}' && !is_space(c) && c != '-' && c != '}'
}

/// Whether the word that ends before position `at` has an argument after it:
/// a solid character at once, or one space and then a solid character.
pub open spec fn has_argument(text: Seq<char>, at: int) -> bool {
    0 <= at < text.len() && (solid(text[at]) || (text[at] == ' ' && at + 1 < text.len() && solid(
        text[at + 1],
    )))
}

/// Whether the text can be handed to the compiler of templates, which stops
/// the whole program on some texts. Left out are:
/// - a text that ends in a backslash;
/// - a text that holds `{#}`, a comment too short to have an end;
/// - a text with a block tag in which a `not` has no argument after it.
pub open spec fn template_safe(text: Seq<char>) -> bool {
    &&& text.len() > 0 ==> text.last() != '\\'
    &&& !has_part(text, "{#}"@)
    &&& has_part(text, "{{"@) ==> forall|at: int|
        stands_at(text, "not"@, at) ==> has_argument(text, at + 3)
}

/// What is said of a text that is not handed to the compiler of templates.
pub open spec fn unsafe_template() -> Seq<char> {
    "Failed to parse the template. Reason: the text ends in a backslash, or holds an empty comment or a `not` without an argument"@
}

/// The name under which the one template is registered.
pub open spec fn main_template() -> Seq<char> {
    "__main__"@
}

/// What rendering `text` as a template against `context` gives: the text
/// must be safe to compile and be accepted as a template; it is then the one
/// template of a registry and is rendered.
pub open spec fn rendered(text: Seq<char>, context: toml::Value) -> Result<Seq<char>, Seq<char>> {
    if !template_safe(text) {
        Err(unsafe_template())
    } else {
        match template_refusal(text) {
            Some(why) => Err(why),
            None => template_rendering(
                Map::<Seq<char>, Seq<char>>::empty().insert(main_template(), text),
                main_template(),
                context,
            ),
        }
    }
}

/// `tinytemplate::TinyTemplate::new`: a registry without templates, with
/// the formatters it comes with.
#[verifier::external_body]
fn templates_new<'template>() -> (registry: tinytemplate::TinyTemplate<'template>)
    ensures
        template_sources(registry) =~= Map::empty(),
        plain_registry(registry),
{
    tinytemplate::TinyTemplate::new()
}

/// `tinytemplate::TinyTemplate::add_template`: registers the text under the
/// name, in place of what was there, where it is accepted as a template;
/// otherwise the registry stays as it is and the error is handed out as the
/// text of its `Display`. The compiler slices the text on the assumption
/// that a comment has room for its two ends, that a `not` has an argument
/// and that an escaping backslash has something after it: texts for which
/// that fails are left out.
#[verifier::external_body]
fn templates_add<'template>(
    templates: &mut tinytemplate::TinyTemplate<'template>,
    name: &'template str,
    text: &'template str,
) -> (r: Result<(), String>)
    requires
        template_safe(text@),
    ensures
        match r {
            Ok(_) => template_refusal(text@) is None,
            Err(why) => template_refusal(text@) == Some(why@),
        },
        template_sources(*final(templates)) == if template_refusal(text@) is None {
            template_sources(*old(templates)).insert(name@, text@)
        } else {
            template_sources(*old(templates))
        },
        plain_registry(*final(templates)) == plain_registry(*old(templates)),
{
    templates.add_template(name, text).map_err(|err| err.to_string())
}

/// `tinytemplate::TinyTemplate::render` with a TOML value as the context, on
/// a registry with the formatters it came with: what is rendered depends on
/// the registered templates, the name and the context alone. The error is
/// handed out as the text of its `Display`.
#[verifier::external_body]
fn templates_render(
    templates: &tinytemplate::TinyTemplate,
    name: &str,
    context: &toml::Value,
) -> (r: Result<String, String>)
    requires
        plain_registry(*templates),
    ensures
        match r {
            Ok(text) => template_rendering(template_sources(*templates), name@, *context) == Ok::<
                Seq<char>,
                Seq<char>,
            >(text@),
            Err(why) => template_rendering(template_sources(*templates), name@, *context) == Err::<
                Seq<char>,
                Seq<char>,
            >(why@),
        },
{
    templates.render(name, context).map_err(|err| err.to_string())
}

/// Whether `needle` stands in `text` at position `at`.
fn stands(text: &str, needle: &str, at: usize) -> (r: bool)
    requires
        at <= text@.len(),
    ensures
        r == stands_at(text@, needle@, at as int),
{
    let n = text.unicode_len();
    let m = needle.unicode_len();
    if m > n - at {
        return false;
    }
    let mut k: usize = 0;
    while k < m
        invariant
            n == text@.len(),
            m == needle@.len(),
            at + m <= n,
            k <= m,
            forall|j: int| 0 <= j < k ==> text@[at + j] == needle@[j],
        decreases m - k,
    {
        if text.get_char(at + k) != needle.get_char(k) {
            assert(text@.subrange(at as int, at + m)[k as int] == text@[at + k]);
            return false;
        }
        k += 1;
    }
    assert(text@.subrange(at as int, at + m) =~= needle@);
    true
}

/// Whether `needle` stands somewhere in `text`.
fn holds_part(text: &str, needle: &str) -> (r: bool)
    ensures
        r == has_part(text@, needle@),
{
    let n = text.unicode_len();
    let mut at: usize = 0;
    while at < n
        invariant
            n == text@.len(),
            at <= n,
            forall|j: int| 0 <= j < at ==> !stands_at(text@, needle@, j),
        decreases n - at,
    {
        if stands(text, needle, at) {
            return true;
        }
        at += 1;
    }
    stands(text, needle, n)
}

/// Whether the character takes one byte and is neither white space, nor a
/// dash, nor a closing brace.
fn is_solid(c: char) -> (r: bool)
    ensures
        r == solid(c),
{
    c <= '\u{7f}' && !crate::text::char_is_space(c) && c != '-' && c != '}'
}

/// Whether every `not` in the text has an argument after it.
fn every_not_has_argument(text: &str) -> (r: bool)
    ensures
        r == (forall|at: int| stands_at(text@, "not"@, at) ==> has_argument(text@, at + 3)),
{
    let n = text.unicode_len();
    proof {
        reveal_strlit("not");
    }
    let mut at: usize = 0;
    while at < n
        invariant
            n == text@.len(),
            at <= n,
            "not"@.len() == 3,
            forall|j: int|
                0 <= j < at && stands_at(text@, "not"@, j) ==> has_argument(text@, j + 3),
        decreases n - at,
    {
        if stands(text, "not", at) {
            let after = at + 3;
            let argued = after < n && (is_solid(text.get_char(after)) || (text.get_char(after)
                == ' ' && after + 1 < n && is_solid(text.get_char(after + 1))));
            if !argued {
                assert(!has_argument(text@, at + 3));
                return false;
            }
        }
        at += 1;
    }
    true
}

/// Whether the text can be handed to the compiler of templates.
pub fn safe_template(text: &str) -> (r: bool)
    ensures
        r == template_safe(text@),
{
    let n = text.unicode_len();
    if n > 0 && text.get_char(n - 1) == '\\' {
        return false;
    }
    if holds_part(text, "{#}") {
        return false;
    }
    if holds_part(text, "{{") {
        every_not_has_argument(text)
    } else {
        true
    }
}

/// Renders `text` as a template against `context`. A text that the compiler
/// of templates cannot be trusted with, or does not accept, is an error; so
/// is a template that cannot be rendered.
pub fn render(text: &str, context: &toml::Value) -> (r: Result<String, String>)
    ensures
        match r {
            Ok(out) => rendered(text@, *context) == Ok::<Seq<char>, Seq<char>>(out@),
            Err(why) => rendered(text@, *context) == Err::<Seq<char>, Seq<char>>(why@),
        },
{
    if !safe_template(text) {
        return Err(
            String::from_str(
                "Failed to parse the template. Reason: the text ends in a backslash, or holds an empty comment or a `not` without an argument",
            ),
        );
    }
    let mut templates = templates_new();
    match templates_add(&mut templates, "__main__", text) {
        Err(why) => Err(why),
        Ok(_) => templates_render(&templates, "__main__", context),
    }
}

} // verus!
