//! Rendering an artifact: its text is a handlebars template whose one custom
//! directive, `env`, inlines configuration values.

use vstd::prelude::*;
use handlebars::{Context, Handlebars, Helper, HelperResult, JsonRender, Output, RenderContext};
use vstd::utf8::encode_utf8;
use crate::assets::{find_entry, lookup};

verus! {

/// The configuration entries visible to templates, in the order they were listed.
#[derive(Clone, Debug)]
pub struct Config {
    entries: Vec<(String, String)>,
}

impl View for Config {
    type V = Seq<(Seq<char>, Seq<char>)>;

    closed spec fn view(&self) -> Seq<(Seq<char>, Seq<char>)> {
        self.entries.deep_view()
    }
}

/// One line of the dump: `KEY=VALUE` and a newline.
pub open spec fn env_line(e: (Seq<char>, Seq<char>)) -> Seq<char> {
    e.0 + "="@ + e.1 + "\n"@
}

/// The dump of all entries: one line per entry, in order.
pub open spec fn env_dump(entries: Seq<(Seq<char>, Seq<char>)>) -> Seq<char>
    decreases entries.len(),
{
    if entries.len() == 0 {
        Seq::empty()
    } else {
        env_dump(entries.drop_last()) + env_line(entries.last())
    }
}

/// What the `env` directive writes: with an argument, the value of that entry
/// (nothing where it is unset); without one, the dump of all entries.
pub open spec fn env_directive_spec(entries: Seq<(Seq<char>, Seq<char>)>, name: Option<Seq<char>>) -> Seq<char> {
    match name {
        Some(n) => match lookup(entries, n) {
            Some(v) => v,
            None => Seq::empty(),
        },
        None => env_dump(entries),
    }
}

impl Config {
    /// A configuration with no entry.
    pub fn new() -> (r: Config)
        ensures
            r@ == Seq::<(Seq<char>, Seq<char>)>::empty(),
    {
        let r = Config { entries: Vec::new() };
        assert(r@ =~= Seq::<(Seq<char>, Seq<char>)>::empty());
        r
    }

    /// Adds the entry `key` = `value` at the end.
    pub fn insert(&mut self, key: String, value: String)
        ensures
            final(self)@ == old(self)@.push((key@, value@)),
    {
        self.entries.push((key, value));
        assert(final(self)@ =~= old(self)@.push((key@, value@)));
    }

    /// The value of the entry `key`, if there is one.
    pub fn get(&self, key: &String) -> (r: Option<String>)
        ensures
            r.deep_view() == lookup(self@, key@),
    {
        find_entry(&self.entries, key)
    }

    /// All entries as `KEY=VALUE` lines.
    pub fn dump(&self) -> (r: String)
        ensures
            r@ == env_dump(self@),
    {
        let mut r = String::new();
        let mut i: usize = 0;
        while i < self.entries.len()
            invariant
                i <= self.entries@.len(),
                r@ == env_dump(self@.subrange(0, i as int)),
            decreases self.entries.len() - i,
        {
            let ghost before = r@;
            r.append(self.entries[i].0.as_str());
            r.append("=");
            r.append(self.entries[i].1.as_str());
            r.append("\n");
            proof {
                let s = self@.subrange(0, i + 1);
                assert(s.drop_last() =~= self@.subrange(0, i as int));
                assert(s.last() == self@[i as int]);
                assert(r@ =~= before + env_line(self@[i as int]));
            }
            i = i + 1;
        }
        assert(self@.subrange(0, self@.len() as int) =~= self@);
        r
    }
}

/// What the `env` directive writes for an optional argument `name`.
pub fn env_directive(config: &Config, name: Option<&String>) -> (r: String)
    ensures
        r@ == env_directive_spec(config@, match name {
            Some(n) => Some(n@),
            None => None,
        }),
{
    match name {
        Some(n) => match config.get(n) {
            Some(v) => v,
            None => String::new(),
        },
        None => config.dump(),
    }
}

/// A `{{` starts at `i`.
pub open spec fn opens_tag(t: Seq<u8>, i: int) -> bool {
    0 <= i && i + 1 < t.len() && t[i] == 123 && t[i + 1] == 123
}

/// A `}}` starts at `i`.
pub open spec fn closes_tag(t: Seq<u8>, i: int) -> bool {
    0 <= i && i + 1 < t.len() && t[i] == 125 && t[i + 1] == 125
}

/// Position `j` lies inside a tag: a `{{` ends just before it, or the position
/// before lies inside a tag and does not start a `}}`.
pub open spec fn inside_tag(t: Seq<u8>, j: int) -> bool
    decreases j,
{
    if j < 2 {
        false
    } else {
        opens_tag(t, j - 2) || (inside_tag(t, j - 1) && !closes_tag(t, j - 1))
    }
}

/// Position `j` lies inside a tag after an odd number of `"` of that tag.
pub open spec fn in_string(t: Seq<u8>, j: int) -> bool
    decreases j,
{
    if j < 1 {
        false
    } else if inside_tag(t, j) && inside_tag(t, j - 1) {
        in_string(t, j - 1) != (t[j - 1] == 34)
    } else {
        false
    }
}

/// The bytes a tag may hold: none of `>` `*` `#` `(` `[` `{` `'` `\`, and no `}`
/// inside a string.
pub open spec fn allowed_in_tag(b: u8, quoted: bool) -> bool {
    b != 62 && b != 42 && b != 35 && b != 40 && b != 91 && b != 123 && b != 39 && b != 92 && !(quoted
        && b == 125)
}

/// A template whose tags are flat: no partial, decorator, block, subexpression,
/// array or object literal, and each tag ends at its first `}}`. Only directives
/// such as `{{env "NAME"}}` and plain references remain.
pub open spec fn is_plain_template(t: Seq<u8>) -> bool {
    forall|j: int| 0 <= j < t.len() && #[trigger] inside_tag(t, j) ==> allowed_in_tag(t[j], in_string(t, j))
}

/// No `{{` occurs in the text.
pub open spec fn has_no_tag(t: Seq<u8>) -> bool {
    forall|i: int| !#[trigger] opens_tag(t, i)
}

proof fn lemma_outside_without_tags(t: Seq<u8>, j: int)
    requires
        has_no_tag(t),
    ensures
        !inside_tag(t, j),
    decreases j,
{
    if j >= 2 {
        assert(!opens_tag(t, j - 2));
        lemma_outside_without_tags(t, j - 1);
    }
}

/// Text without `{{` is a plain template.
proof fn lemma_no_tag_is_plain(t: Seq<u8>)
    requires
        has_no_tag(t),
    ensures
        is_plain_template(t),
{
    assert forall|j: int| 0 <= j < t.len() && #[trigger] inside_tag(t, j) implies allowed_in_tag(t[j], in_string(t, j)) by {
        lemma_outside_without_tags(t, j);
    }
}

fn allowed_byte(b: u8, quoted: bool) -> (r: bool)
    ensures
        r == allowed_in_tag(b, quoted),
{
    b != 62 && b != 42 && b != 35 && b != 40 && b != 91 && b != 123 && b != 39 && b != 92 && !(quoted
        && b == 125)
}

/// Whether a template is plain, so that it is safe to hand to the renderer.
pub fn is_plain_template_text(text: &str) -> (r: bool)
    ensures
        r == is_plain_template(encode_utf8(text@)),
{
    let t = text.as_bytes();
    let ghost s = t@;
    let mut inside = false;
    let mut quoted = false;
    let mut j: usize = 0;
    while j < t.len()
        invariant
            s == t@,
            s == encode_utf8(text@),
            j <= t@.len(),
            inside == inside_tag(s, j as int),
            quoted == in_string(s, j as int),
            forall|k: int| 0 <= k < j && #[trigger] inside_tag(s, k) ==> allowed_in_tag(s[k], in_string(s, k)),
        decreases t.len() - j,
    {
        if inside && !allowed_byte(t[j], quoted) {
            assert(inside_tag(s, j as int) && !allowed_in_tag(s[j as int], in_string(s, j as int)));
            return false;
        }
        let opens = j >= 1 && t[j - 1] == 123 && t[j] == 123;
        let closes = j + 1 < t.len() && t[j] == 125 && t[j + 1] == 125;
        let next_inside = opens || (inside && !closes);
        let next_quoted = if next_inside && inside {
            quoted != (t[j] == 34)
        } else {
            false
        };
        assert(next_inside == inside_tag(s, j + 1));
        assert(next_quoted == in_string(s, j + 1));
        inside = next_inside;
        quoted = next_quoted;
        j = j + 1;
    }
    true
}

/// The text that a template renders to against a configuration, or `None` where
/// the template does not render.
pub uninterp spec fn rendered_of(template: Seq<char>, entries: Seq<(Seq<char>, Seq<char>)>) -> Option<Seq<char>>;

/// Relies on handlebars::Handlebars::render_template, with the helper `env`
/// registered to write what `env_directive` gives for its first argument: the
/// outcome depends on the template and the configuration alone. A plain template
/// holds no partial (which could include itself without end) and nests nothing,
/// so rendering it returns. Text without `{{` is raw text in handlebars' grammar
/// and renders to itself.
#[verifier::external_body]
fn render_template(template: &str, config: &Config) -> (r: Option<String>)
    requires
        is_plain_template(encode_utf8(template@)),
    ensures
        rendered_of(template@, config@) == r.deep_view(),
        has_no_tag(encode_utf8(template@)) ==> r.deep_view() == Some(template@),
{
    let mut registry = Handlebars::new();
    registry.register_helper("env", Box::new(move |h: &Helper<'_, '_>, _: &Handlebars<'_>, _: &Context, _: &mut RenderContext<'_, '_>, out: &mut dyn Output| -> HelperResult {
        let name = h.param(0).map(|p| p.value().render());
        out.write(env_directive(config, name.as_ref()).as_str())?;
        Ok(())
    }));
    registry.render_template(template, &serde_json::Map::new()).ok()
}

/// What rendering a template gives: its rendering where it is plain, `None`
/// otherwise.
pub open spec fn render_spec(template: Seq<char>, entries: Seq<(Seq<char>, Seq<char>)>) -> Option<Seq<char>> {
    if is_plain_template(encode_utf8(template)) {
        rendered_of(template, entries)
    } else {
        None
    }
}

/// Renders an artifact's text against the configuration; a template that is not
/// plain is refused.
pub fn render(template: &String, config: &Config) -> (r: Option<String>)
    ensures
        r.deep_view() == render_spec(template@, config@),
        has_no_tag(encode_utf8(template@)) ==> r.deep_view() == Some(template@),
{
    let text = template.as_str();
    proof {
        if has_no_tag(encode_utf8(template@)) {
            lemma_no_tag_is_plain(encode_utf8(template@));
        }
    }
    if is_plain_template_text(text) {
        render_template(text, config)
    } else {
        None
    }
}

} // verus!
