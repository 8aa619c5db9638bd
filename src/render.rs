use vstd::prelude::*;
use vstd::string::*;

use crate::config::Configuration;
use crate::config::InitConfig;
use crate::error::Error;
use crate::text::{ends_with, has_suffix};

verus! {

#[verifier::external_type_specification]
#[verifier::external_body]
pub struct ExRegistry<'reg>(handlebars::Handlebars<'reg>);

#[verifier::external_type_specification]
#[verifier::external_body]
pub struct ExTemplateError(handlebars::TemplateError);

/// A template registry that lives as long as the process.
pub type Engine = handlebars::Handlebars<'static>;

/// The key of the template that renders the build file.
pub const FLAKE_TEMPLATE: &'static str = "flake/root.nix";

/// A record of sections, each a list of named text fields: the shape of the
/// data handed to templates.
pub type Record = Vec<(String, Vec<(String, String)>)>;

pub open spec fn fields_view(f: Seq<(String, String)>) -> Seq<(Seq<char>, Seq<char>)> {
    f.map_values(|p: (String, String)| (p.0@, p.1@))
}

pub open spec fn record_view(r: Seq<(String, Vec<(String, String)>)>) -> Seq<(Seq<char>, Seq<(Seq<char>, Seq<char>)>)> {
    r.map_values(|p: (String, Vec<(String, String)>)| (p.0@, fields_view(p.1@)))
}

/// The template texts a registry holds, by key.
pub uninterp spec fn templates_of(h: Engine) -> Map<Seq<char>, Seq<char>>;

/// What the template engine makes of the template `name` among `templates`
/// over the record `data`; `None` when it fails to render.
pub uninterp spec fn rendered_of(
    templates: Map<Seq<char>, Seq<char>>,
    name: Seq<char>,
    data: Seq<(Seq<char>, Seq<(Seq<char>, Seq<char>)>)>,
) -> Option<Seq<char>>;

/// Whether the template engine accepts `text` as a template.
pub uninterp spec fn template_compiles(text: Seq<char>) -> bool;

/// A character that may stand between a tag's opening `{{` and its kind.
pub open spec fn is_tag_filler(c: char) -> bool {
    c == ' ' || c == '\t' || c == '\n' || c == '\r' || c == '~' || c == '#'
}

/// From position `i` on, past any filler, the next character marks a partial
/// (`>`) or a decorator such as an inline partial definition (`*`).
pub open spec fn partial_mark_at(s: Seq<char>, i: int) -> bool
    decreases s.len() - i,
{
    if i < 0 || i >= s.len() {
        false
    } else if s[i] == '>' || s[i] == '*' {
        true
    } else if is_tag_filler(s[i]) {
        partial_mark_at(s, i + 1)
    } else {
        false
    }
}

/// The text opens a tag at `i` that includes a partial or defines one.
pub open spec fn partial_tag_at(s: Seq<char>, i: int) -> bool {
    0 <= i && i + 1 < s.len() && s[i] == '{' && s[i + 1] == '{' && partial_mark_at(s, i + 2)
}

/// The text includes or defines partials anywhere. Templates that do could
/// include each other without end, so the registry holds none.
pub open spec fn uses_partials(s: Seq<char>) -> bool {
    exists|i: int| partial_tag_at(s, i)
}

/// None of the held templates uses partials.
pub open spec fn partial_free(templates: Map<Seq<char>, Seq<char>>) -> bool {
    forall|k: Seq<char>| #[trigger] templates.contains_key(k) ==> !uses_partials(templates[k])
}

/// A registry model with no templates.
pub open spec fn no_templates() -> Map<Seq<char>, Seq<char>> {
    Map::empty()
}

/// Relies on handlebars::Handlebars::new: a registry with no templates.
#[verifier::external_body]
fn new_registry() -> (r: Engine)
    ensures
        templates_of(r) == no_templates(),
{
    handlebars::Handlebars::new()
}

/// Relies on handlebars::Handlebars::register_template_string: it succeeds
/// exactly when the text compiles, which depends on the text alone; on success
/// the template is held under `name`, replacing any other; on a compile error
/// nothing is registered.
#[verifier::external_body]
fn register_string(h: &mut Engine, name: &str, text: &str) -> (r: core::result::Result<(), handlebars::TemplateError>)
    ensures
        r is Ok <==> template_compiles(text@),
        r is Ok ==> templates_of(*final(h)) == templates_of(*old(h)).insert(name@, text@),
        r is Err ==> templates_of(*final(h)) == templates_of(*old(h)),
{
    h.register_template_string(name, text)
}

/// Relies on handlebars::Handlebars::render, with each section of the record
/// as a JSON object of strings: an unknown template name is an error, and
/// whether it renders, and to what, depends on the templates, the name and
/// the data alone. Without partials, rendering walks each template once and
/// so comes to an end.
#[verifier::external_body]
fn render_record(h: &Engine, name: &str, data: &Record) -> (r: core::result::Result<String, handlebars::RenderError>)
    requires
        partial_free(templates_of(*h)),
    ensures
        !templates_of(*h).contains_key(name@) ==> r is Err,
        r matches Ok(s) ==> rendered_of(templates_of(*h), name@, record_view(data@)) == Some(s@),
        r is Err ==> rendered_of(templates_of(*h), name@, record_view(data@)) is None,
{
    let value: serde_json::Map<String, serde_json::Value> = data.iter().map(|(k, fields)| (
        k.clone(),
        serde_json::Value::Object(fields.iter().map(|(f, v)| (f.clone(), serde_json::Value::String(v.clone()))).collect()),
    )).collect();
    h.render(name, &value)
}

fn partial_mark_from(s: &str, start: usize) -> (r: bool)
    requires
        start <= s@.len(),
    ensures
        r == partial_mark_at(s@, start as int),
{
    let n = s.unicode_len();
    let mut j: usize = start;
    while j < n
        invariant
            n == s@.len(),
            start <= j <= n,
            partial_mark_at(s@, start as int) == partial_mark_at(s@, j as int),
        decreases n - j,
    {
        let c = s.get_char(j);
        if c == '>' || c == '*' {
            return true;
        }
        if !(c == ' ' || c == '\t' || c == '\n' || c == '\r' || c == '~' || c == '#') {
            return false;
        }
        j = j + 1;
    }
    false
}

/// Whether the text includes or defines partials.
pub fn has_partials(s: &str) -> (r: bool)
    ensures
        r == uses_partials(s@),
{
    let n = s.unicode_len();
    let mut i: usize = 0;
    while i < n
        invariant
            n == s@.len(),
            i <= n,
            forall|k: int| 0 <= k < i ==> !partial_tag_at(s@, k),
        decreases n - i,
    {
        if i + 1 < n && s.get_char(i) == '{' && s.get_char(i + 1) == '{' && partial_mark_from(s, i + 2) {
            assert(partial_tag_at(s@, i as int));
            return true;
        }
        i = i + 1;
    }
    assert forall|k: int| !partial_tag_at(s@, k) by {
        if 0 <= k && k < i {
        }
    }
    false
}

/// `i` is the position of the last `.` in `path`.
pub open spec fn is_last_dot(path: Seq<char>, i: int) -> bool {
    0 <= i < path.len() && path[i] == '.' && (forall|j: int| i < j < path.len() ==> path[j] != '.')
}

/// The key a template file is registered under: its path less the last
/// extension. `None` for a path with no `.`.
pub fn template_key(path: &str) -> (r: Option<String>)
    ensures
        r is None <==> (forall|i: int| 0 <= i < path@.len() ==> path@[i] != '.'),
        r matches Some(k) ==> exists|i: int| is_last_dot(path@, i) && k@ == path@.subrange(0, i),
{
    let mut i: usize = path.unicode_len();
    while i > 0
        invariant
            i <= path@.len(),
            forall|j: int| i <= j < path@.len() ==> path@[j] != '.',
        decreases i,
    {
        if path.get_char(i - 1) == '.' {
            let k = String::from_str(path.substring_char(0, i - 1));
            assert(is_last_dot(path@, i - 1));
            return Some(k);
        }
        i = i - 1;
    }
    None
}

/// Whether `s` starts with the `#! ` marker that hides template syntax from
/// the build language.
pub open spec fn starts_with_marker(s: Seq<char>) -> bool {
    s.len() >= 3 && s[0] == '#' && s[1] == '!' && s[2] == ' '
}

/// `s` with every `#! ` marker removed, scanning left to right.
pub open spec fn strip_markers(s: Seq<char>) -> Seq<char>
    decreases s.len(),
{
    if s.len() == 0 {
        s
    } else if starts_with_marker(s) {
        strip_markers(s.skip(3))
    } else {
        seq![s[0]] + strip_markers(s.skip(1))
    }
}

/// A template's text as it is registered: for a template of the build
/// language (its key ends in `.nix`) the `#! ` markers are removed; other
/// templates are kept as they are.
pub open spec fn cleaned_template(key: Seq<char>, content: Seq<char>) -> Seq<char> {
    if has_suffix(key, ".nix"@) {
        strip_markers(content)
    } else {
        content
    }
}

fn strip_marker_text(s: &str) -> (r: String)
    ensures
        r@ == strip_markers(s@),
{
    let n = s.unicode_len();
    let mut out = String::new();
    let mut i: usize = 0;
    assert(s@.subrange(0, n as int) =~= s@);
    assert(out@ + s@ =~= s@);
    while i < n
        invariant
            n == s@.len(),
            i <= n,
            out@ + strip_markers(s@.subrange(i as int, n as int)) == strip_markers(s@),
        decreases n - i,
    {
        let ghost rest = s@.subrange(i as int, n as int);
        if n - i >= 3 && s.get_char(i) == '#' && s.get_char(i + 1) == '!' && s.get_char(i + 2) == ' ' {
            assert(rest.skip(3) =~= s@.subrange(i + 3, n as int));
            i = i + 3;
        } else {
            assert(rest.skip(1) =~= s@.subrange(i + 1, n as int));
            let c = s.substring_char(i, i + 1);
            assert(c@ =~= seq![rest[0]]);
            let ghost before = out@;
            out.append(c);
            assert(before + strip_markers(rest) =~= out@ + strip_markers(s@.subrange(i + 1, n as int)));
            i = i + 1;
        }
    }
    assert(s@.subrange(n as int, n as int) =~= Seq::<char>::empty());
    assert(out@ + Seq::<char>::empty() =~= out@);
    out
}

pub fn clean_template(key: &str, content: &str) -> (r: String)
    ensures
        r@ == cleaned_template(key@, content@),
{
    if ends_with(key, ".nix") {
        strip_marker_text(content)
    } else {
        String::from_str(content)
    }
}

/// The templates of the process, built once at start-up and only read after.
pub struct TemplateRegistry {
    hb: Engine,
}

impl TemplateRegistry {
    /// The template texts held, by key.
    pub closed spec fn templates(&self) -> Map<Seq<char>, Seq<char>> {
        templates_of(self.hb)
    }

    /// No held template uses partials.
    pub open spec fn wf(&self) -> bool {
        partial_free(self.templates())
    }

    pub fn new() -> (r: TemplateRegistry)
        ensures
            r.templates() == no_templates(),
            r.wf(),
    {
        TemplateRegistry { hb: new_registry() }
    }

    /// Registers the template file at `path` with the text `content`, under
    /// the path less its extension, cleaned as `cleaned_template` says. It
    /// succeeds exactly when the path has an extension and the cleaned text
    /// uses no partials and compiles; otherwise the registry is left as it was.
    pub fn register(&mut self, path: &str, content: &str) -> (r: Result<(), Error>)
        requires
            old(self).wf(),
        ensures
            final(self).wf(),
            r is Ok <==> exists|i: int| is_last_dot(path@, i)
                && !uses_partials(cleaned_template(path@.subrange(0, i), content@))
                && template_compiles(cleaned_template(path@.subrange(0, i), content@)),
            r is Err ==> final(self).templates() == old(self).templates(),
            r matches Err(e) ==> e is Template,
            r is Ok ==> exists|i: int| is_last_dot(path@, i)
                && final(self).templates() == old(self).templates().insert(
                    path@.subrange(0, i), cleaned_template(path@.subrange(0, i), content@)),
    {
        match template_key(path) {
            None => Err(Error::Template(String::from_str("template file without extension"))),
            Some(key) => {
                let cleaned = clean_template(key.as_str(), content);
                proof {
                    let i = choose|i: int| is_last_dot(path@, i) && key@ == path@.subrange(0, i);
                    assert forall|i2: int| is_last_dot(path@, i2) implies i2 == i by {
                        if i2 < i {
                            assert(path@[i] == '.');
                        } else if i < i2 {
                            assert(path@[i2] == '.');
                        }
                    }
                }
                if has_partials(cleaned.as_str()) {
                    return Err(Error::Template(String::from_str("partials are not supported in templates")));
                }
                match register_string(&mut self.hb, key.as_str(), cleaned.as_str()) {
                    Ok(()) => Ok(()),
                    Err(e) => Err(Error::Template(e.to_string())),
                }
            },
        }
    }

    /// Renders the template `name` over `data`: the engine's text when it
    /// renders, an error when it does not (an unknown name among them). The
    /// registry is only read.
    pub fn render(&self, name: &str, data: &Record) -> (r: Result<String, Error>)
        requires
            self.wf(),
        ensures
            !self.templates().contains_key(name@) ==> r is Err,
            r matches Ok(s) ==> rendered_of(self.templates(), name@, record_view(data@)) == Some(s@),
            r is Err <==> rendered_of(self.templates(), name@, record_view(data@)) is None,
            r matches Err(e) ==> e is TemplateRendering,
    {
        match render_record(&self.hb, name, data) {
            Ok(s) => Ok(s),
            Err(e) => Err(Error::TemplateRendering(e.to_string())),
        }
    }
}

/// The data the build file template is rendered over: the init fields as
/// they are, and empty placeholders for extra inputs and packages.
pub open spec fn flake_record(init: InitConfig) -> Seq<(Seq<char>, Seq<(Seq<char>, Seq<char>)>)> {
    seq![
        ("init"@, seq![
            ("description"@, init.description@),
            ("nix"@, init.nix@),
            ("sops_url"@, init.sops_url@),
            ("comin_url"@, init.comin_url@),
            ("system"@, init.system@),
        ]),
        ("resources"@, seq![("extra_flakes"@, Seq::<char>::empty()), ("dev_packages"@, Seq::<char>::empty())]),
    ]
}

fn field(name: &str, value: &String) -> (r: (String, String))
    ensures
        r.0@ == name@,
        r.1@ == value@,
{
    (String::from_str(name), value.clone())
}

impl Configuration {
    /// The data the build file template is rendered over.
    pub fn flake_data(&self) -> (r: Record)
        ensures
            record_view(r@) == flake_record(self.init),
    {
        let empty = String::new();
        let init_fields = vec![
            field("description", &self.init.description),
            field("nix", &self.init.nix),
            field("sops_url", &self.init.sops_url),
            field("comin_url", &self.init.comin_url),
            field("system", &self.init.system),
        ];
        let resource_fields = vec![field("extra_flakes", &empty), field("dev_packages", &empty)];
        let r = vec![(String::from_str("init"), init_fields), (String::from_str("resources"), resource_fields)];
        assert(fields_view(r@[0].1@) =~= flake_record(self.init)[0].1);
        assert(fields_view(r@[1].1@) =~= flake_record(self.init)[1].1);
        assert(record_view(r@) =~= flake_record(self.init));
        r
    }

    /// The text of the build file: what the engine renders from the build
    /// file template over `flake_record(self.init)`, or an error where it
    /// renders nothing. Only the init fields count.
    pub fn render_flake(&self, templates: &TemplateRegistry) -> (r: Result<String, Error>)
        requires
            templates.wf(),
        ensures
            !templates.templates().contains_key(FLAKE_TEMPLATE@) ==> r is Err,
            r matches Ok(s) ==> rendered_of(templates.templates(), FLAKE_TEMPLATE@, flake_record(self.init)) == Some(s@),
            r is Err <==> rendered_of(templates.templates(), FLAKE_TEMPLATE@, flake_record(self.init)) is None,
            r matches Err(e) ==> e is TemplateRendering,
    {
        let data = self.flake_data();
        templates.render(FLAKE_TEMPLATE, &data)
    }
}

} // verus!
