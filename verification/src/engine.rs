//! The outside capabilities the pipeline consumes: the TOML parser, the
//! Markdown renderer, and the template engine.  Each is reached through
//! one trusted declaration whose contract names what the call returns;
//! everything around the calls is verified against those names.
use vstd::prelude::*;

use handlebars::JsonRender;
use handlebars::{Context, Helper, HelperResult, Output, RenderContext};

verus! {

#[verifier::external_type_specification]
#[verifier::external_body]
pub struct ExTomlValue(toml::Value);

/// What parsing TOML text yields: the table's entries, or nothing when
/// the text is not a well-formed TOML table.
pub uninterp spec fn toml_table_of(s: Seq<char>) -> Option<
    Seq<(Seq<char>, crate::value::ValModel)>,
>;

/// What rendering Markdown text to HTML yields.
pub uninterp spec fn markdown_html_of(s: Seq<char>) -> Seq<char>;

/// Whether template text compiles.
pub uninterp spec fn template_compiles(s: Seq<char>) -> bool;

/// What rendering a compiled template over JSON-encoded data yields, or
/// nothing when the engine reports an error.
pub uninterp spec fn rendered_of(tpl: Seq<char>, data: Seq<char>) -> Option<Seq<char>>;

/// Relies on the variants of `toml::Value`: turns one parsed node into
/// the library's value, arm by arm; floats and datetimes keep only their
/// text form.
#[verifier::external_body]
fn conv_value(v: toml::Value) -> crate::value::ConfigValue {
    match v {
        toml::Value::String(s) => crate::value::ConfigValue::Str(s),
        toml::Value::Integer(i) => crate::value::ConfigValue::Int(i),
        toml::Value::Float(x) => crate::value::ConfigValue::Float(x.to_string()),
        toml::Value::Boolean(b) => crate::value::ConfigValue::Bool(b),
        toml::Value::Datetime(d) => crate::value::ConfigValue::Datetime(d.to_string()),
        toml::Value::Array(a) => crate::value::ConfigValue::Arr(
            a.into_iter().map(conv_value).collect(),
        ),
        toml::Value::Table(t) => crate::value::ConfigValue::Table(
            t.into_iter().map(|(k, w)| (k, conv_value(w))).collect(),
        ),
    }
}

/// Relies on `toml::Table::from_str`, the `toml` crate's parser: whether
/// text parses, and what it parses to, is a function of the text alone,
/// and the entries of a parsed table arrive in lexicographic key order.
#[verifier::external_body]
pub(crate) fn parse_toml_table(s: &str) -> (r: Option<crate::value::Table>)
    ensures
        (r is Some) == (toml_table_of(s@) is Some),
        r is Some ==> Some(crate::value::tab_model(r.unwrap()@)) == toml_table_of(s@),
{
    match s.parse::<toml::Table>() {
        Ok(t) => Some(t.into_iter().map(|(k, v)| (k, conv_value(v))).collect()),
        Err(_) => None,
    }
}

/// Relies on hoedown's `Html` renderer: the HTML it produces depends on
/// the Markdown text alone.
#[verifier::external_body]
pub(crate) fn markdown_to_html(s: &str) -> (r: String)
    ensures
        r@ == markdown_html_of(s@),
{
    let doc = hoedown::Markdown::new(s);
    let mut renderer = hoedown::Html::new(hoedown::renderer::html::Flags::empty(), 0);
    let buf = hoedown::Render::render(&mut renderer, &doc);
    String::from_utf8_lossy(&buf).into_owned()
}

/// Relies on `handlebars::Template::compile`: whether template text
/// compiles is a function of the text alone.
#[verifier::external_body]
pub(crate) fn template_compile_check(s: &str) -> (r: Result<(), String>)
    ensures
        (r is Ok) == template_compiles(s@),
{
    match handlebars::Template::compile(s) {
        Ok(_) => Ok(()),
        Err(e) => Err(e.to_string()),
    }
}

/// Relies on `handlebars::Handlebars::render_template`: the rendered
/// output is a function of the template text and the data alone.  The
/// data travels as JSON text and is decoded by `serde_json` on the way
/// in; a decoding failure counts as a failed rendering.  Before
/// rendering, the `markdown` helper is registered: for its first
/// argument it writes the text of [`crate::worker::handlebars::helper_text`],
/// a fixed function, so the output stays a function of the two texts.
#[verifier::external_body]
pub(crate) fn render_template(tpl: &str, data_json: &str) -> (r: Result<String, String>)
    ensures
        (r is Ok) == (rendered_of(tpl@, data_json@) is Some),
        r is Ok ==> Some(r.unwrap()@) == rendered_of(tpl@, data_json@),
{
    let data: serde_json::Value = serde_json::from_str(data_json).map_err(|e| e.to_string())?;
    let mut engine = handlebars::Handlebars::new();
    let markdown = |h: &Helper, _: &handlebars::Handlebars, _: &Context,
        _: &mut RenderContext, out: &mut dyn Output| -> HelperResult {
        let arg = h.param(0).map(|p| p.value().render()).unwrap_or_default();
        out.write(crate::worker::handlebars::helper_text(arg.as_str()).as_str())?;
        Ok(())
    };
    engine.register_helper("markdown", Box::new(markdown));
    engine.render_template(tpl, &data).map_err(|e| e.to_string())
}

/// Relies on `Iterator::collect` for `String`: collecting characters
/// yields the string of exactly those characters.
#[verifier::external_body]
pub(crate) fn chars_to_string(v: &Vec<char>) -> (r: String)
    ensures
        r@ == v@,
{
    v.iter().collect()
}

} // verus!
