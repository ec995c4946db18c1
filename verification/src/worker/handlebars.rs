//! The templating worker: a compiled-template store built at
//! construction, and the per-page content pipeline that splits front
//! matter from the body, renders the body as Markdown, selects and
//! renders a template, and resolves the pretty-URL output path.
use vstd::prelude::*;
use vstd::string::StringExecFns;

use crate::engine::{markdown_to_html, markdown_html_of, parse_toml_table, render_template,
    rendered_of, template_compile_check, template_compiles, toml_table_of};
use crate::error::{is_file_err, Error};
use crate::json::{json_of, to_json_string};
use crate::text::{body_of, delim_index, front_of, out_path, out_path_of, split_front_matter,
    stem, stem_of};
use crate::value::{tab_find_str, tab_model, tab_set, table_get_str, table_set, ConfigValue,
    Table, ValModel};
use crate::worker::{dest_dir, dest_dir_of, files_model, lemma_files_model_index, outs_model,
    lemma_outs_model_index, store_find, store_get, store_put, store_set, OutFile};

verus! {

/// The templating worker: its name-addressed store of template texts,
/// each checked to compile when the worker was constructed.
#[derive(Debug, PartialEq, Eq)]
pub struct Handlebars {
    pub templates: Vec<(String, String)>,
}

/// How constructing the template store ends: the store, or the first
/// failure — a file name with no stem, or a template that does not
/// compile.
pub enum BuildOutcome {
    Built(Seq<(Seq<char>, Seq<char>)>),
    BadName(Seq<char>),
    BadTemplate(Seq<char>),
}

/// Builds the store from the template files from position `i` on, over
/// the store built so far: each file is stored under its name's stem,
/// a later file replacing an earlier one of the same stem, and the
/// first bad file stops the build.
pub open spec fn build_from(
    files: Seq<(Seq<char>, Seq<char>)>,
    i: int,
    acc: Seq<(Seq<char>, Seq<char>)>,
) -> BuildOutcome
    decreases files.len() - i,
{
    if i < 0 || i >= files.len() {
        BuildOutcome::Built(acc)
    } else {
        let st = stem_of(files[i].0);
        if st.len() == 0 {
            BuildOutcome::BadName(files[i].0)
        } else if !template_compiles(files[i].1) {
            BuildOutcome::BadTemplate(files[i].0)
        } else {
            build_from(files, i + 1, store_set(acc, st, files[i].1))
        }
    }
}

/// How constructing the store from the given template files ends.
pub open spec fn build_store(files: Seq<(Seq<char>, Seq<char>)>) -> BuildOutcome {
    build_from(files, 0, Seq::empty())
}

/// Whether `e` is the error a failed store construction surfaces.
pub open spec fn build_err_matches(o: BuildOutcome, e: Error) -> bool {
    match o {
        BuildOutcome::Built(_) => false,
        BuildOutcome::BadName(name) => is_file_err(e, name, "Could not get template name."@),
        BuildOutcome::BadTemplate(name) => e matches Error::Template(n, _) && n@ == name,
    }
}

/// The template directory the worker's options name, or `./templates`
/// when the `templates` option is missing or not a string.
pub open spec fn templates_dir_of(options: Seq<(Seq<char>, ValModel)>) -> Seq<char> {
    match tab_find_str(options, "templates"@) {
        Some(s) => s,
        None => "./templates"@,
    }
}

/// The worker's template directory, with its default.
pub fn templates_dir(options: &Table) -> (r: String)
    ensures
        r@ == templates_dir_of(tab_model(options@)),
{
    match table_get_str(options, "templates") {
        Some(s) => s.clone(),
        None => "./templates".to_owned(),
    }
}

/// The text the `markdown` template helper writes for its rendered
/// argument: a fixed prefix followed by the argument.
pub open spec fn helper_text_of(v: Seq<char>) -> Seq<char> {
    "Helper: "@ + v
}

/// The `markdown` helper's output for one rendered argument.
pub fn helper_text(value: &str) -> (r: String)
    ensures
        r@ == helper_text_of(value@),
{
    let mut out = "Helper: ".to_owned();
    out.append(value);
    out
}

/// How the pipeline ends for one page: the planned write, or the step
/// that failed.
pub enum PageOutcome {
    Wrote(Seq<char>, Seq<char>),
    NoStem,
    NoDelim,
    BadMeta,
    NoTemplate,
    RenderFail(Seq<char>),
}

/// The content pipeline for one page: split the text at the delimiter,
/// parse the front matter, render the body as Markdown, inject it as
/// `content`, select the template (`template` field, default `layout`),
/// convert the table to the engine's data text, render, and resolve the
/// pretty-URL output path.
pub open spec fn page_out(
    store: Seq<(Seq<char>, Seq<char>)>,
    dest: Seq<char>,
    name: Seq<char>,
    text: Seq<char>,
) -> PageOutcome {
    let st = stem_of(name);
    if st.len() == 0 {
        PageOutcome::NoStem
    } else if delim_index(text) is None {
        PageOutcome::NoDelim
    } else {
        match toml_table_of(front_of(text)) {
            None => PageOutcome::BadMeta,
            Some(meta) => {
                let meta2 = tab_set(
                    meta,
                    "content"@,
                    ValModel::Str(markdown_html_of(body_of(text))),
                );
                let tname = match tab_find_str(meta2, "template"@) {
                    Some(t) => t,
                    None => "layout"@,
                };
                match store_find(store, tname) {
                    None => PageOutcome::NoTemplate,
                    Some(tpl) => match rendered_of(tpl, json_of(ValModel::Table(meta2))) {
                        None => PageOutcome::RenderFail(tname),
                        Some(html) => PageOutcome::Wrote(out_path_of(dest, st), html),
                    },
                }
            },
        }
    }
}

/// Whether `e` is the error a failed page surfaces: every failure names
/// the offending page, and a render failure names its template.
pub open spec fn page_err_matches(o: PageOutcome, name: Seq<char>, e: Error) -> bool {
    match o {
        PageOutcome::Wrote(_, _) => false,
        PageOutcome::NoStem => is_file_err(e, name, "Could not get page name."@),
        PageOutcome::NoDelim => is_file_err(e, name, "No metadata found."@),
        PageOutcome::BadMeta => is_file_err(e, name, "Could not parse metadata."@),
        PageOutcome::NoTemplate => is_file_err(e, name, "Template not found."@),
        PageOutcome::RenderFail(tname) => e matches Error::Template(n, _) && n@ == tname,
    }
}

/// How a run over the pages from position `i` on ends: the planned
/// writes in page order, or the first page failure, which stops the
/// batch.
pub enum PagesOutcome {
    Done(Seq<(Seq<char>, Seq<char>)>),
    Stopped(Seq<char>, PageOutcome),
}

/// The batch outcome over the pages from position `i` on.
pub open spec fn pages_from(
    store: Seq<(Seq<char>, Seq<char>)>,
    dest: Seq<char>,
    files: Seq<(Seq<char>, Seq<char>)>,
    i: int,
) -> PagesOutcome
    decreases files.len() - i,
{
    if i < 0 || i >= files.len() {
        PagesOutcome::Done(Seq::empty())
    } else {
        match page_out(store, dest, files[i].0, files[i].1) {
            PageOutcome::Wrote(p, h) => match pages_from(store, dest, files, i + 1) {
                PagesOutcome::Done(rest) => PagesOutcome::Done(seq![(p, h)] + rest),
                stopped => stopped,
            },
            bad => PagesOutcome::Stopped(files[i].0, bad),
        }
    }
}

/// Whether a templating run's result is what the pipeline prescribes
/// for the task and the source pages.
pub open spec fn pages_match(
    store: Seq<(Seq<char>, Seq<char>)>,
    task: Seq<(Seq<char>, ValModel)>,
    files: Seq<(Seq<char>, Seq<char>)>,
    r: Result<Vec<OutFile>, Error>,
) -> bool {
    match r {
        Ok(outs) => pages_from(store, dest_dir_of(task), files, 0) == PagesOutcome::Done(
            outs_model(outs@),
        ),
        Err(e) => match pages_from(store, dest_dir_of(task), files, 0) {
            PagesOutcome::Done(_) => false,
            PagesOutcome::Stopped(n, o) => page_err_matches(o, n, e),
        },
    }
}

impl Handlebars {
    /// Constructs the templating worker from its options and the
    /// template files read from its template directory: each file is
    /// stored under its name's stem and checked to compile, and the
    /// first bad file aborts the whole construction.
    pub fn new(_options: &Table, template_files: &Vec<(String, String)>) -> (r: Result<
        Handlebars,
        Error,
    >)
        ensures
            match r {
                Ok(w) => build_store(files_model(template_files@)) == BuildOutcome::Built(
                    files_model(w.templates@),
                ),
                Err(e) => build_err_matches(build_store(files_model(template_files@)), e),
            },
    {
        proof {
            lemma_files_model_index(template_files@);
        }
        let ghost fm = files_model(template_files@);
        let mut store: Vec<(String, String)> = Vec::new();
        let mut i: usize = 0;
        while i < template_files.len()
            invariant
                i <= template_files@.len(),
                fm == files_model(template_files@),
                fm.len() == template_files@.len(),
                forall|k: int|
                    0 <= k < template_files@.len() ==> fm[k] == (
                        template_files@[k].0@,
                        template_files@[k].1@,
                    ),
                build_from(fm, 0, Seq::empty()) == build_from(fm, i as int, files_model(store@)),
            decreases template_files@.len() - i,
        {
            let st = stem(template_files[i].0.as_str());
            if st.as_str().is_empty() {
                return Err(Error::file_worker(
                    template_files[i].0.clone(),
                    "Could not get template name.",
                ));
            }
            match template_compile_check(template_files[i].1.as_str()) {
                Err(m) => {
                    return Err(Error::Template(template_files[i].0.clone(), m));
                },
                Ok(_) => {
                    store_put(&mut store, st, template_files[i].1.clone());
                    i = i + 1;
                },
            }
        }
        Ok(Handlebars { templates: store })
    }

    /// The content pipeline for one page, planning its output file.
    pub fn render_page(&self, dest: &str, name: &str, text: &str) -> (r: Result<OutFile, Error>)
        ensures
            match r {
                Ok(of) => page_out(files_model(self.templates@), dest@, name@, text@)
                    == PageOutcome::Wrote(of.path@, of.content@),
                Err(e) => page_err_matches(
                    page_out(files_model(self.templates@), dest@, name@, text@),
                    name@,
                    e,
                ),
            },
    {
        let st = stem(name);
        if st.as_str().is_empty() {
            return Err(Error::file_worker(name.to_owned(), "Could not get page name."));
        }
        match split_front_matter(text) {
            None => Err(Error::file_worker(name.to_owned(), "No metadata found.")),
            Some(parts) => {
                let (front, body) = parts;
                match parse_toml_table(front.as_str()) {
                    None => Err(Error::file_worker(name.to_owned(), "Could not parse metadata.")),
                    Some(mut meta) => {
                        let html = markdown_to_html(body.as_str());
                        table_set(&mut meta, "content".to_owned(), ConfigValue::Str(html));
                        let tname: String = match table_get_str(&meta, "template") {
                            Some(t) => t.clone(),
                            None => "layout".to_owned(),
                        };
                        match store_get(&self.templates, tname.as_str()) {
                            None => Err(Error::file_worker(name.to_owned(), "Template not found.")),
                            Some(tpl) => {
                                let data = to_json_string(&ConfigValue::Table(meta));
                                match render_template(tpl.as_str(), data.as_str()) {
                                    Err(m) => Err(Error::Template(tname, m)),
                                    Ok(outhtml) => Ok(
                                        OutFile {
                                            path: out_path(dest, st.as_str()),
                                            content: outhtml,
                                        },
                                    ),
                                }
                            },
                        }
                    },
                }
            },
        }
    }

    /// Runs the pipeline over the pages from position `i` on.
    fn run_from(&self, dest: &str, files: &Vec<(String, String)>, i: usize) -> (r: Result<
        Vec<OutFile>,
        Error,
    >)
        requires
            i <= files@.len(),
        ensures
            match r {
                Ok(outs) => pages_from(files_model(self.templates@), dest@, files_model(files@), i as int)
                    == PagesOutcome::Done(outs_model(outs@)),
                Err(e) => match pages_from(
                    files_model(self.templates@),
                    dest@,
                    files_model(files@),
                    i as int,
                ) {
                    PagesOutcome::Done(_) => false,
                    PagesOutcome::Stopped(n, o) => page_err_matches(o, n, e),
                },
            },
        decreases files@.len() - i,
    {
        proof {
            lemma_files_model_index(files@);
        }
        if i < files.len() {
            match self.render_page(dest, files[i].0.as_str(), files[i].1.as_str()) {
                Err(e) => Err(e),
                Ok(of) => match self.run_from(dest, files, i + 1) {
                    Err(e) => Err(e),
                    Ok(mut rest) => {
                        let ghost prev = rest@;
                        let ghost head = (of.path@, of.content@);
                        rest.insert(0, of);
                        proof {
                            lemma_outs_model_index(rest@);
                            lemma_outs_model_index(prev);
                            assert(outs_model(rest@) =~= seq![head] + outs_model(prev));
                        }
                        Ok(rest)
                    },
                },
            }
        } else {
            Ok(Vec::new())
        }
    }

    /// Runs the content pipeline over every page of the task's source
    /// directory, planning the output files; the first failing page
    /// stops the batch.
    pub fn run(&self, task: &Table, files: &Vec<(String, String)>) -> (r: Result<
        Vec<OutFile>,
        Error,
    >)
        ensures
            pages_match(files_model(self.templates@), tab_model(task@), files_model(files@), r),
    {
        let dest = dest_dir(task);
        self.run_from(dest.as_str(), files, 0)
    }
}

} // verus!
