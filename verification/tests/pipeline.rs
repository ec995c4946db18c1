//! End-to-end tests of the dispatcher and the templating pipeline, with
//! the real TOML parser, Markdown renderer and template engine linked.
use blueprint::blueprint::{task_list, Blueprint};
use blueprint::error::{BlueprintError, Error};
use blueprint::value::{ConfigValue, Table};

fn s(x: &str) -> String {
    x.to_string()
}

fn table(entries: Vec<(&str, ConfigValue)>) -> Table {
    entries.into_iter().map(|(k, v)| (s(k), v)).collect()
}

fn worker_config(name: &str, options: Table) -> Table {
    table(vec![("Worker", ConfigValue::Table(table(vec![(
        name,
        ConfigValue::Table(options),
    )])))])
}

fn files(list: Vec<(&str, &str)>) -> Vec<(String, String)> {
    list.into_iter().map(|(n, c)| (s(n), s(c))).collect()
}

#[test]
fn registry_rejects_unknown_worker() {
    let config = worker_config("Bogus", table(vec![]));
    let r = Blueprint::new(&config, &files(vec![]));
    match r {
        Err(e) => assert_eq!(
            e,
            Error::Blueprint(BlueprintError::Config("Worker is not known"))
        ),
        Ok(_) => panic!("a bogus worker type must not construct"),
    }
}

#[test]
fn registry_requires_worker_table() {
    let config = table(vec![("Task", ConfigValue::Table(table(vec![])))]);
    let r = Blueprint::new(&config, &files(vec![]));
    match r {
        Err(e) => assert_eq!(
            e,
            Error::Blueprint(BlueprintError::Config("No `Worker` found in config."))
        ),
        Ok(_) => panic!("a config without `Worker` must not construct"),
    }
}

#[test]
fn registry_rejects_non_table_entry() {
    let config = table(vec![("Worker", ConfigValue::Table(table(vec![(
        "Copy",
        ConfigValue::Str(s("oops")),
    )])))]);
    let r = Blueprint::new(&config, &files(vec![]));
    match r {
        Err(e) => assert_eq!(
            e,
            Error::Blueprint(BlueprintError::Config("Worker is not table"))
        ),
        Ok(_) => panic!("a non-table worker entry must not construct"),
    }
}

#[test]
fn registry_rejects_bad_template() {
    let config = worker_config("Handlebars", table(vec![]));
    let tf = files(vec![("layout.hbs", "{{#if}}")]);
    let r = Blueprint::new(&config, &tf);
    match r {
        Err(Error::Template(name, _)) => assert_eq!(name, "layout.hbs"),
        other => panic!("a template that does not compile must abort construction: {:?}", other),
    }
}

#[test]
fn front_matter_round_trip() {
    let config = worker_config("Handlebars", table(vec![]));
    let tf = files(vec![("layout.hbs", "{{title}}|{{author}}|{{{content}}}")]);
    let bp = Blueprint::new(&config, &tf).unwrap();
    let task = table(vec![("worker", ConfigValue::Str(s("Handlebars")))]);
    let pages = files(vec![(
        "page.md",
        "title = \"A\"\nauthor = \"B\"\ntemplate = \"layout\"\n------\n**world**",
    )]);
    let outs = bp.run_task("build", &task, &pages).unwrap();
    assert_eq!(outs.len(), 1);
    assert_eq!(outs[0].path, "./out/page/index.html");
    assert!(outs[0].content.contains('A'));
    assert!(outs[0].content.contains('B'));
    assert!(outs[0].content.contains("<strong>world</strong>"));
    assert!(!outs[0].content.contains("------"));
}

#[test]
fn pretty_url_paths() {
    let config = worker_config("Handlebars", table(vec![]));
    let tf = files(vec![("layout.hbs", "{{content}}")]);
    let bp = Blueprint::new(&config, &tf).unwrap();
    let task = table(vec![("worker", ConfigValue::Str(s("Handlebars")))]);
    let pages = files(vec![
        ("about.md", "title = \"t\"\n------\nhi"),
        ("index.md", "title = \"t\"\n------\nhi"),
    ]);
    let outs = bp.run_task("build", &task, &pages).unwrap();
    assert_eq!(outs.len(), 2);
    assert_eq!(outs[0].path, "./out/about/index.html");
    assert_eq!(outs[1].path, "./out/index.html");
}

#[test]
fn missing_delimiter_fails() {
    let config = worker_config("Handlebars", table(vec![]));
    let tf = files(vec![("layout.hbs", "{{content}}")]);
    let bp = Blueprint::new(&config, &tf).unwrap();
    let task = table(vec![("worker", ConfigValue::Str(s("Handlebars")))]);
    let pages = files(vec![("page.md", "title = \"A\"\nno delimiter here")]);
    let r = bp.run_task("build", &task, &pages);
    match r {
        Err(e) => assert_eq!(
            e,
            Error::File(s("page.md"), BlueprintError::Worker("No metadata found."))
        ),
        Ok(outs) => panic!("a page without the delimiter must fail, got {:?}", outs),
    }
}

#[test]
fn task_dispatch_resolves_by_name() {
    let config = table(vec![("Worker", ConfigValue::Table(table(vec![
        ("Copy", ConfigValue::Table(table(vec![]))),
        ("Handlebars", ConfigValue::Table(table(vec![]))),
    ])))]);
    let tf = files(vec![("layout.hbs", "{{content}}")]);
    let bp = Blueprint::new(&config, &tf).unwrap();
    let task = table(vec![
        ("worker", ConfigValue::Str(s("Copy"))),
        ("source", ConfigValue::Str(s("X"))),
        ("dest", ConfigValue::Str(s("Y"))),
    ]);
    let pages = files(vec![("about.md", "raw bytes, not a page")]);
    let outs = bp.run_task("copy", &task, &pages).unwrap();
    assert_eq!(outs.len(), 1);
    assert_eq!(outs[0].path, "Y/about.md");
    assert_eq!(outs[0].content, "raw bytes, not a page");
}

#[test]
fn idempotent_runs() {
    let config = table(vec![("Worker", ConfigValue::Table(table(vec![
        ("Copy", ConfigValue::Table(table(vec![]))),
        ("Handlebars", ConfigValue::Table(table(vec![]))),
    ])))]);
    let tf = files(vec![("layout.hbs", "{{title}}:{{content}}")]);
    let bp = Blueprint::new(&config, &tf).unwrap();
    let task = table(vec![("worker", ConfigValue::Str(s("Handlebars")))]);
    let pages = files(vec![
        ("a.md", "title = \"x\"\n------\n*em*"),
        ("index.md", "title = \"y\"\n------\nplain"),
    ]);
    let first = bp.run_task("build", &task, &pages).unwrap();
    let second = bp.run_task("build", &task, &pages).unwrap();
    assert_eq!(first, second);
}

#[test]
fn nested_front_matter_reaches_the_template() {
    let config = worker_config("Handlebars", table(vec![]));
    let tf = files(vec![(
        "layout.hbs",
        "{{n}}:{{#each tags}}[{{this}}]{{/each}}",
    )]);
    let bp = Blueprint::new(&config, &tf).unwrap();
    let task = table(vec![("worker", ConfigValue::Str(s("Handlebars")))]);
    let pages = files(vec![("p.md", "n = 3\ntags = [\"a\", \"b\"]\n------\nx")]);
    let outs = bp.run_task("t", &task, &pages).unwrap();
    assert!(outs[0].content.starts_with("3:[a][b]"));
}

#[test]
fn task_without_worker_field() {
    let config = worker_config("Copy", table(vec![]));
    let bp = Blueprint::new(&config, &files(vec![])).unwrap();
    let task = table(vec![("dest", ConfigValue::Str(s("Y")))]);
    let r = bp.run_task("t", &task, &files(vec![]));
    assert_eq!(
        r,
        Err(Error::Blueprint(BlueprintError::Config("Worker not specified.")))
    );
}

#[test]
fn task_with_non_string_worker_field() {
    let config = worker_config("Copy", table(vec![]));
    let bp = Blueprint::new(&config, &files(vec![])).unwrap();
    let task = table(vec![("worker", ConfigValue::Int(3))]);
    let r = bp.run_task("t", &task, &files(vec![]));
    assert_eq!(
        r,
        Err(Error::Blueprint(BlueprintError::Config("Worker should be string.")))
    );
}

#[test]
fn task_with_unregistered_worker() {
    let config = worker_config("Copy", table(vec![]));
    let bp = Blueprint::new(&config, &files(vec![])).unwrap();
    let task = table(vec![("worker", ConfigValue::Str(s("Handlebars")))]);
    let r = bp.run_task("t", &task, &files(vec![]));
    assert_eq!(
        r,
        Err(Error::Blueprint(BlueprintError::Config("Worker not found.")))
    );
}

#[test]
fn bad_front_matter_fails() {
    let config = worker_config("Handlebars", table(vec![]));
    let tf = files(vec![("layout.hbs", "{{content}}")]);
    let bp = Blueprint::new(&config, &tf).unwrap();
    let task = table(vec![("worker", ConfigValue::Str(s("Handlebars")))]);
    let pages = files(vec![("p.md", "not == valid toml\n------\nbody")]);
    let r = bp.run_task("t", &task, &pages);
    assert_eq!(
        r,
        Err(Error::File(s("p.md"), BlueprintError::Worker("Could not parse metadata.")))
    );
}

#[test]
fn missing_template_fails() {
    let config = worker_config("Handlebars", table(vec![]));
    let tf = files(vec![("other.hbs", "{{content}}")]);
    let bp = Blueprint::new(&config, &tf).unwrap();
    let task = table(vec![("worker", ConfigValue::Str(s("Handlebars")))]);
    let pages = files(vec![("p.md", "title = \"t\"\n------\nbody")]);
    let r = bp.run_task("t", &task, &pages);
    assert_eq!(
        r,
        Err(Error::File(s("p.md"), BlueprintError::Worker("Template not found.")))
    );
}

#[test]
fn template_field_selects_template() {
    let config = worker_config("Handlebars", table(vec![]));
    let tf = files(vec![
        ("layout.hbs", "wrong:{{content}}"),
        ("fancy.hbs", "fancy:{{content}}"),
    ]);
    let bp = Blueprint::new(&config, &tf).unwrap();
    let task = table(vec![("worker", ConfigValue::Str(s("Handlebars")))]);
    let pages = files(vec![("p.md", "template = \"fancy\"\n------\nhi")]);
    let outs = bp.run_task("t", &task, &pages).unwrap();
    assert!(outs[0].content.starts_with("fancy:"));
}

#[test]
fn page_without_stem_fails() {
    let config = worker_config("Handlebars", table(vec![]));
    let tf = files(vec![("layout.hbs", "{{content}}")]);
    let bp = Blueprint::new(&config, &tf).unwrap();
    let task = table(vec![("worker", ConfigValue::Str(s("Handlebars")))]);
    let pages = files(vec![(".md", "title = \"t\"\n------\nbody")]);
    let r = bp.run_task("t", &task, &pages);
    assert_eq!(
        r,
        Err(Error::File(s(".md"), BlueprintError::Worker("Could not get page name.")))
    );
}

#[test]
fn first_failure_stops_the_batch() {
    let config = worker_config("Handlebars", table(vec![]));
    let tf = files(vec![("layout.hbs", "{{content}}")]);
    let bp = Blueprint::new(&config, &tf).unwrap();
    let task = table(vec![("worker", ConfigValue::Str(s("Handlebars")))]);
    let pages = files(vec![
        ("bad.md", "no delimiter"),
        ("good.md", "title = \"t\"\n------\nhi"),
    ]);
    let r = bp.run_task("t", &task, &pages);
    assert_eq!(
        r,
        Err(Error::File(s("bad.md"), BlueprintError::Worker("No metadata found.")))
    );
}

#[test]
fn registry_rejects_template_file_without_stem() {
    let config = worker_config("Handlebars", table(vec![]));
    let tf = files(vec![(".hbs", "{{content}}")]);
    let r = Blueprint::new(&config, &tf);
    assert_eq!(
        r,
        Err(Error::File(
            s(".hbs"),
            BlueprintError::Worker("Could not get template name.")
        ))
    );
}

#[test]
fn markdown_helper_is_registered() {
    let config = worker_config("Handlebars", table(vec![]));
    let tf = files(vec![("layout.hbs", "x{{markdown title}}y")]);
    let bp = Blueprint::new(&config, &tf).unwrap();
    let task = table(vec![("worker", ConfigValue::Str(s("Handlebars")))]);
    let pages = files(vec![("p.md", "title = \"t\"\n------\nbody")]);
    let outs = bp.run_task("t", &task, &pages).unwrap();
    assert_eq!(outs[0].content, "xHelper: ty");
}

#[test]
fn non_finite_float_still_renders() {
    let config = worker_config("Handlebars", table(vec![]));
    let tf = files(vec![("layout.hbs", "v={{v}}")]);
    let bp = Blueprint::new(&config, &tf).unwrap();
    let task = table(vec![("worker", ConfigValue::Str(s("Handlebars")))]);
    let pages = files(vec![("p.md", "v = inf\n------\nbody")]);
    let outs = bp.run_task("t", &task, &pages).unwrap();
    assert!(outs[0].content.starts_with("v=inf"));
}

#[test]
fn task_list_extracts_declared_tasks() {
    let build = table(vec![("worker", ConfigValue::Str(s("Copy")))]);
    let config = table(vec![("Task", ConfigValue::Table(table(vec![
        ("a", ConfigValue::Table(build)),
        ("b", ConfigValue::Table(table(vec![]))),
    ])))]);
    let ts = task_list(&config).unwrap();
    assert_eq!(ts.len(), 2);
    assert_eq!(ts[0].0, "a");
    assert_eq!(ts[1].0, "b");
    assert_eq!(ts[0].1.len(), 1);
}

#[test]
fn task_list_rejects_bad_shapes() {
    let empty = table(vec![]);
    let r = task_list(&empty);
    assert_eq!(r, Err(Error::Blueprint(BlueprintError::Config("Tasks not found."))));
    let config = table(vec![("Task", ConfigValue::Table(table(vec![(
        "a",
        ConfigValue::Int(1),
    )])))]);
    let r2 = task_list(&config);
    assert_eq!(
        r2,
        Err(Error::Blueprint(BlueprintError::Config("Failure parsing tasks.")))
    );
}
