use brust64::entry::{collect_entries, CollectError, FileEntry, RawFile};
use brust64::pipeline::generate;
use brust64::render::render;

const TEMPLATE: &str = r#"
use std::collections::HashMap;

pub struct StaticFiles{{struct_name}}<'a> {
    pub(crate) map: HashMap<&'a str, &'a str>
}

impl<'a> StaticFiles{{struct_name}}<'a> {
    pub fn new() -> StaticFiles{{struct_name}}<'a> {
        let mut files = StaticFiles {
            map: HashMap::new()
        };
        {% for file in static_files %}
        files.map.insert("{{file.name}}", "{{file.content}}");{% endfor %}

        files
    }
}
"#;

const EMPTY_OUTPUT: &str = "\nuse std::collections::HashMap;\n\npub struct StaticFiles<'a> {\n    pub(crate) map: HashMap<&'a str, &'a str>\n}\n\nimpl<'a> StaticFiles<'a> {\n    pub fn new() -> StaticFiles<'a> {\n        let mut files = StaticFiles {\n            map: HashMap::new()\n        };\n        \n\n        files\n    }\n}\n";

fn html_file(name: &str, text: &str) -> RawFile {
    RawFile {
        name: name.to_string(),
        extension: Some("html".to_string()),
        bytes: text.as_bytes().to_vec(),
    }
}

fn render_with_tera(entries: &[FileEntry], struct_name: &str) -> String {
    let mut list: Vec<serde_json::Value> = Vec::new();
    for e in entries {
        let mut m = serde_json::Map::new();
        m.insert(
            "name".to_string(),
            serde_json::Value::String(e.name.clone()),
        );
        m.insert(
            "content".to_string(),
            serde_json::Value::String(e.content.clone()),
        );
        list.push(serde_json::Value::Object(m));
    }
    let mut renderer = tera::Tera::default();
    renderer.add_raw_template("template", TEMPLATE).unwrap();
    let mut context = tera::Context::new();
    context.insert("static_files", &list);
    context.insert("struct_name", struct_name);
    renderer.render("template", &context).unwrap()
}

#[test]
fn empty_render_is_bare_structure() {
    let out = render(&Vec::new(), "");
    assert_eq!(out, EMPTY_OUTPUT);
    assert!(!out.contains("files.map.insert"));
}

#[test]
fn empty_input_still_generates() {
    // A nonexistent input path contributes no files; the output text is still
    // a complete structure definition with zero insertions.
    let out = generate(&Vec::new(), "").unwrap();
    assert_eq!(out, EMPTY_OUTPUT);
}

#[test]
fn render_matches_template_engine() {
    let entries = vec![
        FileEntry {
            name: "a.html".to_string(),
            content: "aGk=".to_string(),
        },
        FileEntry {
            name: "img/logo.png".to_string(),
            content: "data:image/png;base64,iVBO".to_string(),
        },
    ];
    assert_eq!(render(&entries, "Www"), render_with_tera(&entries, "Www"));
    assert_eq!(render(&entries, ""), render_with_tera(&entries, ""));
    assert_eq!(
        render(&Vec::new(), "Empty"),
        render_with_tera(&[], "Empty")
    );
}

#[test]
fn struct_name_is_interpolated_three_times() {
    let out = render(&Vec::new(), "Site");
    assert_eq!(out.matches("StaticFilesSite").count(), 3);
    assert!(out.contains("pub struct StaticFilesSite<'a>"));
    assert!(out.contains("impl<'a> StaticFilesSite<'a>"));
    assert!(out.contains("pub fn new() -> StaticFilesSite<'a>"));
}

#[test]
fn one_insert_line_per_file() {
    let files = vec![
        html_file("a.html", "aaa"),
        html_file("b.css", "bbb"),
        html_file("c.js", "ccc"),
    ];
    let out = generate(&files, "").unwrap();
    assert_eq!(out.matches("files.map.insert(\"").count(), 3);
}

#[test]
fn encoded_entry_appears_under_its_key() {
    let files = vec![html_file("a.html", "hi")];
    let out = generate(&files, "").unwrap();
    assert!(out.contains("\n        files.map.insert(\"a.html\", \"aGk=\");"));
}

#[test]
fn generation_is_deterministic() {
    let files = vec![
        html_file("a.html", "hi"),
        html_file("sub/b.html", "<p>x</p>"),
    ];
    let first = generate(&files, "Www").unwrap();
    let second = generate(&files, "Www").unwrap();
    assert_eq!(first, second);
}

#[test]
fn collect_keeps_order_and_count() {
    let files = vec![
        html_file("one.html", "1"),
        html_file("two.html", "2"),
        html_file("three.html", "3"),
    ];
    let entries = collect_entries(&files).unwrap();
    assert_eq!(entries.len(), 3);
    assert_eq!(entries[0].name, "one.html");
    assert_eq!(entries[1].name, "two.html");
    assert_eq!(entries[2].name, "three.html");
}

#[test]
fn first_bad_file_aborts_collection() {
    let files = vec![
        html_file("good.html", "fine"),
        RawFile {
            name: "bad.html".to_string(),
            extension: Some("html".to_string()),
            bytes: vec![0xff, 0xfe, 0x00],
        },
        html_file("later.html", "never reached matters not"),
    ];
    match collect_entries(&files) {
        Err(CollectError::NotText(n)) => assert_eq!(n, "bad.html"),
        _ => panic!("expected collection to abort on the unreadable file"),
    }
    assert!(generate(&files, "").is_err());
}
