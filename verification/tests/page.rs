use sitegen::context::{BuildContext, SiteContext};
use sitegen::date::Date;
use sitegen::error::{BuildError, Flaw};
use sitegen::fields::{FieldValue, Table};
use sitegen::markdown::MarkdownRenderer;
use sitegen::page::{split_front_matter, Metadata, Page};
use sitegen::path::SitePath;

const THEME: &str = r##"<?xml version="1.0" encoding="UTF-8"?>
<plist version="1.0">
<dict>
    <key>name</key>
    <string>Plain</string>
    <key>settings</key>
    <array>
        <dict>
            <key>settings</key>
            <dict>
                <key>background</key>
                <string>#101010</string>
                <key>foreground</key>
                <string>#f0f0f0</string>
            </dict>
        </dict>
    </array>
</dict>
</plist>
"##;

fn path(parts: &[&str]) -> SitePath {
    SitePath { components: parts.iter().map(|part| part.to_string()).collect() }
}

fn names(path: &SitePath) -> Vec<&str> {
    path.components.iter().map(|name| name.as_str()).collect()
}

fn context() -> BuildContext {
    BuildContext {
        output_dir: path(&["public"]),
        content_dir: path(&["content"]),
        site_context: SiteContext { title: "Site".to_string(), tagline: "Tag".to_string() },
        markdown_renderer: MarkdownRenderer::with_theme(THEME).expect("the theme is valid"),
    }
}

#[test]
fn front_matter_is_split_at_the_markers() {
    let sections = split_front_matter("@Meta\ntitle = \"a\"\n@Content\nbody text\n");
    assert_eq!(sections, Some(("\ntitle = \"a\"\n".to_string(), "\nbody text\n".to_string())));
}

#[test]
fn front_matter_ignores_text_before_the_metadata_marker() {
    let sections = split_front_matter("junk @Meta x=1 @Content rest");
    assert_eq!(sections, Some((" x=1 ".to_string(), " rest".to_string())));
}

#[test]
fn front_matter_body_is_not_trimmed() {
    let sections = split_front_matter("@Meta@Content  \n  body  \n\n");
    assert_eq!(sections, Some((String::new(), "  \n  body  \n\n".to_string())));
}

#[test]
fn front_matter_body_may_be_empty() {
    assert_eq!(split_front_matter("@Meta\n@Content"), Some(("\n".to_string(), String::new())));
}

#[test]
fn front_matter_uses_the_first_of_each_marker() {
    let sections = split_front_matter("@Meta a @Content b @Meta c @Content d");
    assert_eq!(sections, Some((" a ".to_string(), " b @Meta c @Content d".to_string())));
}

#[test]
fn front_matter_needs_the_metadata_marker() {
    assert_eq!(split_front_matter("title = \"a\"\n@Content\nbody"), None);
}

#[test]
fn front_matter_needs_the_content_marker() {
    assert_eq!(split_front_matter("@Meta\ntitle = \"a\"\nbody"), None);
}

#[test]
fn front_matter_rejects_markers_in_the_wrong_order() {
    assert_eq!(split_front_matter("@Content\nbody\n@Meta\ntitle = \"a\"\n"), None);
}

#[test]
fn front_matter_rejects_a_content_marker_before_the_metadata_even_if_another_follows() {
    assert_eq!(split_front_matter("@Content x @Meta y @Content z"), None);
}

#[test]
fn front_matter_of_an_empty_file_is_missing() {
    assert_eq!(split_front_matter(""), None);
}

#[test]
fn front_matter_counts_characters_not_bytes() {
    let sections = split_front_matter("é@Meta ü @Content ß");
    assert_eq!(sections, Some((" ü ".to_string(), " ß".to_string())));
}

#[test]
fn metadata_fields_come_back_as_written() {
    let metadata = Metadata::parse(
        "title = \"Hello\"\nauthor = \"Ann\"\nslug = \"hi\"\ndate = \"2021-06-01\"\nshow_date = false\n",
    )
    .expect("valid metadata");
    assert_eq!(metadata.title, "Hello");
    assert_eq!(metadata.author, "Ann");
    assert_eq!(metadata.slug, Some("hi".to_string()));
    assert_eq!(metadata.date, Some(Date { year: 2021, month: 6, day: 1 }));
    assert_eq!(metadata.show_date, Some(false));
}

#[test]
fn metadata_optional_fields_may_be_missing() {
    let metadata = Metadata::parse("title = \"Hello\"\nauthor = \"Ann\"\n").expect("valid metadata");
    assert_eq!(metadata.slug, None);
    assert_eq!(metadata.date, None);
    assert_eq!(metadata.show_date, None);
}

#[test]
fn metadata_ignores_unknown_fields() {
    let metadata = Metadata::parse("title = \"T\"\nauthor = \"A\"\ntags = [\"x\", \"y\"]\ndraft = 3\n")
        .expect("valid metadata");
    assert_eq!(metadata.title, "T");
}

#[test]
fn metadata_needs_a_title() {
    let flaw = Metadata::parse("author = \"Ann\"\n").expect_err("no title");
    assert!(matches!(flaw, Flaw::Missing { field } if field == "title"));
}

#[test]
fn metadata_needs_an_author() {
    let flaw = Metadata::parse("title = \"Hello\"\n").expect_err("no author");
    assert!(matches!(flaw, Flaw::Missing { field } if field == "author"));
}

#[test]
fn metadata_names_the_first_flaw() {
    let flaw = Metadata::parse("slug = 1\nshow_date = 2\n").expect_err("flawed");
    assert!(matches!(flaw, Flaw::Missing { field } if field == "title"));
    let flaw = Metadata::parse("title = \"T\"\nslug = 1\nshow_date = 2\n").expect_err("flawed");
    assert!(matches!(flaw, Flaw::Missing { field } if field == "author"));
    let flaw = Metadata::parse("title = \"T\"\nauthor = \"A\"\nslug = 1\nshow_date = 2\n")
        .expect_err("flawed");
    assert!(matches!(flaw, Flaw::Mistyped { field } if field == "slug"));
}

#[test]
fn metadata_title_must_be_a_string() {
    let flaw = Metadata::parse("title = 3\nauthor = \"Ann\"\n").expect_err("mistyped");
    assert!(matches!(flaw, Flaw::Mistyped { field } if field == "title"));
}

#[test]
fn metadata_slug_must_be_a_string() {
    let flaw = Metadata::parse("title = \"T\"\nauthor = \"A\"\nslug = true\n").expect_err("mistyped");
    assert!(matches!(flaw, Flaw::Mistyped { field } if field == "slug"));
}

#[test]
fn metadata_show_date_must_be_a_boolean() {
    let flaw = Metadata::parse("title = \"T\"\nauthor = \"A\"\nshow_date = \"yes\"\n")
        .expect_err("mistyped");
    assert!(matches!(flaw, Flaw::Mistyped { field } if field == "show_date"));
}

#[test]
fn metadata_date_must_be_a_calendar_date() {
    for date in ["2021-13-01", "2021-02-30", "01/02/2021", ""] {
        let section = format!("title = \"T\"\nauthor = \"A\"\ndate = \"{}\"\n", date);
        let flaw = Metadata::parse(&section).expect_err("no date");
        assert!(matches!(flaw, Flaw::NotADate { field } if field == "date"));
    }
}

#[test]
fn metadata_date_must_be_written_as_a_string() {
    let flaw = Metadata::parse("title = \"T\"\nauthor = \"A\"\ndate = 2021-01-01\n")
        .expect_err("mistyped");
    assert!(matches!(flaw, Flaw::Mistyped { field } if field == "date"));
}

#[test]
fn metadata_section_that_nests_too_deep_is_not_read() {
    let deep = format!("title = \"T\"\nauthor = \"A\"\nx = {}1{}\n", "[".repeat(129), "]".repeat(129));
    assert!(matches!(Metadata::parse(&deep), Err(Flaw::TooDeep)));
    let deeper = format!("x = {}", "[".repeat(50_000));
    assert!(matches!(Metadata::parse(&deeper), Err(Flaw::TooDeep)));
    let dotted = format!("{}x = 1\n", "a.".repeat(50_000));
    assert!(matches!(Metadata::parse(&dotted), Err(Flaw::TooDeep)));
    let braces = format!("x = {}", "{ a = ".repeat(50_000));
    assert!(matches!(Metadata::parse(&braces), Err(Flaw::TooDeep)));
}

#[test]
fn metadata_section_is_read_up_to_the_bound() {
    let nested = format!("title = \"T\"\nauthor = \"A\"\nx = {}1{}\n", "[".repeat(128), "]".repeat(128));
    assert_eq!(Metadata::parse(&nested).expect("within the bound").title, "T");
    let dotted = format!("title = \"T\"\nauthor = \"A\"\n{}x = 1\n", "a.".repeat(128));
    assert_eq!(Metadata::parse(&dotted).expect("within the bound").author, "A");
}

#[test]
fn metadata_with_many_dots_and_brackets_in_its_strings_is_read() {
    let title = "x. [y] {z} ".repeat(200);
    let section = format!("title = \"{}\"\nauthor = \"A. B. C.\"\n", title);
    let metadata = Metadata::parse(&section).expect("valid metadata");
    assert_eq!(metadata.title, title);
    assert_eq!(metadata.author, "A. B. C.");
}

#[test]
fn page_with_many_dots_in_its_title_is_built() {
    let title = ".".repeat(129);
    let text = format!("@Meta\ntitle = \"{}\"\nauthor = \"A\"\n@Content\nbody\n", title);
    let page = Page::parse(&path(&["content", "a.md"]), &text, &context()).expect("a page");
    assert_eq!(page.metadata.title, title);
    assert_eq!(page.content, "<p>body</p>\n");
}

#[test]
fn metadata_section_must_be_a_document() {
    match Metadata::parse("title = \n").expect_err("no document") {
        Flaw::Syntax { message } => {
            assert!(!message.is_empty());
            assert_ne!(message, "title = \n");
        }
        other => panic!("expected a syntax flaw, got {:?}", other),
    }
}

#[test]
fn page_is_built_from_a_content_file() {
    let text = "@Meta\ntitle = \"Hello\"\nauthor = \"Ann\"\ndate = \"2021-01-01\"\n@Content\n# Heading\n\nSome *text*.\n";
    let page = Page::parse(&path(&["content", "blog", "a.md"]), text, &context()).expect("a page");
    assert_eq!(page.metadata.title, "Hello");
    assert_eq!(page.metadata.author, "Ann");
    assert_eq!(page.metadata.date, Some(Date { year: 2021, month: 1, day: 1 }));
    assert!(page.metadata.show_date);
    assert_eq!(page.metadata.slug, "a");
    assert_eq!(names(&page.metadata.out_path), vec!["public", "blog", "a", "index.html"]);
    assert_eq!(page.metadata.link, "blog/a");
    assert_eq!(page.content, "<h1>Heading</h1>\n<p>Some <em>text</em>.</p>\n");
}

#[test]
fn page_uses_the_slug_it_states() {
    let text = "@Meta\ntitle = \"T\"\nauthor = \"A\"\nslug = \"first-post\"\nshow_date = false\n@Content\nbody\n";
    let page = Page::parse(&path(&["content", "blog", "a.md"]), text, &context()).expect("a page");
    assert_eq!(page.metadata.slug, "first-post");
    assert!(!page.metadata.show_date);
    assert_eq!(page.metadata.date, None);
    assert_eq!(names(&page.metadata.out_path), vec!["public", "blog", "first-post", "index.html"]);
    assert_eq!(page.metadata.link, "blog/first-post");
}

#[test]
fn index_page_is_written_in_place() {
    let text = "@Meta\ntitle = \"Home\"\nauthor = \"Ann\"\n@Content\nWelcome\n";
    let page = Page::parse(&path(&["content", "blog", "index.md"]), text, &context()).expect("a page");
    assert_eq!(names(&page.metadata.out_path), vec!["public", "blog", "index.html"]);
    assert_eq!(page.metadata.link, "blog");
    assert_eq!(page.metadata.slug, "index");
    assert_eq!(page.content, "<p>Welcome</p>\n");
}

#[test]
fn index_page_at_the_root_has_an_empty_link() {
    let text = "@Meta\ntitle = \"Home\"\nauthor = \"Ann\"\n@Content\nWelcome\n";
    let page = Page::parse(&path(&["content", "index.md"]), text, &context()).expect("a page");
    assert_eq!(names(&page.metadata.out_path), vec!["public", "index.html"]);
    assert_eq!(page.metadata.link, "");
}

#[test]
fn page_with_a_code_block_is_highlighted() {
    let text = "@Meta\ntitle = \"T\"\nauthor = \"A\"\n@Content\n```rs\nfn main(){}\n```\n";
    let page = Page::parse(&path(&["content", "code.md"]), text, &context()).expect("a page");
    assert!(page.content.starts_with("<pre style=\"background-color:#101010;\">\n"));
    assert!(page.content.contains("<span style=\"color:#f0f0f0;\">"));
    assert!(page.content.ends_with("</pre>\n"));
    assert!(!page.content.contains("<code"));
}

#[test]
fn missing_metadata_marker_is_a_malformed_page_naming_the_file() {
    let text = "title = \"T\"\nauthor = \"A\"\n@Content\nbody\n";
    match Page::parse(&path(&["content", "blog", "bad.md"]), text, &context()) {
        Err(BuildError::MalformedPage { path }) => {
            assert_eq!(names(&path), vec!["content", "blog", "bad.md"]);
        }
        other => panic!("expected a malformed page, got {:?}", other.map(|page| page.metadata)),
    }
}

#[test]
fn missing_content_marker_is_a_malformed_page() {
    let text = "@Meta\ntitle = \"T\"\nauthor = \"A\"\nbody\n";
    let outcome = Page::parse(&path(&["content", "bad.md"]), text, &context());
    assert!(matches!(outcome, Err(BuildError::MalformedPage { .. })));
}

#[test]
fn markers_in_the_wrong_order_are_a_malformed_page() {
    let text = "@Content\nbody\n@Meta\ntitle = \"T\"\nauthor = \"A\"\n";
    let outcome = Page::parse(&path(&["content", "bad.md"]), text, &context());
    assert!(matches!(outcome, Err(BuildError::MalformedPage { .. })));
}

#[test]
fn missing_title_is_invalid_metadata_naming_the_file() {
    let text = "@Meta\nauthor = \"A\"\n@Content\nbody\n";
    match Page::parse(&path(&["content", "bad.md"]), text, &context()) {
        Err(BuildError::InvalidMetadata { path, reason }) => {
            assert_eq!(names(&path), vec!["content", "bad.md"]);
            assert!(matches!(reason, Flaw::Missing { field } if field == "title"));
        }
        other => panic!("expected invalid metadata, got {:?}", other.map(|page| page.metadata)),
    }
}

#[test]
fn malformed_date_is_invalid_metadata() {
    let text = "@Meta\ntitle = \"T\"\nauthor = \"A\"\ndate = \"yesterday\"\n@Content\nbody\n";
    let outcome = Page::parse(&path(&["content", "bad.md"]), text, &context());
    assert!(matches!(
        outcome,
        Err(BuildError::InvalidMetadata { reason: Flaw::NotADate { .. }, .. })
    ));
}

#[test]
fn broken_metadata_document_is_invalid_metadata() {
    let text = "@Meta\ntitle = = \n@Content\nbody\n";
    let outcome = Page::parse(&path(&["content", "bad.md"]), text, &context());
    assert!(matches!(
        outcome,
        Err(BuildError::InvalidMetadata { reason: Flaw::Syntax { .. }, .. })
    ));
}

#[test]
fn default_slug_is_the_file_name_without_its_extension() {
    let text = "@Meta\ntitle = \"T\"\nauthor = \"A\"\n@Content\nx";
    let page = Page::parse(&path(&["content", "blog", "a.md"]), text, &context()).expect("a page");
    assert!(page.metadata.show_date);
    assert_eq!(page.metadata.slug, "a");
    assert_eq!(names(&page.metadata.out_path), vec!["public", "blog", "a", "index.html"]);
    let written = page.metadata.out_path.to_text();
    assert_eq!(written, "public/blog/a/index.html");
    assert!(written.ends_with(&format!("/{}/index.html", page.metadata.slug)));
}

#[test]
fn slug_with_a_dot_names_the_directory_whole() {
    let text = "@Meta\ntitle = \"T\"\nauthor = \"A\"\nslug = \"v1.2\"\n@Content\nx";
    let page = Page::parse(&path(&["content", "blog", "a.md"]), text, &context()).expect("a page");
    assert_eq!(page.metadata.slug, "v1.2");
    assert_eq!(page.metadata.out_path.to_text(), "public/blog/v1.2/index.html");
    assert_eq!(page.metadata.link, "blog/v1.2");
}

#[test]
fn pages_with_different_slugs_are_written_apart() {
    let first = "@Meta\ntitle = \"T\"\nauthor = \"A\"\nslug = \"v1.2\"\n@Content\nx";
    let second = "@Meta\ntitle = \"T\"\nauthor = \"A\"\nslug = \"v1.3\"\n@Content\nx";
    let one = Page::parse(&path(&["content", "blog", "a.md"]), first, &context()).expect("a page");
    let other = Page::parse(&path(&["content", "blog", "b.md"]), second, &context()).expect("a page");
    assert_ne!(one.metadata.out_path.components, other.metadata.out_path.components);
    assert_eq!(one.metadata.out_path.components[0], "public");
    assert_eq!(other.metadata.out_path.components[0], "public");
}

#[test]
fn pages_without_slugs_in_one_directory_are_written_apart() {
    let text = "@Meta\ntitle = \"T\"\nauthor = \"A\"\n@Content\nx";
    let one = Page::parse(&path(&["content", "a.md"]), text, &context()).expect("a page");
    let other = Page::parse(&path(&["content", "a.b.md"]), text, &context()).expect("a page");
    assert_eq!(one.metadata.out_path.to_text(), "public/a/index.html");
    assert_eq!(other.metadata.out_path.to_text(), "public/a.b/index.html");
}

#[test]
fn page_outside_the_content_root_is_a_path_error() {
    let text = "@Meta\ntitle = \"T\"\nauthor = \"A\"\n@Content\nbody\n";
    match Page::parse(&path(&["elsewhere", "a.md"]), text, &context()) {
        Err(BuildError::PathError { path }) => assert_eq!(names(&path), vec!["elsewhere", "a.md"]),
        other => panic!("expected a path error, got {:?}", other.map(|page| page.metadata)),
    }
}

#[test]
fn content_root_itself_is_no_page() {
    let text = "@Meta\ntitle = \"T\"\nauthor = \"A\"\nslug = \"s\"\n@Content\nbody\n";
    let outcome = Page::parse(&path(&["content"]), text, &context());
    assert!(matches!(outcome, Err(BuildError::PathError { .. })));
}

#[test]
fn malformed_page_is_reported_before_a_path_error() {
    let outcome = Page::parse(&path(&["elsewhere", "a.md"]), "no markers", &context());
    assert!(matches!(outcome, Err(BuildError::MalformedPage { .. })));
}

#[test]
fn metadata_is_read_from_a_table_of_fields() {
    let table = Table {
        entries: vec![
            ("author".to_string(), FieldValue::Text("Ann".to_string())),
            ("date".to_string(), FieldValue::Text("2020-02-29".to_string())),
            ("extra".to_string(), FieldValue::Other),
            ("show_date".to_string(), FieldValue::Flag(true)),
            ("title".to_string(), FieldValue::Text("Leap".to_string())),
        ],
    };
    let metadata = Metadata::from_table(&table).expect("valid metadata");
    assert_eq!(metadata.title, "Leap");
    assert_eq!(metadata.author, "Ann");
    assert_eq!(metadata.slug, None);
    assert_eq!(metadata.date, Some(Date { year: 2020, month: 2, day: 29 }));
    assert_eq!(metadata.show_date, Some(true));
}

#[test]
fn metadata_reads_the_first_of_two_fields_of_one_name() {
    let table = Table {
        entries: vec![
            ("title".to_string(), FieldValue::Text("first".to_string())),
            ("title".to_string(), FieldValue::Text("second".to_string())),
            ("author".to_string(), FieldValue::Text("Ann".to_string())),
        ],
    };
    assert_eq!(Metadata::from_table(&table).expect("valid metadata").title, "first");
}

#[test]
fn metadata_from_a_table_rejects_a_field_of_the_wrong_type() {
    let table = Table {
        entries: vec![
            ("title".to_string(), FieldValue::Text("T".to_string())),
            ("author".to_string(), FieldValue::Flag(true)),
        ],
    };
    assert!(Metadata::from_table(&table).is_err());
    let table = Table {
        entries: vec![
            ("title".to_string(), FieldValue::Text("T".to_string())),
            ("author".to_string(), FieldValue::Text("A".to_string())),
            ("date".to_string(), FieldValue::Other),
        ],
    };
    assert!(Metadata::from_table(&table).is_err());
}

#[test]
fn metadata_from_an_empty_table_is_invalid() {
    assert!(Metadata::from_table(&Table { entries: Vec::new() }).is_err());
}

#[test]
fn page_in_a_deep_directory() {
    let text = "@Meta\ntitle = \"T\"\nauthor = \"A\"\nslug = \"deep\"\n@Content\nx\n";
    let page = Page::parse(&path(&["content", "a", "b", "c", "post.md"]), text, &context())
        .expect("a page");
    assert_eq!(names(&page.metadata.out_path), vec!["public", "a", "b", "c", "deep", "index.html"]);
    assert_eq!(page.metadata.link, "a/b/c/deep");
}
