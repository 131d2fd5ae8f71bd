use std::collections::HashMap;

use vmark::frontmatter::{split_frontmatter, white_space, Frontmatter};
use vmark::genies::{
    category_for, extract_frontmatter_name, genie_key, genie_metadata_from, is_markdown_path,
    parse_genie, scan_genies_with_titles, GenieFile,
};

#[test]
fn test_parse_genie_with_frontmatter() {
    let content = r#"---
name: improve-writing
description: Improve clarity and flow
scope: selection
category: writing
---

You are an expert editor. Improve the following text:

{{content}}"#;

    let result = parse_genie(content, "improve-writing.md").unwrap();
    assert_eq!(result.metadata.name, "improve-writing");
    assert_eq!(result.metadata.description, "Improve clarity and flow");
    assert_eq!(result.metadata.scope, "selection");
    assert_eq!(result.metadata.category.as_deref(), Some("writing"));
    assert_eq!(result.metadata.action, None); // no action field → defaults to None
    assert!(result.template.contains("{{content}}"));
}

#[test]
fn test_parse_genie_with_action_insert() {
    let content = "---\nname: continue\nscope: block\naction: insert\n---\n\nContinue writing.\n\n{{content}}";
    let result = parse_genie(content, "continue.md").unwrap();
    assert_eq!(result.metadata.name, "continue");
    assert_eq!(result.metadata.scope, "block");
    assert_eq!(result.metadata.action.as_deref(), Some("insert"));
}

#[test]
fn test_parse_genie_with_invalid_action() {
    let content = "---\nname: typo\nscope: selection\naction: insret\n---\n\nTemplate";
    let result = parse_genie(content, "typo.md").unwrap();
    assert_eq!(result.metadata.action, None); // invalid value ignored
}

#[test]
fn test_parse_genie_without_frontmatter() {
    let content = "Just a plain genie template\n\n{{content}}";
    let result = parse_genie(content, "test-genie.md").unwrap();
    assert_eq!(result.metadata.name, "test-genie");
    assert_eq!(result.metadata.scope, "selection");
    assert!(result.template.contains("{{content}}"));
}

#[test]
fn test_parse_genie_with_bom() {
    let content = "\u{FEFF}---\nname: bom-test\ndescription: Has BOM\nscope: document\n---\n\nTemplate here";
    let result = parse_genie(content, "bom-test.md").unwrap();
    assert_eq!(result.metadata.name, "bom-test");
    assert_eq!(result.metadata.scope, "document");
}

#[test]
fn test_parse_genie_missing_closing() {
    let content = "---\nname: broken\nno closing fence";
    let result = parse_genie(content, "broken.md");
    assert!(result.is_err());
}

#[test]
fn test_read_genie_uses_canonical_path() {
    let content = "---\nname: canonical-test\nscope: document\n---\nSafe content";
    let result = parse_genie(content, "canonical-test.md").unwrap();
    assert_eq!(result.metadata.name, "canonical-test");
}

#[test]
fn white_space_is_what_std_calls_white_space() {
    let mut count = 0;
    for code in 0..=0x10FFFFu32 {
        if let Some(c) = char::from_u32(code) {
            assert_eq!(white_space(c), c.is_whitespace(), "U+{:04X}", code);
            if white_space(c) {
                count += 1;
            }
        }
    }
    assert_eq!(count, 25);
}

/// The fields of a file, read with the string routines of std.
fn fields_by_std(content: &str) -> Option<(Vec<(String, String)>, String)> {
    let content = content.trim_start_matches('\u{FEFF}');
    let trimmed = content.trim_start();
    if !trimmed.starts_with("---") {
        return None;
    }
    let after_first = &trimmed[3..];
    let closing = after_first.find("\n---")?;
    let block = &after_first[..closing];
    let template = after_first[closing + 4..].trim_start().to_string();
    let mut fields = Vec::new();
    for line in block.lines() {
        let line = line.trim();
        if line.is_empty() {
            continue;
        }
        if let Some((key, value)) = line.split_once(':') {
            fields.push((key.trim().to_string(), value.trim().to_string()));
        }
    }
    Some((fields, template))
}

const SAMPLES: &[&str] = &[
    "",
    "---",
    "---\n---",
    "---\n---\n",
    "----\nname: x\n----\nbody",
    "---\nname: a\n---\nbody",
    "---\r\nname: a\r\ndescription: b\r\n---\r\nbody\r\n",
    "\u{FEFF}\u{FEFF}  \n\t---\nname: a\n---\n\n  body  ",
    " \u{FEFF}---\nname: a\n---\nbody",
    "---\nname: a: b : c\n: empty key\nno colon here\n\n   \nKEY :  spaced value  \n---tail\nrest",
    "---\nname: one\nname: two\nNAME: three\n---\n",
    "---\nname:\nname:   \nName: real\n---\nx",
    "---\n\u{3000}sc\u{00A0}ope\u{2003}:\u{2028}doc\u{0085}\n---\n\u{2029}\u{1680}body",
    "---\nname: a\r\r\n\r\n---\nx",
    "---name: inline\nscope: s\n---\nbody",
    "--\nname: a\n---\nbody",
    "text before\n---\nname: a\n---\nbody",
    "---\nname: a\n ---\nbody\n---\nmore",
    "---\nname: caf\u{e9}\nd\u{e9}scription: \u{1F600}\n---\n\u{1F600} body",
    "---\n---\n---\n---",
    "---\nname: a\n---",
];

#[test]
fn splitting_agrees_with_the_string_routines_of_std() {
    for sample in SAMPLES {
        let parts = split_frontmatter(sample);
        match fields_by_std(sample) {
            Some((fields, template)) => match parts {
                Frontmatter::Present { entries, template: found } => {
                    assert_eq!(entries, fields, "entries of {:?}", sample);
                    assert_eq!(found, template, "template of {:?}", sample);
                }
                other => panic!("{:?} gave {:?}", sample, other),
            },
            None => {
                let body = sample.trim_start_matches('\u{FEFF}');
                if body.trim_start().starts_with("---") {
                    assert!(matches!(parts, Frontmatter::Unclosed), "{:?}", sample);
                } else {
                    match parts {
                        Frontmatter::Absent { body: found } => assert_eq!(found, body),
                        other => panic!("{:?} gave {:?}", sample, other),
                    }
                }
            }
        }
    }
}

#[test]
fn parsing_agrees_with_a_map_of_the_fields() {
    for sample in SAMPLES {
        let parsed = parse_genie(sample, "some/dir/fallback.name.md");
        match fields_by_std(sample) {
            Some((fields, template)) => {
                let mut map: HashMap<String, String> = HashMap::new();
                for (key, value) in fields {
                    map.insert(key.to_lowercase(), value);
                }
                let genie = parsed.unwrap();
                assert_eq!(
                    genie.metadata.name,
                    map.get("name").cloned().unwrap_or("fallback.name".to_string())
                );
                assert_eq!(
                    genie.metadata.description,
                    map.get("description").cloned().unwrap_or_default()
                );
                assert_eq!(
                    genie.metadata.scope,
                    map.get("scope").cloned().unwrap_or("selection".to_string())
                );
                assert_eq!(genie.metadata.category, map.get("category").cloned());
                assert_eq!(genie.metadata.model, map.get("model").cloned());
                assert_eq!(genie.template, template);
            }
            None => {
                let body = sample.trim_start_matches('\u{FEFF}');
                if body.trim_start().starts_with("---") {
                    assert_eq!(
                        parsed.unwrap_err(),
                        "No closing --- in frontmatter: some/dir/fallback.name.md"
                    );
                } else {
                    let genie = parsed.unwrap();
                    assert_eq!(genie.metadata.name, "fallback.name");
                    assert_eq!(genie.metadata.description, "");
                    assert_eq!(genie.metadata.scope, "selection");
                    assert_eq!(genie.metadata.category, None);
                    assert_eq!(genie.metadata.model, None);
                    assert_eq!(genie.metadata.action, None);
                    assert_eq!(genie.template, body);
                }
            }
        }
    }
}

#[test]
fn keys_are_matched_in_lower_case() {
    let content = "---\nNAME: Shout\nScope: Block\nACTION: replace\nModel: m1\n---\nbody";
    let genie = parse_genie(content, "x.md").unwrap();
    assert_eq!(genie.metadata.name, "Shout");
    assert_eq!(genie.metadata.scope, "Block");
    assert_eq!(genie.metadata.action.as_deref(), Some("replace"));
    assert_eq!(genie.metadata.model.as_deref(), Some("m1"));
}

#[test]
fn the_last_entry_under_a_key_wins() {
    let content = "---\nname: first\nscope: a\nname: second\n---\nbody";
    let genie = parse_genie(content, "x.md").unwrap();
    assert_eq!(genie.metadata.name, "second");
}

#[test]
fn action_is_kept_only_when_known() {
    let fields = |action: &str| vec![("action".to_string(), action.to_string())];
    assert_eq!(
        genie_metadata_from(&fields("replace"), "n").action.as_deref(),
        Some("replace")
    );
    assert_eq!(
        genie_metadata_from(&fields("insert"), "n").action.as_deref(),
        Some("insert")
    );
    assert_eq!(genie_metadata_from(&fields("Insert"), "n").action, None);
    assert_eq!(genie_metadata_from(&fields(""), "n").action, None);
    assert_eq!(genie_metadata_from(&Vec::new(), "n").name, "n");
}

#[test]
fn the_name_of_a_file_without_one_is_the_stem_of_its_path() {
    let genie = parse_genie("---\nscope: block\n---\nbody", "/genies/writing/polish.md").unwrap();
    assert_eq!(genie.metadata.name, "polish");
    let genie = parse_genie("body", "").unwrap();
    assert_eq!(genie.metadata.name, "");
}

#[test]
fn frontmatter_name_is_the_first_that_is_not_empty() {
    assert_eq!(
        extract_frontmatter_name("---\nname:\nNaMe: Second\nname: third\n---\n"),
        Some("Second".to_string())
    );
    assert_eq!(extract_frontmatter_name("---\ntitle: x\n---\n"), None);
    assert_eq!(extract_frontmatter_name("name: x"), None);
    assert_eq!(extract_frontmatter_name("---\nname: x"), None);
    assert_eq!(
        extract_frontmatter_name("\u{FEFF} ---\n  name :  spaced out  \n---"),
        Some("spaced out".to_string())
    );
    // Only ASCII letters are folded: the Kelvin sign is no `k`, and a
    // dotted capital I is no `i`.
    assert_eq!(extract_frontmatter_name("---\nn\u{0041}me: x\n---"), Some("x".to_string()));
    assert_eq!(extract_frontmatter_name("---\nn\u{00C1}me: x\n---"), None);
}

fn genie_file(path: &str, content: Option<&str>) -> GenieFile {
    GenieFile { path: path.to_string(), content: content.map(|c| c.to_string()) }
}

#[test]
fn menu_entries_are_titled_and_sorted() {
    let files = vec![
        genie_file("/g/writing/polish.md", Some("---\nname: Zebra\n---\nx")),
        genie_file("/g/b.md", None),
        genie_file("/g/notes.txt", Some("---\nname: Not a genie\n---\nx")),
        genie_file("/g/tools/deep/a.MD", Some("no front matter")),
        genie_file("/g/c.md", Some("---\nname: Apple\n---\nx")),
        genie_file("/g/B.md", Some("---\nscope: s\n---\nx")),
        genie_file("/g/README", None),
    ];
    let entries = scan_genies_with_titles("/g", files);
    let titles: Vec<&str> = entries.iter().map(|e| e.title.as_str()).collect();
    assert_eq!(titles, vec!["Apple", "B", "Zebra", "a", "b"]);
    assert_eq!(entries[0].path, "/g/c.md");
    assert_eq!(entries[0].category, None);
    assert_eq!(entries[2].category.as_deref(), Some("writing"));
    assert_eq!(entries[3].category.as_deref(), Some("tools/deep"));
    assert_eq!(entries[3].path, "/g/tools/deep/a.MD");
    assert!(scan_genies_with_titles("/g", Vec::new()).is_empty());
}

#[test]
fn menu_entries_with_one_title_keep_their_order() {
    let files = vec![
        genie_file("/g/2/same.md", None),
        genie_file("/g/1/same.md", None),
        genie_file("/g/0/same.md", None),
    ];
    let entries = scan_genies_with_titles("/g", files);
    let paths: Vec<&str> = entries.iter().map(|e| e.path.as_str()).collect();
    assert_eq!(paths, vec!["/g/2/same.md", "/g/1/same.md", "/g/0/same.md"]);
}

#[test]
fn markdown_files_go_by_their_extension() {
    for path in ["a.md", "/x/y.MD", "z.Md", "dir.d/file.mD", ".hidden.md"] {
        assert!(is_markdown_path(path), "{}", path);
    }
    for path in ["a.txt", "md", "a.md.bak", "a.mdx", ".md", "dir.md/file", "", "a.m\u{212A}"] {
        assert!(!is_markdown_path(path), "{}", path);
    }
}

#[test]
fn categories_and_keys_are_seen_from_the_base() {
    assert_eq!(category_for("/g/writing/improve.md", "/g").as_deref(), Some("writing"));
    assert_eq!(category_for("/g/a/b/improve.md", "/g").as_deref(), Some("a/b"));
    assert_eq!(category_for("/g/improve.md", "/g"), None);
    assert_eq!(category_for("/elsewhere/improve.md", "/g"), None);
    assert_eq!(category_for("improve.md", "/g"), None);
    assert_eq!(genie_key("/g/writing/improve.md", "/g"), "writing/improve");
    assert_eq!(genie_key("/g/improve.md", "/g"), "improve");
    assert_eq!(genie_key("/g/archive.tar.gz", "/g"), "archive.tar");
    assert_eq!(genie_key("/elsewhere/improve.md", "/g"), "/elsewhere/improve");
}
