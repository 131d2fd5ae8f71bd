use vmark::prompts::{parse_prompt, prompt_metadata_from};

#[test]
fn test_parse_prompt_with_frontmatter() {
    let content = r#"---
name: improve-writing
description: Improve clarity and flow
scope: selection
category: writing
icon: sparkles
---

You are an expert editor. Improve the following text:

{{content}}"#;

    let result = parse_prompt(content, "improve-writing.md").unwrap();
    assert_eq!(result.metadata.name, "improve-writing");
    assert_eq!(result.metadata.description, "Improve clarity and flow");
    assert_eq!(result.metadata.scope, "selection");
    assert_eq!(result.metadata.category.as_deref(), Some("writing"));
    assert_eq!(result.metadata.icon.as_deref(), Some("sparkles"));
    assert!(result.template.contains("{{content}}"));
}

#[test]
fn test_parse_prompt_without_frontmatter() {
    let content = "Just a plain prompt template\n\n{{content}}";
    let result = parse_prompt(content, "test-prompt.md").unwrap();
    assert_eq!(result.metadata.name, "test-prompt");
    assert_eq!(result.metadata.scope, "selection");
    assert!(result.template.contains("{{content}}"));
}

#[test]
fn test_parse_prompt_with_bom() {
    let content = "\u{FEFF}---\nname: bom-test\ndescription: Has BOM\nscope: document\n---\n\nTemplate here";
    let result = parse_prompt(content, "bom-test.md").unwrap();
    assert_eq!(result.metadata.name, "bom-test");
    assert_eq!(result.metadata.scope, "document");
}

#[test]
fn test_parse_prompt_missing_closing() {
    let content = "---\nname: broken\nno closing fence";
    let result = parse_prompt(content, "broken.md");
    assert!(result.is_err());
}

#[test]
fn prompt_template_and_error_are_exact() {
    let prompt = parse_prompt("---\nICON: star\nmodel: m\n---\n\n  Write.\n", "dir/p.md").unwrap();
    assert_eq!(prompt.metadata.name, "p");
    assert_eq!(prompt.metadata.description, "");
    assert_eq!(prompt.metadata.scope, "selection");
    assert_eq!(prompt.metadata.category, None);
    assert_eq!(prompt.metadata.icon.as_deref(), Some("star"));
    assert_eq!(prompt.metadata.model.as_deref(), Some("m"));
    assert_eq!(prompt.template, "Write.\n");
    assert_eq!(
        parse_prompt("---\nname: x", "dir/p.md").unwrap_err(),
        "No closing --- in frontmatter: dir/p.md"
    );
    let plain = parse_prompt("\u{FEFF}  plain", "dir/p.md").unwrap();
    assert_eq!(plain.template, "  plain");
}

#[test]
fn prompt_metadata_defaults() {
    let metadata = prompt_metadata_from(&Vec::new(), "fallback");
    assert_eq!(metadata.name, "fallback");
    assert_eq!(metadata.description, "");
    assert_eq!(metadata.scope, "selection");
    assert_eq!(metadata.category, None);
    assert_eq!(metadata.icon, None);
    assert_eq!(metadata.model, None);
    let fields = vec![
        ("scope".to_string(), "a".to_string()),
        ("Scope".to_string(), "ignored".to_string()),
        ("scope".to_string(), "b".to_string()),
    ];
    assert_eq!(prompt_metadata_from(&fields, "fallback").scope, "b");
}
