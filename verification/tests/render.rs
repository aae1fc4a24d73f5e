use onepage::Class;
use onepage::ChapterNode;
use onepage::Node;
use onepage::classify;
use onepage::join_path;
use onepage::render;

fn chapter(name: &str, number: Option<Vec<u64>>, content: &str, path: Option<&str>) -> Node {
    Node::Chapter(ChapterNode {
        name: String::from(name),
        number,
        content: String::from(content),
        path: path.map(String::from),
    })
}

fn lines(out: &[String]) -> Vec<&str> {
    out.iter().map(|s| s.as_str()).collect()
}

#[test]
fn classify_unnumbered_before_numbered_is_prefix() {
    assert_eq!(classify(false, true, Class::Prefix), Class::Prefix);
    assert_eq!(classify(false, true, Class::Draft), Class::Prefix);
    assert_eq!(classify(false, true, Class::Suffix), Class::Prefix);
}

#[test]
fn classify_unnumbered_after_numbered_is_suffix() {
    assert_eq!(classify(false, true, Class::Numbered), Class::Suffix);
}

#[test]
fn classify_numbered_is_numbered() {
    assert_eq!(classify(true, true, Class::Prefix), Class::Numbered);
    assert_eq!(classify(true, true, Class::Numbered), Class::Numbered);
}

#[test]
fn classify_missing_path_is_draft_whatever_else_holds() {
    assert_eq!(classify(true, false, Class::Numbered), Class::Draft);
    assert_eq!(classify(false, false, Class::Numbered), Class::Draft);
    assert_eq!(classify(false, false, Class::Prefix), Class::Draft);
}

#[test]
fn end_to_end_example() {
    let nodes = vec![
        chapter("Intro", None, "Welcome", None),
        chapter("Ch1", Some(vec![1]), "", Some("ch1.md")),
        chapter("Ch1.1", Some(vec![1, 1]), "", Some("ch1_1.md")),
        Node::Separator,
        chapter("Appendix", None, "Thanks", None),
    ];
    let out = render(&nodes, ".");
    assert_eq!(
        lines(&out),
        vec!["- [Ch1](./ch1.md)", "  - [Ch1.1](./ch1_1.md)", "", "---", ""]
    );
}

#[test]
fn numbered_depth_sets_indent() {
    let nodes = vec![
        chapter("A", Some(vec![1]), "", Some("a.md")),
        chapter("B", Some(vec![1, 2]), "", Some("b.md")),
        chapter("C", Some(vec![1, 2, 3]), "", Some("c.md")),
    ];
    let out = render(&nodes, ".");
    assert_eq!(
        lines(&out),
        vec![
            "- [A](./a.md)",
            "  - [B](./b.md)",
            "    - [C](./c.md)",
        ]
    );
}

#[test]
fn draft_never_appears() {
    let nodes = vec![
        chapter("A", Some(vec![1]), "body", None),
        chapter("B", None, "body", None),
        chapter("C", Some(vec![2]), "", Some("c.md")),
    ];
    let out = render(&nodes, ".");
    assert_eq!(lines(&out), vec!["- [C](./c.md)"]);
}

#[test]
fn suffix_after_numbered_run_gets_one_blank_line() {
    let nodes = vec![
        chapter("A", Some(vec![1]), "", Some("a.md")),
        chapter("B", Some(vec![2]), "", Some("b.md")),
        chapter("Back", None, "The end.", Some("back.md")),
    ];
    let out = render(&nodes, ".");
    assert_eq!(
        lines(&out),
        vec!["- [A](./a.md)", "- [B](./b.md)", "", "The end.", ""]
    );
}

#[test]
fn prefix_chapter_emits_content_and_blank_line() {
    let nodes = vec![chapter("Front", None, "Hello there.", Some("front.md"))];
    let out = render(&nodes, ".");
    assert_eq!(lines(&out), vec!["Hello there.", ""]);
}

#[test]
fn separator_after_numbered_gets_one_blank_line() {
    let nodes = vec![
        chapter("A", Some(vec![1]), "", Some("a.md")),
        Node::Separator,
    ];
    let out = render(&nodes, ".");
    assert_eq!(lines(&out), vec!["- [A](./a.md)", "", "---", ""]);
}

#[test]
fn separator_without_numbered_run_has_no_leading_blank() {
    let nodes = vec![Node::Separator];
    let out = render(&nodes, ".");
    assert_eq!(lines(&out), vec!["---", ""]);
}

#[test]
fn part_title_after_numbered_gets_one_blank_line() {
    let nodes = vec![
        chapter("A", Some(vec![1]), "", Some("a.md")),
        Node::PartTitle(String::from("Part Two")),
    ];
    let out = render(&nodes, ".");
    assert_eq!(lines(&out), vec!["- [A](./a.md)", "", "# Part Two", ""]);
}

#[test]
fn part_title_without_numbered_run_has_no_leading_blank() {
    let nodes = vec![Node::PartTitle(String::from("Part One"))];
    let out = render(&nodes, ".");
    assert_eq!(lines(&out), vec!["# Part One", ""]);
}

#[test]
fn separator_preserves_carried_classification() {
    // The separator does not reset the carried state: an unnumbered
    // chapter after "numbered, separator" is still a suffix, so it gets
    // the separating blank line.
    let nodes = vec![
        chapter("A", Some(vec![1]), "", Some("a.md")),
        Node::Separator,
        chapter("Back", None, "Bye.", Some("back.md")),
    ];
    let out = render(&nodes, ".");
    assert_eq!(
        lines(&out),
        vec!["- [A](./a.md)", "", "---", "", "", "Bye.", ""]
    );
}

#[test]
fn upstream_output_ignores_downstream_nodes() {
    let head = vec![
        chapter("Front", None, "Hi.", Some("front.md")),
        chapter("A", Some(vec![1]), "", Some("a.md")),
    ];
    let mut with_tail = head.clone();
    with_tail.push(Node::Separator);
    with_tail.push(chapter("Z", Some(vec![9]), "", Some("z.md")));
    let short = render(&head, ".");
    let long = render(&with_tail, ".");
    assert_eq!(&long[..short.len()], &short[..]);
}

#[test]
fn join_path_relative() {
    assert_eq!(join_path(".", "ch1.md"), "./ch1.md");
    assert_eq!(join_path("docs", "ch1.md"), "docs/ch1.md");
}

#[test]
fn join_path_root_with_trailing_separator() {
    assert_eq!(join_path("docs/", "ch1.md"), "docs/ch1.md");
}

#[test]
fn join_path_empty_root() {
    assert_eq!(join_path("", "ch1.md"), "ch1.md");
}

#[test]
fn join_path_absolute_source_path_stands_alone() {
    assert_eq!(join_path("docs", "/abs/ch1.md"), "/abs/ch1.md");
}

#[test]
fn custom_root_prefixes_links() {
    let nodes = vec![chapter("A", Some(vec![1]), "", Some("a.md"))];
    let out = render(&nodes, "src");
    assert_eq!(lines(&out), vec!["- [A](src/a.md)"]);
}
