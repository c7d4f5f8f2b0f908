use ssg::context::RunContext;
use ssg::directive::{classify, directives, scan, scan_line, search, Line, PatternRejected, DIRECTIVE_PATTERN};
use ssg::resolve::{find_fragment, render, resolve, Fragment};
use ssg::walk::{plan_entry, EntryAction, EntryKind};

fn lines(items: &[&str]) -> Vec<String> {
    items.iter().map(|s| s.to_string()).collect()
}

fn fragment(name: &str, path: &str, content: &str) -> Fragment {
    Fragment { name: name.to_string(), path: path.to_string(), content: content.to_string() }
}

#[test]
fn pattern_is_the_directive_syntax() {
    assert_eq!(DIRECTIVE_PATTERN, "<!-- template: (.+?) -->");
}

#[test]
fn scan_line_finds_a_directive() {
    match scan_line("<!-- template: b.html -->").unwrap() {
        Line::Include { text, name } => {
            assert_eq!(text, "<!-- template: b.html -->");
            assert_eq!(name, "b.html");
        }
        Line::Text(_) => panic!("a directive was expected"),
    }
}

#[test]
fn scan_line_keeps_the_name_as_written() {
    match scan_line("  before <!-- template: parts/top bar.html --> after").unwrap() {
        Line::Include { text, name } => {
            assert_eq!(text, "  before <!-- template: parts/top bar.html --> after");
            assert_eq!(name, "parts/top bar.html");
        }
        Line::Text(_) => panic!("a directive was expected"),
    }
}

#[test]
fn scan_line_takes_the_first_and_shortest_name() {
    match scan_line("<!-- template: a --> <!-- template: b -->").unwrap() {
        Line::Include { name, .. } => assert_eq!(name, "a"),
        Line::Text(_) => panic!("a directive was expected"),
    }
}

#[test]
fn scan_line_leaves_other_lines_alone() {
    for text in ["", "<p>hi</p>", "<!-- template:  -->", "<!-- template: -->", "<!--template: a -->", "<!-- Template: a -->"] {
        match scan_line(text).unwrap() {
            Line::Text(kept) => assert_eq!(kept, text),
            Line::Include { .. } => panic!("no directive was expected in {:?}", text),
        }
    }
}

#[test]
fn classify_follows_the_search() {
    assert!(matches!(classify("x", None), Line::Text(t) if t == "x"));
    assert!(matches!(
        classify("x", Some("n".to_string())),
        Line::Include { text, name } if text == "x" && name == "n"
    ));
}

#[test]
fn scan_keeps_order_and_length() {
    let scanned = scan(&lines(&["a", "<!-- template: f -->", "b"])).unwrap();
    assert_eq!(scanned.len(), 3);
    assert!(matches!(&scanned[0], Line::Text(t) if t == "a"));
    assert!(matches!(&scanned[1], Line::Include { name, .. } if name == "f"));
    assert!(matches!(&scanned[2], Line::Text(t) if t == "b"));
    assert!(scan(&Vec::new()).unwrap().is_empty());
}

#[test]
fn find_fragment_takes_the_first_of_a_name() {
    let store = vec![fragment("a", "p/a", "1"), fragment("b", "p/b", "2"), fragment("a", "q/a", "3")];
    assert_eq!(find_fragment(&store, &"a".to_string()), Some(0));
    assert_eq!(find_fragment(&store, &"b".to_string()), Some(1));
    assert_eq!(find_fragment(&store, &"c".to_string()), None);
    assert_eq!(find_fragment(&Vec::new(), &"a".to_string()), None);
}

#[test]
fn directive_is_replaced_by_the_fragment() {
    let mut ctx = RunContext::new();
    let store = vec![fragment("b.html", "src/b.html", "<p>hi</p>")];
    let output = resolve("src/a.html", &lines(&["<!-- template: b.html -->"]), &store, &mut ctx).unwrap();
    assert_eq!(output, "<p>hi</p>");
    assert!(ctx.diagnostics.is_empty());
    assert!(ctx.is_processed("src/b.html"));
    assert_eq!(
        plan_entry(&ctx, "src/b.html", EntryKind::File, Some("html")),
        EntryAction::Skip
    );
}

#[test]
fn missing_fragment_keeps_the_line_and_is_reported() {
    let mut ctx = RunContext::new();
    let output = resolve("a.html", &lines(&["<!-- template: missing.html -->"]), &Vec::new(), &mut ctx).unwrap();
    assert_eq!(output, "<!-- template: missing.html -->\n");
    assert_eq!(ctx.diagnostics.len(), 1);
    assert_eq!(ctx.diagnostics[0].path, "a.html");
    assert_eq!(ctx.diagnostics[0].line, Some(1));
    assert_eq!(ctx.diagnostics[0].message, "template missing.html not found");
    assert!(ctx.processed.is_empty());
}

#[test]
fn page_without_directive_is_unchanged() {
    let mut ctx = RunContext::new();
    let store = vec![fragment("b.html", "src/b.html", "<p>hi</p>")];
    let output = resolve("a.html", &lines(&["<html>", "", "  <p>x</p>", "</html>"]), &store, &mut ctx).unwrap();
    assert_eq!(output, "<html>\n\n  <p>x</p>\n</html>\n");
    assert!(ctx.diagnostics.is_empty());
    assert!(ctx.processed.is_empty());
}

#[test]
fn empty_page_gives_empty_output() {
    let mut ctx = RunContext::new();
    assert_eq!(resolve("a.html", &Vec::new(), &Vec::new(), &mut ctx).unwrap(), "");
    assert!(ctx.diagnostics.is_empty());
}

#[test]
fn fragment_is_not_expanded_again() {
    let mut ctx = RunContext::new();
    let store = vec![
        fragment("outer.html", "src/outer.html", "<!-- template: inner.html -->\n"),
        fragment("inner.html", "src/inner.html", "deep"),
    ];
    let output = resolve("src/a.html", &lines(&["<!-- template: outer.html -->"]), &store, &mut ctx).unwrap();
    assert_eq!(output, "<!-- template: inner.html -->\n");
    assert!(ctx.is_processed("src/outer.html"));
    assert!(!ctx.is_processed("src/inner.html"));
}

#[test]
fn mixed_page_reports_line_numbers_in_order() {
    let mut ctx = RunContext::new();
    let store = vec![fragment("head.html", "src/head.html", "<head/>\n")];
    let page = lines(&[
        "<html>",
        "<!-- template: head.html -->",
        "<!-- template: nav.html -->",
        "<body/>",
        "<!-- template: foot.html -->",
        "<!-- template: head.html -->",
    ]);
    let output = resolve("src/index.html", &page, &store, &mut ctx).unwrap();
    assert_eq!(
        output,
        "<html>\n<head/>\n<!-- template: nav.html -->\n<body/>\n<!-- template: foot.html -->\n<head/>\n"
    );
    assert_eq!(ctx.diagnostics.len(), 2);
    assert_eq!(ctx.diagnostics[0].line, Some(3));
    assert_eq!(ctx.diagnostics[0].message, "template nav.html not found");
    assert_eq!(ctx.diagnostics[0].path, "src/index.html");
    assert_eq!(ctx.diagnostics[1].line, Some(5));
    assert_eq!(ctx.diagnostics[1].message, "template foot.html not found");
    assert_eq!(ctx.processed, vec!["src/head.html".to_string()]);
}

#[test]
fn render_adds_to_what_the_run_already_holds() {
    let mut ctx = RunContext::new();
    ctx.record_failure("src/x.bin", "cannot copy");
    ctx.mark_processed("src/x.bin");
    let scanned = scan(&lines(&["<!-- template: f -->", "<!-- template: g -->"])).unwrap();
    let store = vec![fragment("f", "src/f", "F")];
    let output = render("src/p.html", &scanned, &store, &mut ctx);
    assert_eq!(output, "F<!-- template: g -->\n");
    assert_eq!(ctx.diagnostics.len(), 2);
    assert_eq!(ctx.diagnostics[0].message, "cannot copy");
    assert_eq!(ctx.diagnostics[1].line, Some(2));
    assert!(ctx.is_processed("src/x.bin"));
    assert!(ctx.is_processed("src/f"));
}

#[test]
fn rendering_twice_gives_the_same() {
    let store = vec![fragment("f", "src/f", "F\n")];
    let page = lines(&["a", "<!-- template: f -->", "<!-- template: g -->"]);
    let mut first = RunContext::new();
    let mut second = RunContext::new();
    let one = resolve("src/p.html", &page, &store, &mut first).unwrap();
    let two = resolve("src/p.html", &page, &store, &mut second).unwrap();
    assert_eq!(one, two);
    assert_eq!(one, "a\nF\n<!-- template: g -->\n");
    assert_eq!(first.processed, second.processed);
    assert_eq!(first.diagnostics.len(), second.diagnostics.len());
    assert_eq!(first.diagnostics[0].message, second.diagnostics[0].message);
    assert_eq!(first.diagnostics[0].line, second.diagnostics[0].line);
}

#[test]
fn directives_are_listed_with_their_lines() {
    let scanned = scan(&lines(&["<!-- template: a -->", "text", "<!-- template: b/c.html -->", "<!-- template: a -->"])).unwrap();
    let found = directives("src/p.html", &scanned);
    assert_eq!(found.len(), 3);
    assert_eq!(found[0].name, "a");
    assert_eq!(found[0].file, "src/p.html");
    assert_eq!(found[0].line, 1);
    assert_eq!(found[1].name, "b/c.html");
    assert_eq!(found[1].line, 3);
    assert_eq!(found[2].name, "a");
    assert_eq!(found[2].line, 4);
    assert!(directives("src/p.html", &scan(&lines(&["x", "y"])).unwrap()).is_empty());
}

#[test]
fn search_rejects_a_broken_pattern() {
    assert_eq!(search("(", "anything").unwrap_err(), PatternRejected);
    assert_eq!(search("<!-- template: (.+?", "<!-- template: a -->").unwrap_err(), PatternRejected);
}

#[test]
fn search_goes_by_the_first_group() {
    assert!(matches!(search("@(\\w+)", "see @top and @end").unwrap(), Line::Include { name, .. } if name == "top"));
    assert!(matches!(search("@\\w+", "see @top").unwrap(), Line::Text(t) if t == "see @top"));
    assert!(matches!(search("a|(b)", "a").unwrap(), Line::Text(t) if t == "a"));
    assert!(matches!(search("@(\\w+)", "nothing").unwrap(), Line::Text(t) if t == "nothing"));
}
