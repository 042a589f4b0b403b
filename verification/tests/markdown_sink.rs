use maimai_search::markdown::append_markdown_document;
use maimai_search::markdown::render_markdown_table;

fn table_a() -> String {
    let header = vec![String::from("a"), String::from("b")];
    let rows = vec![vec![String::from("1"), String::from("2")]];
    render_markdown_table(&header, &rows)
}

fn table_b() -> String {
    let header = vec![String::from("x")];
    let rows = vec![vec![String::from("9")], vec![String::from("8")]];
    render_markdown_table(&header, &rows)
}

#[test]
fn markdown_table_renders_exactly() {
    let text = table_a();
    assert_eq!(text, "| a | b |\n| --- | --- |\n| 1 | 2 |\n");
}

#[test]
fn markdown_append_keeps_existing_bytes() {
    let a = table_a();
    let b = table_b();
    let mut doc = a.clone();
    append_markdown_document(&mut doc, b.as_str());
    assert_eq!(&doc[..a.len()], a.as_str());
    assert_eq!(&doc[a.len()..], b.as_str());
    assert_eq!(doc, format!("{}{}", a, b));
}

#[test]
fn markdown_append_creates_content_from_empty() {
    let b = table_b();
    let mut doc = String::new();
    append_markdown_document(&mut doc, b.as_str());
    assert_eq!(doc, b);
}
