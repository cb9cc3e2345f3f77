use honeybee::serializer::{render_snapshot, SnapshotWriter};

fn rows(texts: &[&str]) -> Vec<String> {
    texts.iter().map(|t| t.to_string()).collect()
}

#[test]
fn empty_result_is_bare_brackets() {
    let (content, count) = render_snapshot(&rows(&[]));
    assert_eq!(content, "[]\n");
    assert_eq!(count, 0);
}

#[test]
fn single_row_example() {
    let (content, count) = render_snapshot(&rows(&["{\"x\":1}"]));
    assert_eq!(content, "[\n{\"x\":1}\n]\n");
    assert_eq!(count, 1);
}

#[test]
fn row_count_matches_input() {
    let input = rows(&["{\"a\":1}", "{\"a\":2}", "{\"a\":3}", "{\"a\":4}"]);
    let (content, count) = render_snapshot(&input);
    assert_eq!(count, 4);
    assert_eq!(content.matches("{\"a\":").count(), 4);
}

#[test]
fn separators_and_newlines_exact() {
    let (content, count) = render_snapshot(&rows(&["{\"a\":1}", "{\"b\":2}"]));
    assert_eq!(content, "[\n{\"a\":1},\n{\"b\":2}\n]\n");
    assert_eq!(count, 2);
}

#[test]
fn row_order_is_preserved() {
    let (content, _) = render_snapshot(&rows(&["\"b\"", "\"a\"", "\"c\""]));
    assert_eq!(content, "[\n\"b\",\n\"a\",\n\"c\"\n]\n");
}

#[test]
fn rows_with_interior_commas_keep_shape() {
    let (content, count) = render_snapshot(&rows(&["{\"a\":1,\"b\":2}", "{\"c\":3,\"d\":4}"]));
    assert_eq!(content, "[\n{\"a\":1,\"b\":2},\n{\"c\":3,\"d\":4}\n]\n");
    assert_eq!(count, 2);
}

#[test]
fn regeneration_is_idempotent() {
    let input = rows(&["{\"x\":1}", "{\"x\":2}"]);
    let (first, n1) = render_snapshot(&input);
    let (second, n2) = render_snapshot(&input);
    assert_eq!(first, second);
    assert_eq!(n1, n2);
}

#[test]
fn streaming_writer_matches_bulk_render() {
    let input = rows(&["{\"x\":1}", "{\"x\":2}", "{\"x\":3}"]);
    let mut w = SnapshotWriter::new();
    for r in &input {
        w.push_row(r.as_str());
    }
    assert_eq!(w.row_count(), 3);
    let (streamed, count) = w.finish();
    let (bulk, _) = render_snapshot(&input);
    assert_eq!(streamed, bulk);
    assert_eq!(count, 3);
}

#[test]
fn empty_row_text_is_kept_verbatim() {
    let (content, count) = render_snapshot(&rows(&[""]));
    assert_eq!(content, "[\n\n]\n");
    assert_eq!(count, 1);
}
