use twm_core::scan::line_col;

#[test]
fn line_col_works() {
    let content = b"ab\ncde\nf";
    assert_eq!(line_col(content, 0), (1, 1));
    assert_eq!(line_col(content, 3), (2, 1));
    assert_eq!(line_col(content, 5), (2, 3));
}

#[test]
fn line_col_past_end_counts_as_end() {
    let content = b"ab\ncde\nf";
    assert_eq!(line_col(content, 100), (3, 2));
    assert_eq!(line_col(b"", 4), (1, 1));
}
