use snowflake_api::query::{classify_statement, StatementKind};

#[test]
fn put_after_block_comments_is_put() {
    assert_eq!(classify_statement("/* c */ /*c2*/ put @stage"), StatementKind::Put);
}

#[test]
fn putative_select_is_a_query() {
    assert_eq!(classify_statement("PUTATIVE SELECT"), StatementKind::Query);
}

#[test]
fn put_in_any_case_with_tab() {
    assert_eq!(classify_statement("Put\tfile:///tmp/a.csv @s"), StatementKind::Put);
}

#[test]
fn get_is_download() {
    assert_eq!(classify_statement("get @stage file:///tmp/"), StatementKind::Get);
}

#[test]
fn leading_space_is_not_put() {
    assert_eq!(classify_statement(" put file:///a @s"), StatementKind::Query);
}

#[test]
fn put_without_whitespace_after_is_query() {
    assert_eq!(classify_statement("put"), StatementKind::Query);
}

#[test]
fn comment_spanning_inner_close_is_put() {
    assert_eq!(classify_statement("/* a */x */ put y"), StatementKind::Put);
}

#[test]
fn comment_across_lines_is_not_put() {
    assert_eq!(classify_statement("/* a\n */ put y"), StatementKind::Query);
}

#[test]
fn comments_on_separate_lines_then_put() {
    assert_eq!(classify_statement("/* a */\n/* b */\nPUT x"), StatementKind::Put);
}

#[test]
fn select_is_query() {
    assert_eq!(classify_statement("select 1"), StatementKind::Query);
}
