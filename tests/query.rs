use gorse_rs::query::{CursorQuery, OffsetQuery, RecommendOptions, UserIdQuery, WriteBackQuery};

#[test]
fn empty_queries_render_nothing() {
    assert_eq!(CursorQuery::new().to_query_string(), "");
    assert_eq!(OffsetQuery::new().to_query_string(), "");
    assert_eq!(UserIdQuery::new().to_query_string(), "");
    assert_eq!(WriteBackQuery::new().to_query_string(), "");
}

#[test]
fn count_of_five_renders_alone() {
    assert_eq!(CursorQuery::new().number(5).to_query_string(), "n=5");
    assert_eq!(OffsetQuery::new().number(5).to_query_string(), "n=5");
    assert_eq!(UserIdQuery::new().number(5).to_query_string(), "n=5");
    assert_eq!(WriteBackQuery::new().number(5).to_query_string(), "n=5");
}

#[test]
fn absent_count_is_not_zero() {
    let q = OffsetQuery::new().offset(0);
    assert_eq!(q.number, None);
    assert_eq!(q.to_query_string(), "offset=0");
}

#[test]
fn fields_render_in_declared_order() {
    let q = WriteBackQuery::new()
        .offset(2)
        .number(3)
        .write_back_delay("10m")
        .write_back_type("read");
    assert_eq!(q.to_query_string(), "write-back-type=read&write-back-delay=10m&n=3&offset=2");
    let q = UserIdQuery::new().offset(7).user_id("42").number(10);
    assert_eq!(q.to_query_string(), "user-id=42&n=10&offset=7");
    let q = CursorQuery::new().cursor("abc").number(1);
    assert_eq!(q.to_query_string(), "n=1&cursor=abc");
    let q = OffsetQuery::new().offset(4).number(8);
    assert_eq!(q.to_query_string(), "n=8&offset=4");
}

#[test]
fn string_values_are_form_encoded() {
    let q = CursorQuery::new().cursor("a b&c=d/é");
    assert_eq!(q.to_query_string(), "cursor=a+b%26c%3Dd%2F%C3%A9");
    let q = UserIdQuery::new().user_id("x?y");
    assert_eq!(q.to_query_string(), "user-id=x%3Fy");
}

#[test]
fn integers_render_in_decimal() {
    assert_eq!(OffsetQuery::new().number(-5).to_query_string(), "n=-5");
    assert_eq!(OffsetQuery::new().number(0).to_query_string(), "n=0");
    assert_eq!(OffsetQuery::new().number(i32::MAX).to_query_string(), "n=2147483647");
    assert_eq!(OffsetQuery::new().number(i32::MIN).to_query_string(), "n=-2147483648");
    assert_eq!(OffsetQuery::new().offset(1060).to_query_string(), "offset=1060");
}

#[test]
fn builders_keep_other_fields() {
    let q = CursorQuery::new().number(3).cursor("c");
    assert_eq!(q.number, Some(3));
    assert_eq!(q.cursor, Some("c".to_string()));
    let q = WriteBackQuery::new().write_back_type("read").number(2);
    assert_eq!(q.write_back_type, Some("read".to_string()));
    assert_eq!(q.write_back_delay, None);
    assert_eq!(q.number, Some(2));
    assert_eq!(q.offset, None);
}

#[test]
fn recommend_options_render_count_above_zero() {
    assert_eq!(RecommendOptions::default().to_query_string(), "");
    assert_eq!(RecommendOptions { n: 0 }.to_query_string(), "");
    assert_eq!(RecommendOptions { n: 3 }.to_query_string(), "n=3");
    assert_eq!(RecommendOptions { n: 120 }.to_query_string(), "n=120");
}
