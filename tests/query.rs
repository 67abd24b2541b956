use apicalypse::condition::{Condition, ConditionKind, Where};
use apicalypse::search::Search;
use apicalypse::sort::Order;
use apicalypse::value::{Decimal, Value, ValueSlice};
use apicalypse::Apicalypse;

#[test]
fn empty_query_selects_all_fields() {
    assert_eq!(Apicalypse::new().to_string(), "fields *;");
}

#[test]
fn fields_accumulate_in_call_order() {
    let q = Apicalypse::new().fields(&["name", "id"]).fields(&["rating"]);
    assert_eq!(q.to_string(), "fields name,id,rating;");
}

#[test]
fn fields_with_no_names_stay_star() {
    let q = Apicalypse::new().fields(&[]).fields(&[]);
    assert_eq!(q.to_string(), "fields *;");
}

#[test]
fn duplicate_fields_are_kept() {
    let q = Apicalypse::new().fields(&["id"]).fields(&["id"]);
    assert_eq!(q.to_string(), "fields id,id;");
}

#[test]
fn exclude_without_names_emits_nothing() {
    let q = Apicalypse::new().exclude(&[]).exclude(&[]);
    assert_eq!(q.to_string(), "fields *;");
}

#[test]
fn exclude_accumulates() {
    let q = Apicalypse::new().exclude(&["summary"]).exclude(&["url", "slug"]);
    assert_eq!(q.to_string(), "fields *;exclude summary,url,slug;");
}

#[test]
fn chain_of_three_keeps_order_and_glyphs() {
    let mut c = Condition::new("a", ConditionKind::Eq(Value::Int(1)));
    assert_eq!(c.to_string(), "a=1");
    c.and(Condition::new("b", ConditionKind::Ne(Value::Int(2))))
        .or(Condition::new("c", ConditionKind::Lt(Value::Int(3))));
    assert_eq!(c.to_string(), "a=1&b!=2|c<3");
    c.and(Condition::new("d", ConditionKind::Gte(Value::Bool(true))));
    assert_eq!(c.to_string(), "a=1&b!=2|c<3&d>=true");
}

#[test]
fn appending_a_chain_keeps_its_links() {
    let mut a = Condition::new("a", ConditionKind::Lte(Value::Int(1)));
    let mut b = Condition::new("b", ConditionKind::Gt(Value::Int(2)));
    b.or(Condition::new("c", ConditionKind::Eq(Value::Str("x"))));
    a.and(b);
    assert_eq!(a.to_string(), "a<=1&b>2|c=\"x\"");
}

#[test]
fn builder_and_or_extend_one_where_clause() {
    let q = Apicalypse::new()
        .and(Condition::new("a", ConditionKind::Eq(Value::Int(1))))
        .or(Condition::new("b", ConditionKind::Eq(Value::Int(2))))
        .and(Condition::new("c", ConditionKind::Eq(Value::Int(3))));
    assert_eq!(q.to_string(), "fields *;where a=1|b=2&c=3;");
}

#[test]
fn builder_or_first_creates_root() {
    let q = Apicalypse::new().or(Condition::new("a", ConditionKind::Eq(Value::Int(1))));
    assert_eq!(q.to_string(), "fields *;where a=1;");
}

#[test]
fn limit_then_none_clears() {
    let q = Apicalypse::new().limit(Some(5)).limit(None);
    assert_eq!(q.to_string(), "fields *;");
}

#[test]
fn limit_and_offset_pass_through_verbatim() {
    let q = Apicalypse::new().limit(Some(-3)).offset(Some(0));
    assert_eq!(q.to_string(), "fields *;limit -3;offset 0;");
    let q = q.offset(Some(20)).limit(Some(i32::MIN));
    assert_eq!(q.to_string(), "fields *;limit -2147483648;offset 20;");
}

#[test]
fn second_sort_replaces_first() {
    let q = Apicalypse::new()
        .sort("name", Order::Ascending)
        .sort("rating", Order::Descending);
    assert_eq!(q.to_string(), "fields *;sort rating desc;");
}

#[test]
fn second_search_replaces_first() {
    let q = Apicalypse::new()
        .search("name", Value::from("mario"))
        .search("name", Value::from("zelda"));
    assert_eq!(q.to_string(), "fields *;search name \"zelda\";");
}

#[test]
fn end_to_end_example() {
    let q = Apicalypse::new()
        .fields(&["name", "id"])
        .exclude(&["summary"])
        .and(Condition::new(
            "rating",
            ConditionKind::Gt(Value::Float(Decimal::new(80, 0))),
        ))
        .limit(Some(10))
        .sort("rating", Order::Descending);
    assert_eq!(
        q.to_string(),
        "fields name,id;exclude summary;where rating>80;limit 10;sort rating desc;"
    );
}

#[test]
fn set_condition_with_or() {
    let genres = [Value::Int(1), Value::Int(2), Value::Int(3)];
    let mut c = Condition::new("genre", ConditionKind::OneOf(ValueSlice::from(&genres[..])));
    c.or(Condition::new("platform", ConditionKind::Eq(Value::Int(48))));
    assert_eq!(c.to_string(), "genre=(1,2,3)|platform=48");
}

#[test]
fn all_clauses_in_fixed_order() {
    let q = Apicalypse::new()
        .search("name", Value::from("halo"))
        .sort("id", Order::Ascending)
        .offset(Some(2))
        .limit(Some(1))
        .and(Condition::new("x", ConditionKind::Eq(Value::Bool(false))))
        .exclude(&["e"])
        .fields(&["f"]);
    assert_eq!(
        q.to_string(),
        "fields f;exclude e;where x=false;limit 1;offset 2;sort id asc;search name \"halo\";"
    );
}

#[test]
fn to_string_twice_is_identical() {
    let q = Apicalypse::new()
        .fields(&["name"])
        .or(Condition::new("a", ConditionKind::Eq(Value::Int(1))));
    let first = q.to_string();
    let second = q.to_string();
    assert_eq!(first, second);
    assert_eq!(first, "fields name;where a=1;");
}

#[test]
fn set_operator_glyphs() {
    let vs = [Value::Int(7), Value::Str("b")];
    let s = ValueSlice::from(&vs[..]);
    assert_eq!(Condition::new("f", ConditionKind::AllOf(s)).to_string(), "f=[7,\"b\"]");
    assert_eq!(Condition::new("f", ConditionKind::NoneOf(s)).to_string(), "f=![7,\"b\"]");
    assert_eq!(Condition::new("f", ConditionKind::OneOf(s)).to_string(), "f=(7,\"b\")");
    assert_eq!(Condition::new("f", ConditionKind::Only(s)).to_string(), "f={7,\"b\"}");
}

#[test]
fn empty_value_list_renders_empty_group() {
    let vs: [Value; 0] = [];
    let c = Condition::new("f", ConditionKind::OneOf(ValueSlice::from(&vs[..])));
    assert_eq!(c.to_string(), "f=()");
}

#[test]
fn value_literals() {
    assert_eq!(Value::Str("a\"b").to_string(), "\"a\"b\"");
    assert_eq!(Value::Int(-42).to_string(), "-42");
    assert_eq!(Value::Int(0).to_string(), "0");
    assert_eq!(Value::Bool(true).to_string(), "true");
    assert_eq!(Value::from(false).to_string(), "false");
    assert_eq!(Value::from(9).to_string(), "9");
}

#[test]
fn decimal_literals() {
    assert_eq!(Value::Float(Decimal::new(805, 1)).to_string(), "80.5");
    assert_eq!(Value::Float(Decimal::new(800, 1)).to_string(), "80");
    assert_eq!(Value::Float(Decimal::new(-5, 1)).to_string(), "-0.5");
    assert_eq!(Value::Float(Decimal::new(5, 3)).to_string(), "0.005");
    assert_eq!(Value::Float(Decimal::new(1050, 2)).to_string(), "10.5");
    assert_eq!(Value::Float(Decimal::new(0, 4)).to_string(), "0");
    assert_eq!(Value::Float(Decimal::new(i64::MIN, 0)).to_string(), "-9223372036854775808");
    assert_eq!(Value::from(Decimal::new(12345, 2)).to_string(), "123.45");
}

#[test]
fn where_and_search_clauses() {
    let mut w = Where::from(Condition::new("a", ConditionKind::Eq(Value::Int(1))));
    w.and(Condition::new("b", ConditionKind::Eq(Value::Int(2))));
    assert_eq!(w.to_string(), "where a=1&b=2;");
    let s = Search::new("name", Value::Int(3));
    assert_eq!(s.to_string(), "search name 3;");
    assert_eq!(Order::Ascending.to_string(), "asc");
}

#[test]
fn default_query_and_clones() {
    assert_eq!(Apicalypse::default().to_string(), "fields *;");
    let mut c = Condition::new("a", ConditionKind::Eq(Value::Int(1)));
    c.or(Condition::new("b", ConditionKind::Eq(Value::Int(2))));
    let copy = c.clone();
    c.and(Condition::new("z", ConditionKind::Eq(Value::Int(9))));
    assert_eq!(copy.to_string(), "a=1|b=2");
    assert_eq!(c.to_string(), "a=1|b=2&z=9");
}
