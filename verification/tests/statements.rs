use batis4sqlx::chain::{DeleteWrapper, GroupHaving, QueryWrapper, UpdateWrapper};
use batis4sqlx::repository::{delete_in_sql, insert_sql, update_by_key_sql};
use batis4sqlx::value::{SqlDate, SqlDateTime, SqlDecimal, SqlTime, SqlValue};
use batis4sqlx::wrapper::Wrapper;
use batis4sqlx::{Entity, LambdaField};

fn i(v: i32) -> SqlValue {
    SqlValue::I32(v)
}

struct User;

impl Entity for User {
    fn table_name() -> &'static str {
        "user"
    }

    fn primary_key<'b>() -> LambdaField<'b> {
        LambdaField::new("id")
    }
}

#[test]
fn plain_query_selects_everything() {
    let q = QueryWrapper::new(User::table_name());
    assert_eq!(q.sql(), "SELECT * FROM user");
}

#[test]
fn query_with_predicates_and_fields() {
    let q = QueryWrapper::new("user")
        .select_one("id")
        .select_one("name")
        .with_wrapper(Wrapper::new().eq_field("status", i(1)).or().eq_field("status", i(2)));
    assert_eq!(q.sql(), "SELECT id, name FROM user WHERE status = ? OR status = ?");
    assert_eq!(q.bind_values(), vec![i(1), i(2)]);
}

#[test]
fn select_field_appends_many() {
    let q = QueryWrapper::new("t").select_field(vec!["a".to_string(), "b".to_string()]);
    assert_eq!(q.sql(), "SELECT a, b FROM t");
}

#[test]
fn order_renders_after_where() {
    let q = QueryWrapper::new("t")
        .with_wrapper(Wrapper::new().eq_field("a", i(1)))
        .order_asc_field("x")
        .order_desc_field("y");
    assert_eq!(q.sql(), "SELECT * FROM t WHERE a = ? ORDER BY x ASC, y DESC");
}

#[test]
fn first_last_comment_decorate_query() {
    let q = QueryWrapper::new("t")
        .first("EXPLAIN")
        .last("LIMIT 10")
        .comment("audit");
    assert_eq!(q.sql(), "EXPLAIN SELECT * FROM t LIMIT 10 -- audit");
}

#[test]
fn grouping_is_recorded_but_not_rendered() {
    let q = QueryWrapper::new("t")
        .group_by_field("a")
        .group_by_field_flag("b", true)
        .group_by_field_flag("c", false)
        .having("SUM(x) > ?")
        .having_values("SUM(x) > ?", vec![i(10)]);
    assert_eq!(q.sql(), "SELECT * FROM t");
    assert_eq!(q.group_having.fields, vec!["a".to_string(), "b".to_string()]);
    assert_eq!(q.group_having.values, vec![i(10)]);
}

#[test]
fn having_guard_shapes() {
    let q = QueryWrapper::new("t")
        .having_flag("H1", false)
        .having_values_flag("H2", vec![i(1)], false)
        .having_values_opt("H3", None::<Vec<SqlValue>>)
        .having_values_opt_flag("H4", Some(vec![i(2)]), false);
    assert_eq!(q.group_having.having, None);
    assert_eq!(q.group_having.values, vec![]);
    let q = q.having_values_opt_flag("H5", Some(vec![i(3)]), true);
    assert_eq!(q.group_having.having, Some("H5".to_string()));
    assert_eq!(q.group_having.values, vec![i(3)]);
}

#[test]
fn count_drops_order_by() {
    let mut q = QueryWrapper::new("t").order_asc_field("x");
    let sql = q.count_sql();
    assert_eq!(sql, "SELECT COUNT(*) FROM t");
    assert!(!sql.contains("ORDER BY"));
}

#[test]
fn aggregates_render_their_field() {
    let mut q = QueryWrapper::new("t");
    assert_eq!(q.exists_sql(), "SELECT 1 FROM t");
    let mut q = QueryWrapper::new("t").with_wrapper(Wrapper::new().gt_field("a", i(5)));
    assert_eq!(q.sum_sql("amount"), "SELECT SUM(amount) FROM t WHERE a > ?");
    let mut q = QueryWrapper::new("t");
    assert_eq!(q.max_sql("a"), "SELECT MAX(a) FROM t");
    let mut q = QueryWrapper::new("t");
    assert_eq!(q.min_sql("a"), "SELECT MIN(a) FROM t");
}

#[test]
fn query_renders_identically_twice() {
    let q = QueryWrapper::new("t")
        .with_wrapper(Wrapper::new().eq_field("a", i(1)).or_fn(|w| w.eq_field("b", i(2))))
        .last("LIMIT 1");
    assert_eq!(q.sql(), q.sql());
}

#[test]
fn update_renders_set_list_in_call_order() {
    let u = UpdateWrapper::new("user")
        .set_field("name", SqlValue::Str("ann".to_string()))
        .set_field("age", i(7))
        .with_wrapper(Wrapper::new().eq_field("id", i(3)));
    assert_eq!(u.sql(), "UPDATE user SET name = ?, age = ? WHERE id = ?");
    assert_eq!(
        u.bind_values(),
        vec![SqlValue::Str("ann".to_string()), i(7), i(3)]
    );
}

#[test]
fn update_keeps_duplicate_assignments() {
    let u = UpdateWrapper::new("t").set_field("a", i(1)).set_field("a", i(2));
    assert_eq!(u.sql(), "UPDATE t SET a = ?, a = ?");
    assert_eq!(u.bind_values(), vec![i(1), i(2)]);
}

#[test]
fn update_guard_shapes() {
    let u = UpdateWrapper::new("t")
        .set_field_flag("a", i(1), false)
        .set_field_opt("b", None)
        .set_field_opt_flag("c", Some(i(3)), false)
        .set_field_opt_flag("d", Some(i(4)), true);
    assert_eq!(u.sql(), "UPDATE t SET d = ?");
    assert_eq!(u.bind_values(), vec![i(4)]);
}

#[test]
fn update_decorations() {
    let u = UpdateWrapper::new("t")
        .set_field("a", i(1))
        .first("EXPLAIN")
        .last("LIMIT 1")
        .comment("note");
    assert_eq!(u.sql(), "EXPLAIN UPDATE t SET a = ? LIMIT 1 -- note");
}

#[test]
fn delete_renders_where() {
    let d = DeleteWrapper::new("user").with_wrapper(Wrapper::new().eq_field("id", i(9)));
    assert_eq!(d.sql(), "DELETE FROM user WHERE id = ?");
    assert_eq!(d.bind_values(), vec![i(9)]);
}

#[test]
fn delete_decorations() {
    let d = DeleteWrapper::new("t").first("EXPLAIN").last("LIMIT 1").comment("c");
    assert_eq!(d.sql(), "EXPLAIN DELETE FROM t LIMIT 1 -- c");
}

#[test]
fn insert_text_has_one_placeholder_per_column() {
    let keys = vec!["a".to_string(), "b".to_string(), "c".to_string()];
    assert_eq!(insert_sql("t", &keys), "INSERT INTO t (a,b,c) VALUES (?,?,?)");
    assert_eq!(insert_sql("t", &vec![]), "INSERT INTO t () VALUES ()");
}

#[test]
fn update_by_key_text_coalesces_each_column() {
    let keys = vec!["a".to_string(), "b".to_string()];
    assert_eq!(
        update_by_key_sql("t", "id", &keys),
        "UPDATE t SET `a` = COALESCE(?, `a`), `b` = COALESCE(?, `b`) WHERE `id` = ? LIMIT 1"
    );
}

#[test]
fn delete_in_text_has_one_placeholder_per_key() {
    assert_eq!(delete_in_sql("t", "id", 3), "DELETE FROM t WHERE `id` IN (?, ?, ?)");
    assert_eq!(delete_in_sql("t", "id", 0), "DELETE FROM t WHERE `id` IN ()");
}

#[test]
fn lambda_field_carries_its_name() {
    let f = LambdaField::new("age");
    assert_eq!(f.as_str(), "age");
    assert_eq!(User::primary_key().as_str(), "id");
    assert_eq!(User::primary_key().0, "id");
}

#[test]
fn statement_placeholders_match_bound_values() {
    let q = QueryWrapper::new("t")
        .select_one("a")
        .order_asc_field("b")
        .last("LIMIT 3")
        .with_wrapper(
            Wrapper::new().eq_field("x", i(1)).or_fn(|w| w.in_vec_field("y", vec![i(2), i(3)])),
        );
    let marks = q.sql().chars().filter(|&c| c == '?').count();
    assert_eq!(marks, q.bind_values().len());

    let u = UpdateWrapper::new("t")
        .set_field("a", i(1))
        .set_field("b", i(2))
        .with_wrapper(Wrapper::new().between_field("x", i(3), i(4)));
    let marks = u.sql().chars().filter(|&c| c == '?').count();
    assert_eq!(marks, u.bind_values().len());

    let d = DeleteWrapper::new("t").with_wrapper(Wrapper::new().not_in_vec_field("x", vec![i(1)]));
    let marks = d.sql().chars().filter(|&c| c == '?').count();
    assert_eq!(marks, d.bind_values().len());
}

#[test]
fn group_having_records_fields_and_values() {
    let mut g = GroupHaving::new();
    g.field_push("a");
    g.field_push("b");
    g.having("COUNT(*) > ?");
    g.value_push(i(2));
    assert_eq!(g.fields, vec!["a".to_string(), "b".to_string()]);
    assert_eq!(g.having, Some("COUNT(*) > ?".to_string()));
    assert_eq!(g.values, vec![i(2)]);
}

#[test]
fn host_values_convert_into_their_own_kind() {
    assert_eq!(SqlValue::from(3i32), SqlValue::I32(3));
    assert_eq!(SqlValue::from(4u64), SqlValue::U64(4));
    assert_eq!(SqlValue::from(true), SqlValue::Bool(true));
    assert_eq!(SqlValue::from("x".to_string()), SqlValue::Str("x".to_string()));
    let d = SqlDate { year: 2020, month: 1, day: 2 };
    assert_eq!(SqlValue::from(d), SqlValue::Date(d));
}

#[test]
fn temporal_and_decimal_values_bind_in_order() {
    let date = SqlDate { year: 2024, month: 2, day: 29 };
    let time = SqlTime { hour: 23, minute: 59, second: 58, nanosecond: 0 };
    let dt = SqlDateTime { date, time };
    let dec = SqlDecimal { negative: true, mantissa: 314159, scale: 5 };
    let w = Wrapper::new()
        .eq_field("d", SqlValue::Date(date))
        .eq_field("t", SqlValue::Time(time))
        .eq_field("dt", SqlValue::DateTime(dt))
        .eq_field("m", SqlValue::Decimal(dec))
        .eq_field("f", SqlValue::F64(2.5f64.to_bits()));
    assert_eq!(
        w.where_clause(),
        " WHERE d = ? AND t = ? AND dt = ? AND m = ? AND f = ?"
    );
    let values = w.bind_values();
    assert_eq!(values.len(), 5);
    assert_eq!(values[0], SqlValue::Date(date));
    assert_eq!(values[3], SqlValue::Decimal(dec));
    match values[4] {
        SqlValue::F64(bits) => assert_eq!(f64::from_bits(bits), 2.5),
        _ => panic!("expected a float bit pattern"),
    }
}
