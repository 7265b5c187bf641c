//! The statement assemblers: query, update and delete.
//!
//! Each assembler owns one predicate engine plus its own decoration — field
//! lists, ordering, set lists, raw prefix/suffix fragments and a trailing
//! comment — and renders the finished statement text. Statement assembly is
//! pure text composition: it never fails.

use vstd::prelude::*;
use vstd::string::StringExecFns;

use crate::value::{SqlValue, SqlValueV};
use crate::wrapper::{Wrapper, WrapperV, WhereV, flat_values, where_clause_spec};

verus! {

/// One ordering term: a field and its direction, ascending when `asc_desc`
/// is set.
pub struct Order {
    pub field: String,
    pub asc_desc: bool,
}

/// The mathematical value of an [`Order`].
#[verifier::ext_equal]
pub ghost struct OrderV {
    pub field: Seq<char>,
    pub asc_desc: bool,
}

impl View for Order {
    type V = OrderV;

    open spec fn view(&self) -> OrderV {
        OrderV { field: self.field@, asc_desc: self.asc_desc }
    }
}

impl DeepView for Order {
    type V = OrderV;

    open spec fn deep_view(&self) -> OrderV {
        self.view()
    }
}

impl Order {
    pub fn new(field: &str, asc_desc: bool) -> (r: Self)
        ensures
            r@ == (OrderV { field: field@, asc_desc }),
    {
        Order { field: field.to_owned(), asc_desc }
    }
}

/// Grouping and filtering decoration recorded on a query: group-by fields,
/// an optional raw `HAVING` fragment and the values it binds.
pub struct GroupHaving {
    pub fields: Vec<String>,
    pub having: Option<String>,
    pub values: Vec<SqlValue>,
}

/// The mathematical value of a [`GroupHaving`].
#[verifier::ext_equal]
pub ghost struct GroupHavingV {
    pub fields: Seq<Seq<char>>,
    pub having: Option<Seq<char>>,
    pub values: Seq<SqlValueV>,
}

impl View for GroupHaving {
    type V = GroupHavingV;

    open spec fn view(&self) -> GroupHavingV {
        GroupHavingV {
            fields: self.fields.deep_view(),
            having: self.having.deep_view(),
            values: self.values.deep_view(),
        }
    }
}

impl GroupHaving {
    pub fn new() -> (r: Self)
        ensures
            r@ == (GroupHavingV {
                fields: Seq::<Seq<char>>::empty(),
                having: Option::<Seq<char>>::None,
                values: Seq::<SqlValueV>::empty(),
            }),
    {
        GroupHaving { fields: Vec::new(), having: None, values: Vec::new() }
    }

    /// Records one more group-by field.
    pub fn field_push(&mut self, field: &str)
        ensures
            final(self)@ == (GroupHavingV { fields: old(self)@.fields.push(field@), ..old(self)@ }),
    {
        self.fields.push(field.to_owned());
        proof {
            assert(self.fields.deep_view() =~= old(self).fields.deep_view().push(field@));
        }
    }

    /// Records the raw `HAVING` fragment, replacing any earlier one.
    pub fn having(&mut self, having: &str)
        ensures
            final(self)@ == (GroupHavingV {
                having: Option::Some(having@),
                ..old(self)@
            }),
    {
        self.having = Some(having.to_owned());
    }

    /// Records one more value bound by the `HAVING` fragment.
    pub fn value_push(&mut self, value: SqlValue)
        ensures
            final(self)@ == (GroupHavingV { values: old(self)@.values.push(value@), ..old(self)@ }),
    {
        let ghost v0 = value@;
        self.values.push(value);
        proof {
            assert(self.values.deep_view() =~= old(self).values.deep_view().push(v0));
        }
    }
}

/// The items joined with `sep` between each two: empty for no items.
pub open spec fn join_seqs(items: Seq<Seq<char>>, sep: Seq<char>) -> Seq<char>
    decreases items.len(),
{
    if items.len() == 0 {
        Seq::empty()
    } else if items.len() == 1 {
        items[0]
    } else {
        join_seqs(items.drop_last(), sep) + sep + items.last()
    }
}

/// Joins the items with `sep` between each two.
fn join_strings(items: &Vec<String>, sep: &str) -> (r: String)
    ensures
        r@ == join_seqs(items.deep_view(), sep@),
{
    let mut out = String::new();
    let mut i: usize = 0;
    while i < items.len()
        invariant
            i <= items@.len(),
            out@ == join_seqs(items.deep_view().take(i as int), sep@),
        decreases items@.len() - i,
    {
        if i > 0 {
            out.append(sep);
        }
        out.append(items[i].as_str());
        proof {
            let dv = items.deep_view();
            assert(dv.take(i + 1).drop_last() =~= dv.take(i as int));
            assert(dv.take(i + 1).last() == dv[i as int]);
            if i == 0 {
                assert(out@ =~= join_seqs(dv.take(1), sep@));
            } else {
                assert(out@ =~= join_seqs(dv.take(i + 1), sep@));
            }
        }
        i += 1;
    }
    proof {
        assert(items.deep_view().take(items@.len() as int) =~= items.deep_view());
    }
    out
}

/// The text of one ordering term: the field, then its direction.
pub open spec fn order_item(o: OrderV) -> Seq<char> {
    o.field + if o.asc_desc {
        " ASC"@
    } else {
        " DESC"@
    }
}

/// The `ORDER BY` clause: empty when no ordering term was recorded.
pub open spec fn order_text(os: Seq<OrderV>) -> Seq<char> {
    if os.len() == 0 {
        Seq::empty()
    } else {
        " ORDER BY "@ + join_seqs(os.map_values(|o: OrderV| order_item(o)), ", "@)
    }
}

/// The rendered field list: `*` when none was selected.
pub open spec fn fields_text(fs: Seq<Seq<char>>) -> Seq<char> {
    if fs.len() == 0 {
        "*"@
    } else {
        join_seqs(fs, ", "@)
    }
}

/// The raw prefix fragment and its separating space, when recorded.
pub open spec fn opt_first(first: Option<Seq<char>>) -> Seq<char> {
    match first {
        Option::Some(f) => f + " "@,
        Option::None => Seq::empty(),
    }
}

/// The raw suffix fragment and its separating space, when recorded.
pub open spec fn opt_last(last: Option<Seq<char>>) -> Seq<char> {
    match last {
        Option::Some(l) => " "@ + l,
        Option::None => Seq::empty(),
    }
}

/// The trailing line comment, when recorded.
pub open spec fn opt_comment(comment: Option<Seq<char>>) -> Seq<char> {
    match comment {
        Option::Some(c) => " -- "@ + c,
        Option::None => Seq::empty(),
    }
}

/// Renders the ordering terms as texts, one per term.
fn order_items(os: &Vec<Order>) -> (r: Vec<String>)
    ensures
        r.deep_view() == os.deep_view().map_values(|o: OrderV| order_item(o)),
{
    let mut out: Vec<String> = Vec::new();
    let mut i: usize = 0;
    while i < os.len()
        invariant
            i <= os@.len(),
            out.deep_view().len() == i,
            forall|j: int|
                0 <= j < i ==> out.deep_view()[j] == order_item(os.deep_view()[j]),
        decreases os@.len() - i,
    {
        let o = &os[i];
        let mut t = String::from_str(o.field.as_str());
        if o.asc_desc {
            t.append(" ASC");
        } else {
            t.append(" DESC");
        }
        let ghost prev = out@;
        let ghost prev_dv = out.deep_view();
        out.push(t);
        proof {
            assert forall|j: int| 0 <= j < i + 1 implies out.deep_view()[j] == order_item(
                os.deep_view()[j],
            ) by {
                if j < i {
                    assert(out@[j] == prev[j]);
                    assert(prev_dv[j] == prev[j].deep_view());
                }
            }
        }
        i += 1;
    }
    proof {
        assert(out.deep_view() =~= os.deep_view().map_values(|o: OrderV| order_item(o)));
    }
    out
}

/// The full text a query renders:
/// `[FIRST ]SELECT <fields|*> FROM <table><WHERE><ORDER BY>[ LAST][ -- COMMENT]`.
pub open spec fn query_sql_spec(q: QueryWrapperV) -> Seq<char> {
    opt_first(q.first) + "SELECT "@ + fields_text(q.field) + " FROM "@ + q.table
        + where_clause_spec(q.wrapper) + order_text(q.order) + opt_last(q.last) + opt_comment(
        q.comment,
    )
}

/// The query assembler: selected fields, the predicate engine, grouping and
/// ordering decoration, and the raw fragments.
///
/// Group-by fields and the `HAVING` fragment are recorded but take no part
/// in the rendered text.
pub struct QueryWrapper {
    pub table: String,
    pub field: Vec<String>,
    pub wrapper: Wrapper,
    pub group_having: GroupHaving,
    pub order: Vec<Order>,
    pub first: Option<String>,
    pub last: Option<String>,
    pub comment: Option<String>,
}

/// The mathematical value of a [`QueryWrapper`].
#[verifier::ext_equal]
pub ghost struct QueryWrapperV {
    pub table: Seq<char>,
    pub field: Seq<Seq<char>>,
    pub wrapper: WrapperV,
    pub group_having: GroupHavingV,
    pub order: Seq<OrderV>,
    pub first: Option<Seq<char>>,
    pub last: Option<Seq<char>>,
    pub comment: Option<Seq<char>>,
}

impl View for QueryWrapper {
    type V = QueryWrapperV;

    open spec fn view(&self) -> QueryWrapperV {
        QueryWrapperV {
            table: self.table@,
            field: self.field.deep_view(),
            wrapper: self.wrapper@,
            group_having: self.group_having@,
            order: self.order.deep_view(),
            first: self.first.deep_view(),
            last: self.last.deep_view(),
            comment: self.comment.deep_view(),
        }
    }
}

impl QueryWrapper {
    /// A fresh query over the given table: all fields, no predicates, no
    /// decoration.
    pub fn new(table: &str) -> (r: Self)
        ensures
            r@.table == table@,
            r@.field == Seq::<Seq<char>>::empty(),
            r@.wrapper == (WrapperV {
                wheres: Seq::<WhereV>::empty(),
                or_index: Seq::<bool>::empty(),
                pending_or: false,
                left: Seq::<usize>::empty(),
                right: Seq::<usize>::empty(),
            }),
            r@.group_having == (GroupHavingV {
                fields: Seq::<Seq<char>>::empty(),
                having: Option::<Seq<char>>::None,
                values: Seq::<SqlValueV>::empty(),
            }),
            r@.order == Seq::<OrderV>::empty(),
            r@.first == Option::<Seq<char>>::None,
            r@.last == Option::<Seq<char>>::None,
            r@.comment == Option::<Seq<char>>::None,
            r.wrapper.wf(),
    {
        QueryWrapper {
            table: table.to_owned(),
            field: Vec::new(),
            wrapper: Wrapper::new(),
            group_having: GroupHaving::new(),
            order: Vec::new(),
            first: None,
            last: None,
            comment: None,
        }
    }

    /// Replaces the predicate engine with one built elsewhere.
    pub fn with_wrapper(self, wrapper: Wrapper) -> (r: Self)
        ensures
            r@ == (QueryWrapperV { wrapper: wrapper@, ..self@ }),
    {
        QueryWrapper { wrapper, ..self }
    }

    /// Records one more selected field.
    pub fn select_one(self, field: &str) -> (r: Self)
        ensures
            r@ == (QueryWrapperV { field: self@.field.push(field@), ..self@ }),
    {
        let mut s = self;
        s.field.push(field.to_owned());
        proof {
            assert(s.field.deep_view() =~= self@.field.push(field@));
        }
        s
    }

    /// Records the given selected fields, in order.
    pub fn select_field(self, field: Vec<String>) -> (r: Self)
        ensures
            r@ == (QueryWrapperV { field: self@.field + field.deep_view(), ..self@ }),
    {
        let mut s = self;
        let mut more = field;
        s.field.append(&mut more);
        proof {
            assert(s.field.deep_view() =~= self@.field + field.deep_view());
        }
        s
    }

    /// Records one more ascending ordering term.
    pub fn order_asc_field(self, field: &str) -> (r: Self)
        ensures
            r@ == (QueryWrapperV {
                order: self@.order.push(OrderV { field: field@, asc_desc: true }),
                ..self@
            }),
    {
        let mut s = self;
        s.order.push(Order::new(field, true));
        proof {
            assert(s.order.deep_view() =~= self@.order.push(
                OrderV { field: field@, asc_desc: true },
            ));
        }
        s
    }

    /// Records one more descending ordering term.
    pub fn order_desc_field(self, field: &str) -> (r: Self)
        ensures
            r@ == (QueryWrapperV {
                order: self@.order.push(OrderV { field: field@, asc_desc: false }),
                ..self@
            }),
    {
        let mut s = self;
        s.order.push(Order::new(field, false));
        proof {
            assert(s.order.deep_view() =~= self@.order.push(
                OrderV { field: field@, asc_desc: false },
            ));
        }
        s
    }

    /// Records one more group-by field. Grouping is decoration only: it is
    /// not rendered.
    pub fn group_by_field(self, field: &str) -> (r: Self)
        ensures
            r@ == (QueryWrapperV {
                group_having: GroupHavingV {
                    fields: self@.group_having.fields.push(field@),
                    ..self@.group_having
                },
                ..self@
            }),
    {
        let mut s = self;
        s.group_having.field_push(field);
        s
    }

    /// [`QueryWrapper::group_by_field`], applied only when `flag` is set.
    pub fn group_by_field_flag(self, field: &str, flag: bool) -> (r: Self)
        ensures
            flag ==> r@ == (QueryWrapperV {
                group_having: GroupHavingV {
                    fields: self@.group_having.fields.push(field@),
                    ..self@.group_having
                },
                ..self@
            }),
            !flag ==> r == self,
    {
        if flag {
            self.group_by_field(field)
        } else {
            self
        }
    }

    /// Records the raw `HAVING` fragment. The fragment is decoration only:
    /// it is not rendered.
    pub fn having(self, having_sql: &str) -> (r: Self)
        ensures
            r@ == (QueryWrapperV {
                group_having: GroupHavingV {
                    having: Option::Some(having_sql@),
                    ..self@.group_having
                },
                ..self@
            }),
    {
        let mut s = self;
        s.group_having.having(having_sql);
        s
    }

    /// [`QueryWrapper::having`], applied only when `flag` is set.
    pub fn having_flag(self, having_sql: &str, flag: bool) -> (r: Self)
        ensures
            flag ==> r@ == (QueryWrapperV {
                group_having: GroupHavingV {
                    having: Option::Some(having_sql@),
                    ..self@.group_having
                },
                ..self@
            }),
            !flag ==> r == self,
    {
        if flag {
            self.having(having_sql)
        } else {
            self
        }
    }

    /// Records the raw `HAVING` fragment together with the values it binds.
    pub fn having_values(self, having_sql: &str, values: Vec<SqlValue>) -> (r: Self)
        ensures
            r@ == (QueryWrapperV {
                group_having: GroupHavingV {
                    having: Option::Some(having_sql@),
                    values: self@.group_having.values + values.deep_view(),
                    ..self@.group_having
                },
                ..self@
            }),
    {
        let mut s = self;
        s.group_having.having(having_sql);
        let mut more = values;
        s.group_having.values.append(&mut more);
        proof {
            assert(s.group_having.values.deep_view() =~= self@.group_having.values
                + values.deep_view());
        }
        s
    }

    /// [`QueryWrapper::having_values`], applied only when `flag` is set.
    pub fn having_values_flag(self, having_sql: &str, values: Vec<SqlValue>, flag: bool) -> (r:
        Self)
        ensures
            flag ==> r@ == (QueryWrapperV {
                group_having: GroupHavingV {
                    having: Option::Some(having_sql@),
                    values: self@.group_having.values + values.deep_view(),
                    ..self@.group_having
                },
                ..self@
            }),
            !flag ==> r == self,
    {
        if flag {
            self.having_values(having_sql, values)
        } else {
            self
        }
    }

    /// [`QueryWrapper::having_values`], applied only when the values are
    /// present.
    pub fn having_values_opt(self, having_sql: &str, values: Option<Vec<SqlValue>>) -> (r: Self)
        ensures
            values is Some ==> r@ == (QueryWrapperV {
                group_having: GroupHavingV {
                    having: Option::Some(having_sql@),
                    values: self@.group_having.values + values->Some_0.deep_view(),
                    ..self@.group_having
                },
                ..self@
            }),
            values is None ==> r == self,
    {
        match values {
            Some(vs) => self.having_values(having_sql, vs),
            None => self,
        }
    }

    /// [`QueryWrapper::having_values_opt`], applied only when `flag` is set.
    pub fn having_values_opt_flag(
        self,
        having_sql: &str,
        values: Option<Vec<SqlValue>>,
        flag: bool,
    ) -> (r: Self)
        ensures
            flag && values is Some ==> r@ == (QueryWrapperV {
                group_having: GroupHavingV {
                    having: Option::Some(having_sql@),
                    values: self@.group_having.values + values->Some_0.deep_view(),
                    ..self@.group_having
                },
                ..self@
            }),
            !(flag && values is Some) ==> r == self,
    {
        if flag {
            self.having_values_opt(having_sql, values)
        } else {
            self
        }
    }

    /// Records the raw fragment prepended before the statement.
    pub fn first(self, sql: &str) -> (r: Self)
        ensures
            r@ == (QueryWrapperV { first: Option::Some(sql@), ..self@ }),
    {
        QueryWrapper { first: Some(sql.to_owned()), ..self }
    }

    /// Records the raw fragment appended after the statement.
    pub fn last(self, sql: &str) -> (r: Self)
        ensures
            r@ == (QueryWrapperV { last: Option::Some(sql@), ..self@ }),
    {
        QueryWrapper { last: Some(sql.to_owned()), ..self }
    }

    /// Records the trailing line comment.
    pub fn comment(self, comment: &str) -> (r: Self)
        ensures
            r@ == (QueryWrapperV { comment: Option::Some(comment@), ..self@ }),
    {
        QueryWrapper { comment: Some(comment.to_owned()), ..self }
    }

    /// Renders the full query text. Rendering reads the builder without
    /// changing it: two renders of the same builder give the same text.
    pub fn sql(&self) -> (r: String)
        requires
            self.wrapper.wf(),
        ensures
            r@ == query_sql_spec(self@),
    {
        let mut sql = String::new();
        match &self.first {
            Some(f) => {
                sql.append(f.as_str());
                sql.append(" ");
            },
            None => {},
        }
        sql.append("SELECT ");
        if self.field.len() == 0 {
            sql.append("*");
        } else {
            let t = join_strings(&self.field, ", ");
            sql.append(t.as_str());
        }
        sql.append(" FROM ");
        sql.append(self.table.as_str());
        let w = self.wrapper.where_clause();
        sql.append(w.as_str());
        if self.order.len() > 0 {
            sql.append(" ORDER BY ");
            let items = order_items(&self.order);
            let t = join_strings(&items, ", ");
            sql.append(t.as_str());
        }
        match &self.last {
            Some(l) => {
                sql.append(" ");
                sql.append(l.as_str());
            },
            None => {},
        }
        match &self.comment {
            Some(c) => {
                sql.append(" -- ");
                sql.append(c.as_str());
            },
            None => {},
        }
        proof {
            assert(sql@ =~= query_sql_spec(self@));
        }
        sql
    }

    /// Hands out the values bound by the rendered query, in placeholder
    /// order.
    pub fn bind_values(&self) -> (r: Vec<SqlValue>)
        ensures
            r.deep_view() == flat_values(self@.wrapper.wheres),
    {
        self.wrapper.bind_values()
    }

    /// Turns the query into a scalar aggregation: the field list is replaced
    /// and any recorded ordering is dropped, since ordering a single scalar
    /// is meaningless; the new text is rendered and returned.
    fn aggregation_sql(&mut self, agg: String) -> (r: String)
        requires
            old(self).wrapper.wf(),
        ensures
            final(self)@ == (QueryWrapperV {
                field: seq![agg@],
                order: Seq::<OrderV>::empty(),
                ..old(self)@
            }),
            r@ == query_sql_spec(final(self)@),
    {
        let ghost a0 = agg@;
        let mut fields: Vec<String> = Vec::new();
        fields.push(agg);
        self.field = fields;
        self.order = Vec::new();
        proof {
            assert(self.field.deep_view() =~= seq![a0]);
            assert(self.order.deep_view() =~= Seq::<OrderV>::empty());
        }
        self.sql()
    }

    /// Renders the existence probe `SELECT 1 ...`, dropping any recorded
    /// ordering.
    pub fn exists_sql(&mut self) -> (r: String)
        requires
            old(self).wrapper.wf(),
        ensures
            final(self)@ == (QueryWrapperV {
                field: seq!["1"@],
                order: Seq::<OrderV>::empty(),
                ..old(self)@
            }),
            r@ == query_sql_spec(final(self)@),
    {
        self.aggregation_sql(String::from_str("1"))
    }

    /// Renders the row count `SELECT COUNT(*) ...`, dropping any recorded
    /// ordering.
    pub fn count_sql(&mut self) -> (r: String)
        requires
            old(self).wrapper.wf(),
        ensures
            final(self)@ == (QueryWrapperV {
                field: seq!["COUNT(*)"@],
                order: Seq::<OrderV>::empty(),
                ..old(self)@
            }),
            r@ == query_sql_spec(final(self)@),
    {
        self.aggregation_sql(String::from_str("COUNT(*)"))
    }

    /// Renders the sum aggregate `SELECT SUM(field) ...`, dropping any
    /// recorded ordering.
    pub fn sum_sql(&mut self, field: &str) -> (r: String)
        requires
            old(self).wrapper.wf(),
        ensures
            final(self)@ == (QueryWrapperV {
                field: seq!["SUM("@ + field@ + ")"@],
                order: Seq::<OrderV>::empty(),
                ..old(self)@
            }),
            r@ == query_sql_spec(final(self)@),
    {
        let mut agg = String::from_str("SUM(");
        agg.append(field);
        agg.append(")");
        self.aggregation_sql(agg)
    }

    /// Renders the maximum aggregate `SELECT MAX(field) ...`, dropping any
    /// recorded ordering.
    pub fn max_sql(&mut self, field: &str) -> (r: String)
        requires
            old(self).wrapper.wf(),
        ensures
            final(self)@ == (QueryWrapperV {
                field: seq!["MAX("@ + field@ + ")"@],
                order: Seq::<OrderV>::empty(),
                ..old(self)@
            }),
            r@ == query_sql_spec(final(self)@),
    {
        let mut agg = String::from_str("MAX(");
        agg.append(field);
        agg.append(")");
        self.aggregation_sql(agg)
    }

    /// Renders the minimum aggregate `SELECT MIN(field) ...`, dropping any
    /// recorded ordering.
    pub fn min_sql(&mut self, field: &str) -> (r: String)
        requires
            old(self).wrapper.wf(),
        ensures
            final(self)@ == (QueryWrapperV {
                field: seq!["MIN("@ + field@ + ")"@],
                order: Seq::<OrderV>::empty(),
                ..old(self)@
            }),
            r@ == query_sql_spec(final(self)@),
    {
        let mut agg = String::from_str("MIN(");
        agg.append(field);
        agg.append(")");
        self.aggregation_sql(agg)
    }
}

/// The text of one assignment of the set list: the field, then ` = ?`.
pub open spec fn set_item(key: Seq<char>) -> Seq<char> {
    key + " = ?"@
}

/// The full text an update renders:
/// `[FIRST ]UPDATE <table> SET <k = ?, ...><WHERE>[ LAST][ -- COMMENT]`.
pub open spec fn update_sql_spec(u: UpdateWrapperV) -> Seq<char> {
    opt_first(u.first) + "UPDATE "@ + u.table + " SET "@ + join_seqs(
        u.set_key.map_values(|k: Seq<char>| set_item(k)),
        ", "@,
    ) + where_clause_spec(u.wrapper) + opt_last(u.last) + opt_comment(u.comment)
}

/// The update assembler: the set list, the predicate engine and the raw
/// fragments.
///
/// The set list keeps assignment-call order and allows duplicate fields:
/// assigning a field twice renders two assignments, in call order.
pub struct UpdateWrapper {
    pub table: String,
    pub set_key: Vec<String>,
    pub set_value: Vec<SqlValue>,
    pub wrapper: Wrapper,
    pub first: Option<String>,
    pub last: Option<String>,
    pub comment: Option<String>,
}

/// The mathematical value of an [`UpdateWrapper`].
#[verifier::ext_equal]
pub ghost struct UpdateWrapperV {
    pub table: Seq<char>,
    pub set_key: Seq<Seq<char>>,
    pub set_value: Seq<SqlValueV>,
    pub wrapper: WrapperV,
    pub first: Option<Seq<char>>,
    pub last: Option<Seq<char>>,
    pub comment: Option<Seq<char>>,
}

impl View for UpdateWrapper {
    type V = UpdateWrapperV;

    open spec fn view(&self) -> UpdateWrapperV {
        UpdateWrapperV {
            table: self.table@,
            set_key: self.set_key.deep_view(),
            set_value: self.set_value.deep_view(),
            wrapper: self.wrapper@,
            first: self.first.deep_view(),
            last: self.last.deep_view(),
            comment: self.comment.deep_view(),
        }
    }
}

impl UpdateWrapper {
    /// A fresh update of the given table: empty set list, no predicates, no
    /// decoration.
    pub fn new(table: &str) -> (r: Self)
        ensures
            r@.table == table@,
            r@.set_key == Seq::<Seq<char>>::empty(),
            r@.set_value == Seq::<SqlValueV>::empty(),
            r@.wrapper == (WrapperV {
                wheres: Seq::<WhereV>::empty(),
                or_index: Seq::<bool>::empty(),
                pending_or: false,
                left: Seq::<usize>::empty(),
                right: Seq::<usize>::empty(),
            }),
            r@.first == Option::<Seq<char>>::None,
            r@.last == Option::<Seq<char>>::None,
            r@.comment == Option::<Seq<char>>::None,
            r.wrapper.wf(),
    {
        UpdateWrapper {
            table: table.to_owned(),
            set_key: Vec::new(),
            set_value: Vec::new(),
            wrapper: Wrapper::new(),
            first: None,
            last: None,
            comment: None,
        }
    }

    /// Replaces the predicate engine with one built elsewhere.
    pub fn with_wrapper(self, wrapper: Wrapper) -> (r: Self)
        ensures
            r@ == (UpdateWrapperV { wrapper: wrapper@, ..self@ }),
    {
        UpdateWrapper { wrapper, ..self }
    }

    /// Records one more assignment at the end of the set list.
    pub fn set_field(self, field: &str, value: SqlValue) -> (r: Self)
        ensures
            r@ == (UpdateWrapperV {
                set_key: self@.set_key.push(field@),
                set_value: self@.set_value.push(value@),
                ..self@
            }),
    {
        let ghost v0 = value@;
        let mut s = self;
        s.set_key.push(field.to_owned());
        s.set_value.push(value);
        proof {
            assert(s.set_key.deep_view() =~= self@.set_key.push(field@));
            assert(s.set_value.deep_view() =~= self@.set_value.push(v0));
        }
        s
    }

    /// [`UpdateWrapper::set_field`], applied only when `flag` is set.
    pub fn set_field_flag(self, field: &str, value: SqlValue, flag: bool) -> (r: Self)
        ensures
            flag ==> r@ == (UpdateWrapperV {
                set_key: self@.set_key.push(field@),
                set_value: self@.set_value.push(value@),
                ..self@
            }),
            !flag ==> r == self,
    {
        if flag {
            self.set_field(field, value)
        } else {
            self
        }
    }

    /// [`UpdateWrapper::set_field`], applied only when the value is present.
    pub fn set_field_opt(self, field: &str, value: Option<SqlValue>) -> (r: Self)
        ensures
            value is Some ==> r@ == (UpdateWrapperV {
                set_key: self@.set_key.push(field@),
                set_value: self@.set_value.push(value->Some_0@),
                ..self@
            }),
            value is None ==> r == self,
    {
        match value {
            Some(v) => self.set_field(field, v),
            None => self,
        }
    }

    /// [`UpdateWrapper::set_field_opt`], applied only when `flag` is set.
    pub fn set_field_opt_flag(self, field: &str, value: Option<SqlValue>, flag: bool) -> (r: Self)
        ensures
            flag && value is Some ==> r@ == (UpdateWrapperV {
                set_key: self@.set_key.push(field@),
                set_value: self@.set_value.push(value->Some_0@),
                ..self@
            }),
            !(flag && value is Some) ==> r == self,
    {
        if flag {
            self.set_field_opt(field, value)
        } else {
            self
        }
    }

    /// Records the raw fragment prepended before the statement.
    pub fn first(self, sql: &str) -> (r: Self)
        ensures
            r@ == (UpdateWrapperV { first: Option::Some(sql@), ..self@ }),
    {
        UpdateWrapper { first: Some(sql.to_owned()), ..self }
    }

    /// Records the raw fragment appended after the statement.
    pub fn last(self, sql: &str) -> (r: Self)
        ensures
            r@ == (UpdateWrapperV { last: Option::Some(sql@), ..self@ }),
    {
        UpdateWrapper { last: Some(sql.to_owned()), ..self }
    }

    /// Records the trailing line comment.
    pub fn comment(self, comment: &str) -> (r: Self)
        ensures
            r@ == (UpdateWrapperV { comment: Option::Some(comment@), ..self@ }),
    {
        UpdateWrapper { comment: Some(comment.to_owned()), ..self }
    }

    /// Renders the full update text. Rendering reads the builder without
    /// changing it: two renders of the same builder give the same text.
    pub fn sql(&self) -> (r: String)
        requires
            self.wrapper.wf(),
        ensures
            r@ == update_sql_spec(self@),
    {
        let mut sql = String::new();
        match &self.first {
            Some(f) => {
                sql.append(f.as_str());
                sql.append(" ");
            },
            None => {},
        }
        sql.append("UPDATE ");
        sql.append(self.table.as_str());
        sql.append(" SET ");
        let items = set_items(&self.set_key);
        let t = join_strings(&items, ", ");
        sql.append(t.as_str());
        let w = self.wrapper.where_clause();
        sql.append(w.as_str());
        match &self.last {
            Some(l) => {
                sql.append(" ");
                sql.append(l.as_str());
            },
            None => {},
        }
        match &self.comment {
            Some(c) => {
                sql.append(" -- ");
                sql.append(c.as_str());
            },
            None => {},
        }
        proof {
            assert(sql@ =~= update_sql_spec(self@));
        }
        sql
    }

    /// Hands out the values bound by the rendered update, in placeholder
    /// order: the set-list values first, then the predicate values.
    pub fn bind_values(&self) -> (r: Vec<SqlValue>)
        ensures
            r.deep_view() == self@.set_value + flat_values(self@.wrapper.wheres),
    {
        let mut out: Vec<SqlValue> = Vec::new();
        let mut i: usize = 0;
        while i < self.set_value.len()
            invariant
                i <= self.set_value@.len(),
                out.deep_view() == self@.set_value.take(i as int),
            decreases self.set_value@.len() - i,
        {
            let ghost prev = out@;
            let ghost prev_dv = out.deep_view();
            out.push(self.set_value[i].duplicate());
            proof {
                assert forall|k: int| 0 <= k < prev.len() implies out.deep_view()[k] == prev_dv[k]
                    by {
                    assert(out@[k] == prev[k]);
                }
                assert(prev_dv.len() == i);
                assert(prev.len() == prev_dv.len());
                assert(out@.len() == i + 1);
                assert(out.deep_view()[i as int] == out@[i as int]@);
                assert(self@.set_value[i as int] == self.set_value@[i as int]@);
                assert(out.deep_view()[i as int] == self@.set_value[i as int]);
                assert(self@.set_value.take(i + 1) =~= self@.set_value.take(i as int).push(
                    self@.set_value[i as int],
                ));
                assert(out.deep_view() =~= self@.set_value.take(i + 1));
            }
            i += 1;
        }
        let mut rest = self.wrapper.bind_values();
        let ghost head = out.deep_view();
        let ghost tail = rest.deep_view();
        out.append(&mut rest);
        proof {
            assert(self@.set_value.take(self.set_value@.len() as int) =~= self@.set_value);
            assert forall|k: int| 0 <= k < out@.len() implies out.deep_view()[k] == (head + tail)[k]
                by {}
            assert(out.deep_view() =~= head + tail);
        }
        out
    }
}

/// Renders the set list as texts, one assignment per recorded field.
fn set_items(keys: &Vec<String>) -> (r: Vec<String>)
    ensures
        r.deep_view() == keys.deep_view().map_values(|k: Seq<char>| set_item(k)),
{
    let mut out: Vec<String> = Vec::new();
    let mut i: usize = 0;
    while i < keys.len()
        invariant
            i <= keys@.len(),
            out.deep_view().len() == i,
            forall|j: int|
                0 <= j < i ==> out.deep_view()[j] == set_item(keys.deep_view()[j]),
        decreases keys@.len() - i,
    {
        let mut t = String::from_str(keys[i].as_str());
        t.append(" = ?");
        let ghost prev = out@;
        let ghost prev_dv = out.deep_view();
        out.push(t);
        proof {
            assert forall|j: int| 0 <= j < i + 1 implies out.deep_view()[j] == set_item(
                keys.deep_view()[j],
            ) by {
                if j < i {
                    assert(out@[j] == prev[j]);
                    assert(prev_dv[j] == prev[j].deep_view());
                }
            }
        }
        i += 1;
    }
    proof {
        assert(out.deep_view() =~= keys.deep_view().map_values(|k: Seq<char>| set_item(k)));
    }
    out
}

/// The full text a delete renders:
/// `[FIRST ]DELETE FROM <table><WHERE>[ LAST][ -- COMMENT]`.
pub open spec fn delete_sql_spec(d: DeleteWrapperV) -> Seq<char> {
    opt_first(d.first) + "DELETE FROM "@ + d.table + where_clause_spec(d.wrapper) + opt_last(
        d.last,
    ) + opt_comment(d.comment)
}

/// The delete assembler: the predicate engine and the raw fragments.
pub struct DeleteWrapper {
    pub table: String,
    pub wrapper: Wrapper,
    pub first: Option<String>,
    pub last: Option<String>,
    pub comment: Option<String>,
}

/// The mathematical value of a [`DeleteWrapper`].
#[verifier::ext_equal]
pub ghost struct DeleteWrapperV {
    pub table: Seq<char>,
    pub wrapper: WrapperV,
    pub first: Option<Seq<char>>,
    pub last: Option<Seq<char>>,
    pub comment: Option<Seq<char>>,
}

impl View for DeleteWrapper {
    type V = DeleteWrapperV;

    open spec fn view(&self) -> DeleteWrapperV {
        DeleteWrapperV {
            table: self.table@,
            wrapper: self.wrapper@,
            first: self.first.deep_view(),
            last: self.last.deep_view(),
            comment: self.comment.deep_view(),
        }
    }
}

impl DeleteWrapper {
    /// A fresh delete from the given table: no predicates, no decoration.
    pub fn new(table: &str) -> (r: Self)
        ensures
            r@.table == table@,
            r@.wrapper == (WrapperV {
                wheres: Seq::<WhereV>::empty(),
                or_index: Seq::<bool>::empty(),
                pending_or: false,
                left: Seq::<usize>::empty(),
                right: Seq::<usize>::empty(),
            }),
            r@.first == Option::<Seq<char>>::None,
            r@.last == Option::<Seq<char>>::None,
            r@.comment == Option::<Seq<char>>::None,
            r.wrapper.wf(),
    {
        DeleteWrapper {
            table: table.to_owned(),
            wrapper: Wrapper::new(),
            first: None,
            last: None,
            comment: None,
        }
    }

    /// Replaces the predicate engine with one built elsewhere.
    pub fn with_wrapper(self, wrapper: Wrapper) -> (r: Self)
        ensures
            r@ == (DeleteWrapperV { wrapper: wrapper@, ..self@ }),
    {
        DeleteWrapper { wrapper, ..self }
    }

    /// Records the raw fragment prepended before the statement.
    pub fn first(self, sql: &str) -> (r: Self)
        ensures
            r@ == (DeleteWrapperV { first: Option::Some(sql@), ..self@ }),
    {
        DeleteWrapper { first: Some(sql.to_owned()), ..self }
    }

    /// Records the raw fragment appended after the statement.
    pub fn last(self, sql: &str) -> (r: Self)
        ensures
            r@ == (DeleteWrapperV { last: Option::Some(sql@), ..self@ }),
    {
        DeleteWrapper { last: Some(sql.to_owned()), ..self }
    }

    /// Records the trailing line comment.
    pub fn comment(self, comment: &str) -> (r: Self)
        ensures
            r@ == (DeleteWrapperV { comment: Option::Some(comment@), ..self@ }),
    {
        DeleteWrapper { comment: Some(comment.to_owned()), ..self }
    }

    /// Renders the full delete text. Rendering reads the builder without
    /// changing it: two renders of the same builder give the same text.
    pub fn sql(&self) -> (r: String)
        requires
            self.wrapper.wf(),
        ensures
            r@ == delete_sql_spec(self@),
    {
        let mut sql = String::new();
        match &self.first {
            Some(f) => {
                sql.append(f.as_str());
                sql.append(" ");
            },
            None => {},
        }
        sql.append("DELETE FROM ");
        sql.append(self.table.as_str());
        let w = self.wrapper.where_clause();
        sql.append(w.as_str());
        match &self.last {
            Some(l) => {
                sql.append(" ");
                sql.append(l.as_str());
            },
            None => {},
        }
        match &self.comment {
            Some(c) => {
                sql.append(" -- ");
                sql.append(c.as_str());
            },
            None => {},
        }
        proof {
            assert(sql@ =~= delete_sql_spec(self@));
        }
        sql
    }

    /// Hands out the values bound by the rendered delete, in placeholder
    /// order.
    pub fn bind_values(&self) -> (r: Vec<SqlValue>)
        ensures
            r.deep_view() == flat_values(self@.wrapper.wheres),
    {
        self.wrapper.bind_values()
    }
}

} // verus!
