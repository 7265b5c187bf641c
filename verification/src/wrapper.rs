//! The predicate-composition and rendering engine.
//!
//! A [`Wrapper`] keeps an ordered list of predicates, a disjunction marker
//! per position, and position-keyed bracket counters. Builder calls append
//! predicates and record group boundaries; [`Wrapper::where_clause`] renders
//! the whole list into `WHERE` text, and [`Wrapper::bind_values`] hands out
//! the bound values in exactly the order their placeholders appear.

use vstd::prelude::*;
use vstd::string::StringExecFns;

use crate::bracket::{Bracket, bump_by, count_at, sum_counts};
use crate::value::{
    SqlValue, SqlValueV, wrapped_like, wrapped_like_left, wrapped_like_right,
};

verus! {

/// The comparison a predicate applies between its field and its values.
#[derive(Debug, Clone, Copy, PartialEq, Eq, Structural)]
pub enum Relationship {
    Eq,
    Ne,
    Gt,
    Ge,
    Lt,
    Le,
    Between,
    NotBetween,
    Like,
    NotLike,
    LikeLeft,
    LikeRight,
    In,
    NotIn,
    IsNull,
    IsNotNull,
}

/// The operator text rendered between the field and the placeholders.
pub open spec fn rel_str(rel: Relationship) -> Seq<char> {
    match rel {
        Relationship::Eq => "="@,
        Relationship::Ne => "<>"@,
        Relationship::Gt => ">"@,
        Relationship::Ge => ">="@,
        Relationship::Lt => "<"@,
        Relationship::Le => "<="@,
        Relationship::Between => "BETWEEN"@,
        Relationship::NotBetween => "NOT BETWEEN"@,
        Relationship::Like => "LIKE"@,
        Relationship::NotLike => "NOT LIKE"@,
        Relationship::LikeLeft => "LIKE"@,
        Relationship::LikeRight => "LIKE"@,
        Relationship::In => "IN"@,
        Relationship::NotIn => "NOT IN"@,
        Relationship::IsNull => "IS NULL"@,
        Relationship::IsNotNull => "IS NOT NULL"@,
    }
}

/// `n` placeholders separated by `, `: empty, `?`, `?, ?`, ...
pub open spec fn placeholders(n: nat) -> Seq<char>
    decreases n,
{
    if n == 0 {
        Seq::empty()
    } else if n == 1 {
        "?"@
    } else {
        placeholders((n - 1) as nat) + ", ?"@
    }
}

/// The placeholder text rendered after the operator: one `?` for the
/// comparison and match family, `? AND ?` for the range family, a
/// parenthesized list for the membership family, nothing for the null tests.
pub open spec fn op_suffix(rel: Relationship, n: nat) -> Seq<char> {
    match rel {
        Relationship::Between | Relationship::NotBetween => " ? AND ?"@,
        Relationship::In | Relationship::NotIn => " ("@ + placeholders(n) + ")"@,
        Relationship::IsNull | Relationship::IsNotNull => Seq::empty(),
        _ => " ?"@,
    }
}

/// How many values a predicate with this operator carries.
pub open spec fn arity_ok(rel: Relationship, n: nat) -> bool {
    match rel {
        Relationship::Between | Relationship::NotBetween => n == 2,
        Relationship::In | Relationship::NotIn => true,
        Relationship::IsNull | Relationship::IsNotNull => n == 0,
        _ => n == 1,
    }
}

impl Relationship {
    /// The operator text this comparison renders.
    pub fn to_str(&self) -> (r: &'static str)
        ensures
            r@ == rel_str(*self),
    {
        match self {
            Relationship::Eq => "=",
            Relationship::Ne => "<>",
            Relationship::Gt => ">",
            Relationship::Ge => ">=",
            Relationship::Lt => "<",
            Relationship::Le => "<=",
            Relationship::Between => "BETWEEN",
            Relationship::NotBetween => "NOT BETWEEN",
            Relationship::Like => "LIKE",
            Relationship::NotLike => "NOT LIKE",
            Relationship::LikeLeft => "LIKE",
            Relationship::LikeRight => "LIKE",
            Relationship::In => "IN",
            Relationship::NotIn => "NOT IN",
            Relationship::IsNull => "IS NULL",
            Relationship::IsNotNull => "IS NOT NULL",
        }
    }
}

/// One predicate: a field, the comparison applied to it, and the values
/// bound to its placeholders, in placeholder order.
#[derive(Debug)]
pub struct Where {
    pub field: String,
    pub relationship: Relationship,
    pub values: Vec<SqlValue>,
}

/// The mathematical value of a [`Where`].
#[verifier::ext_equal]
pub ghost struct WhereV {
    pub field: Seq<char>,
    pub relationship: Relationship,
    pub values: Seq<SqlValueV>,
}

impl View for Where {
    type V = WhereV;

    open spec fn view(&self) -> WhereV {
        WhereV {
            field: self.field@,
            relationship: self.relationship,
            values: self.values.deep_view(),
        }
    }
}

impl DeepView for Where {
    type V = WhereV;

    open spec fn deep_view(&self) -> WhereV {
        self.view()
    }
}

/// The text one predicate renders: field, space, operator, placeholders.
pub open spec fn where_text(w: WhereV) -> Seq<char> {
    w.field + " "@ + rel_str(w.relationship) + op_suffix(w.relationship, w.values.len())
}

impl Where {
    pub fn new(field: String, relationship: Relationship, values: Vec<SqlValue>) -> (r: Self)
        ensures
            r@ == (WhereV { field: field@, relationship, values: values.deep_view() }),
    {
        Where { field, relationship, values }
    }

    /// Renders this predicate's text, with one positional placeholder per
    /// bound value.
    pub fn to_bind_sql(&self) -> (r: String)
        ensures
            r@ == where_text(self@),
    {
        let mut sql = String::from_str(self.field.as_str());
        sql.append(" ");
        sql.append(self.relationship.to_str());
        match self.relationship {
            Relationship::Between | Relationship::NotBetween => sql.append(" ? AND ?"),
            Relationship::In | Relationship::NotIn => {
                sql.append(" (");
                let n = self.values.len();
                let mut i: usize = 0;
                while i < n
                    invariant
                        i <= n,
                        sql@ == self@.field + " "@ + rel_str(self@.relationship) + " ("@
                            + placeholders(i as nat),
                    decreases n - i,
                {
                    if i == 0 {
                        sql.append("?");
                    } else {
                        sql.append(", ?");
                    }
                    i += 1;
                }
                sql.append(")");
            },
            Relationship::IsNull | Relationship::IsNotNull => {},
            _ => sql.append(" ?"),
        }
        sql
    }
}

/// The predicate-composition engine: the ordered predicate list, one
/// disjunction marker per position, a pending marker for the next position,
/// and the group-bracket counters.
///
/// `or_index[i]` set means the connective rendered before predicate `i` is
/// `OR`; `pending_or` is a marker already placed at the current end of the
/// list, taken up by whichever predicate is appended there next.
pub struct Wrapper {
    pub wheres: Vec<Where>,
    pub or_index: Vec<bool>,
    pub pending_or: bool,
    pub bracket: Bracket,
}

/// The mathematical value of a [`Wrapper`].
#[verifier::ext_equal]
pub ghost struct WrapperV {
    pub wheres: Seq<WhereV>,
    pub or_index: Seq<bool>,
    pub pending_or: bool,
    pub left: Seq<usize>,
    pub right: Seq<usize>,
}

impl View for Wrapper {
    type V = WrapperV;

    open spec fn view(&self) -> WrapperV {
        WrapperV {
            wheres: self.wheres.deep_view(),
            or_index: self.or_index@,
            pending_or: self.pending_or,
            left: self.bracket.left@,
            right: self.bracket.right@,
        }
    }
}

impl WrapperV {
    /// Well-formedness: one marker per predicate; open markers only at real
    /// positions past the first predicate; close markers only past position
    /// zero and at most one position past the end; as many opens as closes
    /// recorded in all; and every predicate carries as many values as its
    /// operator renders placeholders for.
    pub open spec fn wf(self) -> bool {
        &&& self.or_index.len() == self.wheres.len()
        &&& self.left.len() <= self.wheres.len()
        &&& count_at(self.left, 0) == 0
        &&& self.right.len() <= self.wheres.len() + 1
        &&& count_at(self.right, 0) == 0
        &&& sum_counts(self.left) == sum_counts(self.right)
        &&& forall|i: int|
            0 <= i < self.wheres.len() ==> arity_ok(
                (#[trigger] self.wheres[i]).relationship,
                self.wheres[i].values.len(),
            )
    }
}

/// The state after appending one predicate: the pending disjunction marker
/// is taken up as the new predicate's connective, the bracket counters are
/// untouched.
pub open spec fn pushed(
    v: WrapperV,
    field: Seq<char>,
    rel: Relationship,
    values: Seq<SqlValueV>,
) -> WrapperV {
    WrapperV {
        wheres: v.wheres.push(WhereV { field, relationship: rel, values }),
        or_index: v.or_index.push(v.pending_or),
        pending_or: false,
        ..v
    }
}

/// The values actually bound for one operator: match operators wrap their
/// text value in the corresponding `%` pattern, every other operator binds
/// its values as given.
pub open spec fn wrap_values(rel: Relationship, values: Seq<SqlValueV>) -> Seq<SqlValueV> {
    match rel {
        Relationship::Like | Relationship::NotLike => values.map_values(|v| wrapped_like(v)),
        Relationship::LikeLeft => values.map_values(|v| wrapped_like_left(v)),
        Relationship::LikeRight => values.map_values(|v| wrapped_like_right(v)),
        _ => values,
    }
}

/// Appending a well-formed predicate preserves well-formedness.
pub proof fn lemma_pushed_wf(v: WrapperV, field: Seq<char>, rel: Relationship, values: Seq<SqlValueV>)
    requires
        v.wf(),
        arity_ok(rel, values.len()),
    ensures
        pushed(v, field, rel, values).wf(),
{
    let p = pushed(v, field, rel, values);
    assert forall|i: int| 0 <= i < p.wheres.len() implies arity_ok(
        (#[trigger] p.wheres[i]).relationship,
        p.wheres[i].values.len(),
    ) by {
        if i < v.wheres.len() {
            assert(p.wheres[i] == v.wheres[i]);
        }
    }
}

impl Wrapper {
    pub open spec fn wf(&self) -> bool {
        self@.wf()
    }

    /// A builder with no predicates, no markers and no groups.
    pub fn new() -> (r: Self)
        ensures
            r@ == (WrapperV {
                wheres: Seq::<WhereV>::empty(),
                or_index: Seq::<bool>::empty(),
                pending_or: false,
                left: Seq::<usize>::empty(),
                right: Seq::<usize>::empty(),
            }),
            r.wf(),
    {
        Wrapper {
            wheres: Vec::new(),
            or_index: Vec::new(),
            pending_or: false,
            bracket: Bracket::new(),
        }
    }

    /// Appends one predicate at the end of the list; any pending disjunction
    /// marker becomes the new predicate's connective.
    pub fn wheres_push(&mut self, w: Where)
        ensures
            final(self)@ == pushed(old(self)@, w@.field, w@.relationship, w@.values),
            old(self).wf() && arity_ok(w@.relationship, w@.values.len()) ==> final(self).wf(),
    {
        proof {
            if old(self).wf() && arity_ok(w@.relationship, w@.values.len()) {
                lemma_pushed_wf(old(self)@, w@.field, w@.relationship, w@.values);
            }
        }
        let p = self.pending_or;
        self.or_index.push(p);
        self.pending_or = false;
        self.wheres.push(w);
        proof {
            assert(self.wheres.deep_view() =~= old(self).wheres.deep_view().push(
                WhereV { field: w@.field, relationship: w@.relationship, values: w@.values },
            ));
            assert(self@ =~= pushed(old(self)@, w@.field, w@.relationship, w@.values));
        }
    }

    /// Appends one predicate built from a field, an operator and its values;
    /// match operators wrap their text value in the `%` pattern they stand
    /// for. This one parameterized method carries every operator's direct
    /// call shape.
    pub fn pred_field(self, field: &str, rel: Relationship, values: Vec<SqlValue>) -> (r: Self)
        ensures
            r@ == pushed(self@, field@, rel, wrap_values(rel, values.deep_view())),
            self.wf() && arity_ok(rel, values.deep_view().len()) ==> r.wf(),
    {
        let wrapped: Vec<SqlValue> = match rel {
            Relationship::Like | Relationship::NotLike => {
                wrap_all(&values, WrapKind::Contains)
            },
            Relationship::LikeLeft => wrap_all(&values, WrapKind::EndsWith),
            Relationship::LikeRight => wrap_all(&values, WrapKind::StartsWith),
            _ => values,
        };
        proof {
            assert(wrapped.deep_view() =~= wrap_values(rel, values.deep_view()));
        }
        let w = Where { field: field.to_owned(), relationship: rel, values: wrapped };
        let mut s = self;
        s.wheres_push(w);
        s
    }
}

/// `w` with a disjunction marker placed at the current end of its predicate
/// list; placing a marker before the first predicate has no effect, since
/// no connective is rendered there.
pub open spec fn or_marked(w: Wrapper) -> Wrapper {
    if w.wheres@.len() == 0 {
        w
    } else {
        Wrapper { wheres: w.wheres, or_index: w.or_index, pending_or: true, bracket: w.bracket }
    }
}

/// The group bookkeeping applied after a sub-build that started at position
/// `start`: when the sub-build appended at least one predicate, one open
/// marker is recorded at `start` and one close marker at the new end.
/// Positions and counts saturate at the machine limit.
pub open spec fn group_fixup(start: int, mid: WrapperV) -> WrapperV {
    if mid.wheres.len() > start && mid.wheres.len() < usize::MAX && count_at(mid.left, start)
        < usize::MAX && count_at(mid.right, mid.wheres.len() as int) < usize::MAX {
        WrapperV {
            left: bump_by(mid.left, start, 1),
            right: bump_by(mid.right, mid.wheres.len() as int, 1),
            ..mid
        }
    } else {
        mid
    }
}

/// The group bookkeeping keeps a well-formed builder well formed.
pub proof fn lemma_group_fixup_wf(start: int, mid: WrapperV)
    requires
        mid.wf(),
        1 <= start,
    ensures
        group_fixup(start, mid).wf(),
{
    let len = mid.wheres.len() as int;
    if mid.wheres.len() > start && mid.wheres.len() < usize::MAX && count_at(mid.left, start)
        < usize::MAX && count_at(mid.right, len) < usize::MAX {
        crate::bracket::lemma_sum_bump(mid.left, start, 1);
        crate::bracket::lemma_sum_bump(mid.right, len, 1);
        assert(count_at(bump_by(mid.left, start, 1), 0) == 0);
        assert(count_at(bump_by(mid.right, len, 1), 0) == 0);
        assert(bump_by(mid.left, start, 1).len() <= len);
        assert(bump_by(mid.right, len, 1).len() <= len + 1);
    }
}

impl Wrapper {
    /// Appends an equality predicate: `field = ?`.
    pub fn eq_field(self, field: &str, value: SqlValue) -> (r: Self)
        ensures
            r@ == pushed(self@, field@, Relationship::Eq, seq![value@]),
            self.wf() ==> r.wf(),
    {
        let ghost v0 = value@;
        let vals = vec![value];
        proof {
            assert(vals.deep_view() =~= seq![v0]);
        }
        self.pred_field(field, Relationship::Eq, vals)
    }

    /// Appends an inequality predicate: `field <> ?`.
    pub fn ne_field(self, field: &str, value: SqlValue) -> (r: Self)
        ensures
            r@ == pushed(self@, field@, Relationship::Ne, seq![value@]),
            self.wf() ==> r.wf(),
    {
        let ghost v0 = value@;
        let vals = vec![value];
        proof {
            assert(vals.deep_view() =~= seq![v0]);
        }
        self.pred_field(field, Relationship::Ne, vals)
    }

    /// Appends a strict greater-than predicate: `field > ?`.
    pub fn gt_field(self, field: &str, value: SqlValue) -> (r: Self)
        ensures
            r@ == pushed(self@, field@, Relationship::Gt, seq![value@]),
            self.wf() ==> r.wf(),
    {
        let ghost v0 = value@;
        let vals = vec![value];
        proof {
            assert(vals.deep_view() =~= seq![v0]);
        }
        self.pred_field(field, Relationship::Gt, vals)
    }

    /// Appends a greater-or-equal predicate: `field >= ?`.
    pub fn ge_field(self, field: &str, value: SqlValue) -> (r: Self)
        ensures
            r@ == pushed(self@, field@, Relationship::Ge, seq![value@]),
            self.wf() ==> r.wf(),
    {
        let ghost v0 = value@;
        let vals = vec![value];
        proof {
            assert(vals.deep_view() =~= seq![v0]);
        }
        self.pred_field(field, Relationship::Ge, vals)
    }

    /// Appends a strict less-than predicate: `field < ?`.
    pub fn lt_field(self, field: &str, value: SqlValue) -> (r: Self)
        ensures
            r@ == pushed(self@, field@, Relationship::Lt, seq![value@]),
            self.wf() ==> r.wf(),
    {
        let ghost v0 = value@;
        let vals = vec![value];
        proof {
            assert(vals.deep_view() =~= seq![v0]);
        }
        self.pred_field(field, Relationship::Lt, vals)
    }

    /// Appends a less-or-equal predicate: `field <= ?`.
    pub fn le_field(self, field: &str, value: SqlValue) -> (r: Self)
        ensures
            r@ == pushed(self@, field@, Relationship::Le, seq![value@]),
            self.wf() ==> r.wf(),
    {
        let ghost v0 = value@;
        let vals = vec![value];
        proof {
            assert(vals.deep_view() =~= seq![v0]);
        }
        self.pred_field(field, Relationship::Le, vals)
    }

    /// Appends a range predicate: `field BETWEEN ? AND ?`.
    pub fn between_field(self, field: &str, value_left: SqlValue, value_right: SqlValue) -> (r:
        Self)
        ensures
            r@ == pushed(self@, field@, Relationship::Between, seq![value_left@, value_right@]),
            self.wf() ==> r.wf(),
    {
        let ghost a0 = value_left@;
        let ghost b0 = value_right@;
        let vals = vec![value_left, value_right];
        proof {
            assert(vals.deep_view() =~= seq![a0, b0]);
        }
        self.pred_field(field, Relationship::Between, vals)
    }

    /// Appends an excluded-range predicate: `field NOT BETWEEN ? AND ?`.
    pub fn not_between_field(self, field: &str, value_left: SqlValue, value_right: SqlValue) -> (r:
        Self)
        ensures
            r@ == pushed(self@, field@, Relationship::NotBetween, seq![value_left@, value_right@]),
            self.wf() ==> r.wf(),
    {
        let ghost a0 = value_left@;
        let ghost b0 = value_right@;
        let vals = vec![value_left, value_right];
        proof {
            assert(vals.deep_view() =~= seq![a0, b0]);
        }
        self.pred_field(field, Relationship::NotBetween, vals)
    }

    /// Appends a contains match: `field LIKE ?` bound to `%value%`.
    pub fn like_field(self, field: &str, value: SqlValue) -> (r: Self)
        ensures
            r@ == pushed(self@, field@, Relationship::Like, seq![wrapped_like(value@)]),
            self.wf() ==> r.wf(),
    {
        let ghost v0 = value@;
        let vals = vec![value];
        proof {
            assert(vals.deep_view() =~= seq![v0]);
            assert(wrap_values(Relationship::Like, seq![v0]) =~= seq![wrapped_like(v0)]);
        }
        self.pred_field(field, Relationship::Like, vals)
    }

    /// Appends an excluded contains match: `field NOT LIKE ?` bound to `%value%`.
    pub fn not_like_field(self, field: &str, value: SqlValue) -> (r: Self)
        ensures
            r@ == pushed(self@, field@, Relationship::NotLike, seq![wrapped_like(value@)]),
            self.wf() ==> r.wf(),
    {
        let ghost v0 = value@;
        let vals = vec![value];
        proof {
            assert(vals.deep_view() =~= seq![v0]);
            assert(wrap_values(Relationship::NotLike, seq![v0]) =~= seq![wrapped_like(v0)]);
        }
        self.pred_field(field, Relationship::NotLike, vals)
    }

    /// Appends an ends-with match: `field LIKE ?` bound to `%value`.
    pub fn like_left_field(self, field: &str, value: SqlValue) -> (r: Self)
        ensures
            r@ == pushed(self@, field@, Relationship::LikeLeft, seq![wrapped_like_left(value@)]),
            self.wf() ==> r.wf(),
    {
        let ghost v0 = value@;
        let vals = vec![value];
        proof {
            assert(vals.deep_view() =~= seq![v0]);
            assert(wrap_values(Relationship::LikeLeft, seq![v0]) =~= seq![wrapped_like_left(v0)]);
        }
        self.pred_field(field, Relationship::LikeLeft, vals)
    }

    /// Appends a starts-with match: `field LIKE ?` bound to `value%`.
    pub fn like_right_field(self, field: &str, value: SqlValue) -> (r: Self)
        ensures
            r@ == pushed(self@, field@, Relationship::LikeRight, seq![wrapped_like_right(value@)]),
            self.wf() ==> r.wf(),
    {
        let ghost v0 = value@;
        let vals = vec![value];
        proof {
            assert(vals.deep_view() =~= seq![v0]);
            assert(wrap_values(Relationship::LikeRight, seq![v0]) =~= seq![wrapped_like_right(v0)]);
        }
        self.pred_field(field, Relationship::LikeRight, vals)
    }

    /// Appends a membership predicate: `field IN (?, ...)`, one placeholder
    /// per value, in the order given.
    pub fn in_vec_field(self, field: &str, values: Vec<SqlValue>) -> (r: Self)
        ensures
            r@ == pushed(self@, field@, Relationship::In, values.deep_view()),
            self.wf() ==> r.wf(),
    {
        self.pred_field(field, Relationship::In, values)
    }

    /// Appends an excluded-membership predicate: `field NOT IN (?, ...)`.
    pub fn not_in_vec_field(self, field: &str, values: Vec<SqlValue>) -> (r: Self)
        ensures
            r@ == pushed(self@, field@, Relationship::NotIn, values.deep_view()),
            self.wf() ==> r.wf(),
    {
        self.pred_field(field, Relationship::NotIn, values)
    }

    /// Appends a membership predicate from a deduplicating call shape:
    /// repeated values collapse to the first occurrence, in first-appearance
    /// order, before the placeholders are laid down.
    pub fn in_field(self, field: &str, values: Vec<SqlValue>) -> (r: Self)
        ensures
            r@ == pushed(self@, field@, Relationship::In, dedup_first(values.deep_view())),
            self.wf() ==> r.wf(),
    {
        let deduped = dedup_values(&values);
        self.pred_field(field, Relationship::In, deduped)
    }

    /// Appends an excluded-membership predicate from a deduplicating call
    /// shape, as [`Wrapper::in_field`] does.
    pub fn not_in_field(self, field: &str, values: Vec<SqlValue>) -> (r: Self)
        ensures
            r@ == pushed(self@, field@, Relationship::NotIn, dedup_first(values.deep_view())),
            self.wf() ==> r.wf(),
    {
        let deduped = dedup_values(&values);
        self.pred_field(field, Relationship::NotIn, deduped)
    }

    /// Appends a null test: `field IS NULL`, binding nothing.
    pub fn null_field(self, field: &str) -> (r: Self)
        ensures
            r@ == pushed(self@, field@, Relationship::IsNull, Seq::<SqlValueV>::empty()),
            self.wf() ==> r.wf(),
    {
        let vals: Vec<SqlValue> = Vec::new();
        proof {
            assert(vals.deep_view() =~= Seq::<SqlValueV>::empty());
        }
        self.pred_field(field, Relationship::IsNull, vals)
    }

    /// Appends a non-null test: `field IS NOT NULL`, binding nothing.
    pub fn not_null_field(self, field: &str) -> (r: Self)
        ensures
            r@ == pushed(self@, field@, Relationship::IsNotNull, Seq::<SqlValueV>::empty()),
            self.wf() ==> r.wf(),
    {
        let vals: Vec<SqlValue> = Vec::new();
        proof {
            assert(vals.deep_view() =~= Seq::<SqlValueV>::empty());
        }
        self.pred_field(field, Relationship::IsNotNull, vals)
    }

    /// The guarded call shape shared by every operator: the predicate is
    /// appended only when `flag` is set and the values are present; otherwise
    /// the builder is returned unchanged. Match operators wrap their text
    /// value exactly as their direct call shape does.
    pub fn pred_field_opt_flag(
        self,
        field: &str,
        rel: Relationship,
        values: Option<Vec<SqlValue>>,
        flag: bool,
    ) -> (r: Self)
        ensures
            flag && values is Some ==> r@ == pushed(
                self@,
                field@,
                rel,
                wrap_values(rel, values->Some_0.deep_view()),
            ),
            !(flag && values is Some) ==> r == self,
            self.wf() && (flag && values is Some ==> arity_ok(
                rel,
                values->Some_0.deep_view().len(),
            )) ==> r.wf(),
    {
        if flag {
            match values {
                Some(vs) => self.pred_field(field, rel, vs),
                None => self,
            }
        } else {
            self
        }
    }

    /// Marks the connective before the next predicate as `OR`. When no
    /// predicate precedes it there is no connective to mark, and the builder
    /// is returned unchanged.
    pub fn or(self) -> (r: Self)
        ensures
            r == or_marked(self),
            self@.wheres.len() == 0 ==> r == self,
            self.wf() ==> r.wf(),
    {
        if self.wheres.len() > 0 {
            let mut s = self;
            s.pending_or = true;
            s
        } else {
            self
        }
    }

    /// [`Wrapper::or`], applied only when `flag` is set.
    pub fn or_flag(self, flag: bool) -> (r: Self)
        ensures
            flag ==> r == or_marked(self),
            !flag ==> r == self,
            self.wf() ==> r.wf(),
    {
        if flag {
            self.or()
        } else {
            self
        }
    }

    /// Runs a sub-build as a parenthesized `AND` group: when the sub-build
    /// appends at least one predicate, one group-open marker is recorded
    /// before its first predicate and one group-close marker after its last.
    /// When nothing precedes the group, the sub-build runs with no group
    /// bookkeeping at all, since there is nothing to set the group apart from.
    pub fn and_fn<F: FnOnce(Self) -> Self>(self, func: F) -> (r: Self)
        requires
            self.wf(),
            forall|w: Self| #[trigger] call_requires(func, (w,)),
            forall|w: Self, t: Self|
                #[trigger] call_ensures(func, (w,), t) && w.wf() ==> t.wf(),
        ensures
            r.wf(),
            self@.wheres.len() == 0 ==> call_ensures(func, (self,), r),
            self@.wheres.len() > 0 ==> exists|mid: Self|
                #[trigger] call_ensures(func, (self,), mid) && r@ == group_fixup(
                    self@.wheres.len() as int,
                    mid@,
                ),
    {
        if self.wheres.len() == 0 {
            return func(self);
        }
        let start = self.wheres.len();
        let ghost self0 = self;
        let mut mid = func(self);
        let ghost mid0 = mid;
        let end = mid.wheres.len();
        if start < end && end < usize::MAX {
            let lc = mid.bracket.get_left(start);
            let rc = mid.bracket.get_right(end);
            if lc < usize::MAX && rc < usize::MAX {
                mid.bracket.inc_left(start);
                mid.bracket.inc_right(end);
            }
        }
        proof {
            assert(call_ensures(func, (self0,), mid0));
            assert(mid@ == group_fixup(start as int, mid0@));
            lemma_group_fixup_wf(start as int, mid0@);
        }
        mid
    }

    /// [`Wrapper::and_fn`], applied only when `flag` is set.
    pub fn and_fn_flag<F: FnOnce(Self) -> Self>(self, func: F, flag: bool) -> (r: Self)
        requires
            flag ==> self.wf(),
            flag ==> forall|w: Self| #[trigger] call_requires(func, (w,)),
            flag ==> forall|w: Self, t: Self|
                #[trigger] call_ensures(func, (w,), t) && w.wf() ==> t.wf(),
        ensures
            !flag ==> r == self,
            flag ==> r.wf(),
            flag && self@.wheres.len() == 0 ==> call_ensures(func, (self,), r),
            flag && self@.wheres.len() > 0 ==> exists|mid: Self|
                #[trigger] call_ensures(func, (self,), mid) && r@ == group_fixup(
                    self@.wheres.len() as int,
                    mid@,
                ),
    {
        if flag {
            self.and_fn(func)
        } else {
            self
        }
    }

    /// Runs a sub-build as a parenthesized `OR` group: the disjunction
    /// marker is placed before the sub-build runs, so the `OR` connective
    /// precedes the group's opening bracket; the bracket bookkeeping is that
    /// of [`Wrapper::and_fn`]. When nothing precedes the group, the
    /// sub-build runs with no marker and no group bookkeeping.
    pub fn or_fn<F: FnOnce(Self) -> Self>(self, func: F) -> (r: Self)
        requires
            self.wf(),
            forall|w: Self| #[trigger] call_requires(func, (w,)),
            forall|w: Self, t: Self|
                #[trigger] call_ensures(func, (w,), t) && w.wf() ==> t.wf(),
        ensures
            r.wf(),
            self@.wheres.len() == 0 ==> call_ensures(func, (self,), r),
            self@.wheres.len() > 0 ==> exists|mid: Self|
                #[trigger] call_ensures(func, (or_marked(self),), mid) && r@ == group_fixup(
                    self@.wheres.len() as int,
                    mid@,
                ),
    {
        if self.wheres.len() == 0 {
            return func(self);
        }
        let start = self.wheres.len();
        let ghost self0 = self;
        let marked = self.or();
        let mut mid = func(marked);
        let ghost mid0 = mid;
        let end = mid.wheres.len();
        if start < end && end < usize::MAX {
            let lc = mid.bracket.get_left(start);
            let rc = mid.bracket.get_right(end);
            if lc < usize::MAX && rc < usize::MAX {
                mid.bracket.inc_left(start);
                mid.bracket.inc_right(end);
            }
        }
        proof {
            assert(call_ensures(func, (or_marked(self0),), mid0));
            assert(mid@ == group_fixup(start as int, mid0@));
            lemma_group_fixup_wf(start as int, mid0@);
        }
        mid
    }

    /// [`Wrapper::or_fn`], applied only when `flag` is set.
    pub fn or_fn_flag<F: FnOnce(Self) -> Self>(self, flag: bool, func: F) -> (r: Self)
        requires
            flag ==> self.wf(),
            flag ==> forall|w: Self| #[trigger] call_requires(func, (w,)),
            flag ==> forall|w: Self, t: Self|
                #[trigger] call_ensures(func, (w,), t) && w.wf() ==> t.wf(),
        ensures
            !flag ==> r == self,
            flag ==> r.wf(),
            flag && self@.wheres.len() == 0 ==> call_ensures(func, (self,), r),
            flag && self@.wheres.len() > 0 ==> exists|mid: Self|
                #[trigger] call_ensures(func, (or_marked(self),), mid) && r@ == group_fixup(
                    self@.wheres.len() as int,
                    mid@,
                ),
    {
        if flag {
            self.or_fn(func)
        } else {
            self
        }
    }
}

/// The connective rendered before a predicate.
pub open spec fn connective(is_or: bool) -> Seq<char> {
    if is_or {
        " OR "@
    } else {
        " AND "@
    }
}

/// `c` repeated `n` times.
pub open spec fn repeat_char(c: char, n: nat) -> Seq<char>
    decreases n,
{
    if n == 0 {
        Seq::empty()
    } else {
        repeat_char(c, (n - 1) as nat).push(c)
    }
}

/// The total of the counts recorded at position `i` and after.
pub open spec fn sum_from(s: Seq<usize>, i: int) -> nat
    decreases s.len() - i,
{
    if 0 <= i < s.len() {
        s[i] as nat + sum_from(s, i + 1)
    } else {
        0
    }
}

/// The text rendered for predicate `i` of a clause, `i >= 1`: the close
/// markers recorded at `i`, the connective, the open markers recorded at
/// `i`, then the predicate's own text.
pub open spec fn clause_item(v: WrapperV, i: int) -> Seq<char> {
    repeat_char(')', count_at(v.right, i) as nat) + connective(v.or_index[i]) + repeat_char(
        '(',
        count_at(v.left, i) as nat,
    ) + where_text(v.wheres[i])
}

/// The clause text through predicate `i - 1`: `WHERE`, the first predicate,
/// then one item per following predicate.
pub open spec fn clause_prefix(v: WrapperV, i: int) -> Seq<char>
    decreases i,
{
    if i <= 1 {
        " WHERE "@ + where_text(v.wheres[0])
    } else {
        clause_prefix(v, i - 1) + clause_item(v, i - 1)
    }
}

/// The full rendered clause: empty when no predicate was appended, else the
/// clause through the last predicate followed by every close marker recorded
/// at or past the end of the list.
pub open spec fn where_clause_spec(v: WrapperV) -> Seq<char> {
    if v.wheres.len() == 0 {
        Seq::empty()
    } else {
        clause_prefix(v, v.wheres.len() as int) + repeat_char(
            ')',
            sum_from(v.right, v.wheres.len() as int),
        )
    }
}

/// The values of all predicates, in predicate order, each predicate's values
/// in their stored order: exactly the order of the placeholders in the
/// rendered clause.
pub open spec fn flat_values(ws: Seq<WhereV>) -> Seq<SqlValueV>
    decreases ws.len(),
{
    if ws.len() == 0 {
        Seq::empty()
    } else {
        flat_values(ws.drop_last()) + ws.last().values
    }
}

/// Appends `n` group-open markers.
fn append_opens(sql: &mut String, n: usize)
    ensures
        final(sql)@ == old(sql)@ + repeat_char('(', n as nat),
{
    proof {
        reveal_strlit("(");
    }
    let mut k: usize = 0;
    while k < n
        invariant
            k <= n,
            sql@ == old(sql)@ + repeat_char('(', k as nat),
        decreases n - k,
    {
        sql.append("(");
        proof {
            reveal_strlit("(");
            assert(sql@ =~= old(sql)@ + repeat_char('(', (k + 1) as nat));
        }
        k += 1;
    }
    proof {
        assert(sql@ =~= old(sql)@ + repeat_char('(', n as nat));
    }
}

/// Appends `n` group-close markers.
fn append_closes(sql: &mut String, n: usize)
    ensures
        final(sql)@ == old(sql)@ + repeat_char(')', n as nat),
{
    proof {
        reveal_strlit(")");
    }
    let mut k: usize = 0;
    while k < n
        invariant
            k <= n,
            sql@ == old(sql)@ + repeat_char(')', k as nat),
        decreases n - k,
    {
        sql.append(")");
        proof {
            reveal_strlit(")");
            assert(sql@ =~= old(sql)@ + repeat_char(')', (k + 1) as nat));
        }
        k += 1;
    }
    proof {
        assert(sql@ =~= old(sql)@ + repeat_char(')', n as nat));
    }
}

impl Wrapper {
    /// Renders the whole predicate list as `WHERE` text: the first predicate
    /// after ` WHERE `, then, per following predicate, its recorded close
    /// markers, its connective (`OR` where marked, else `AND`), its recorded
    /// open markers and its own text; close markers recorded at or past the
    /// end of the list flush at the very end. An empty list renders nothing.
    pub fn where_clause(&self) -> (r: String)
        requires
            self.wf(),
        ensures
            r@ == where_clause_spec(self@),
    {
        let mut sql = String::new();
        if self.wheres.len() == 0 {
            return sql;
        }
        sql.append(" WHERE ");
        let t0 = self.wheres[0].to_bind_sql();
        sql.append(t0.as_str());
        proof {
            assert(sql@ =~= clause_prefix(self@, 1));
        }
        let mut i: usize = 1;
        while i < self.wheres.len()
            invariant
                1 <= i <= self.wheres@.len(),
                self.wf(),
                sql@ == clause_prefix(self@, i as int),
            decreases self.wheres@.len() - i,
        {
            let ghost at_entry = sql@;
            let rc = self.bracket.get_right(i);
            append_closes(&mut sql, rc);
            if self.or_index[i] {
                sql.append(" OR ");
            } else {
                sql.append(" AND ");
            }
            let lc = self.bracket.get_left(i);
            append_opens(&mut sql, lc);
            let t = self.wheres[i].to_bind_sql();
            sql.append(t.as_str());
            proof {
                assert(sql@ =~= at_entry + clause_item(self@, i as int));
                assert(sql@ =~= clause_prefix(self@, (i + 1) as int));
            }
            i += 1;
        }
        let ghost body = sql@;
        let mut j: usize = self.wheres.len();
        let ghost start = j as int;
        while j < self.bracket.right.len()
            invariant
                start <= j as int,
                self.wf(),
                sql@ == body + repeat_char(
                    ')',
                    (sum_from(self@.right, start) - sum_from(self@.right, j as int)) as nat,
                ),
                sum_from(self@.right, j as int) <= sum_from(self@.right, start),
            decreases self.bracket.right@.len() - j,
        {
            let ghost at_entry = sql@;
            let rc = self.bracket.right[j];
            append_closes(&mut sql, rc);
            proof {
                lemma_repeat_add(
                    ')',
                    (sum_from(self@.right, start) - sum_from(self@.right, j as int)) as nat,
                    rc as nat,
                );
                assert(sum_from(self@.right, j as int) == rc as nat + sum_from(
                    self@.right,
                    j + 1,
                ));
                assert(sql@ =~= body + repeat_char(
                    ')',
                    (sum_from(self@.right, start) - sum_from(self@.right, j + 1)) as nat,
                ));
            }
            j += 1;
        }
        proof {
            assert(sum_from(self@.right, j as int) == 0);
            assert(sql@ =~= where_clause_spec(self@));
        }
        sql
    }

    /// Hands out the bound values of all predicates in placeholder order:
    /// predicate by predicate, each predicate's values in their stored order.
    pub fn bind_values(&self) -> (r: Vec<SqlValue>)
        ensures
            r.deep_view() == flat_values(self@.wheres),
    {
        let mut out: Vec<SqlValue> = Vec::new();
        let mut i: usize = 0;
        while i < self.wheres.len()
            invariant
                i <= self.wheres@.len(),
                out.deep_view() == flat_values(self@.wheres.take(i as int)),
            decreases self.wheres@.len() - i,
        {
            let w = &self.wheres[i];
            let mut j: usize = 0;
            while j < w.values.len()
                invariant
                    j <= w.values@.len(),
                    w == &self.wheres@[i as int],
                    i < self.wheres@.len(),
                    out.deep_view() == flat_values(self@.wheres.take(i as int)) + w@.values.take(
                        j as int,
                    ),
                decreases w.values@.len() - j,
            {
                let ghost prev = out@;
                let ghost prev_dv = out.deep_view();
                out.push(w.values[j].duplicate());
                proof {
                    assert forall|k: int| 0 <= k < prev.len() implies out.deep_view()[k]
                        == prev_dv[k] by {
                        assert(out@[k] == prev[k]);
                    }
                    assert(out.deep_view()[prev.len() as int] == w@.values[j as int]);
                    assert(out.deep_view() =~= prev_dv.push(w@.values[j as int]));
                    assert(w@.values.take(j + 1) =~= w@.values.take(j as int).push(
                        w@.values[j as int],
                    ));
                    assert(out.deep_view() =~= flat_values(self@.wheres.take(i as int))
                        + w@.values.take(j + 1));
                }
                j += 1;
            }
            proof {
                assert(w@.values.take(w.values@.len() as int) =~= w@.values);
                assert(self@.wheres.take(i + 1).drop_last() =~= self@.wheres.take(i as int));
                assert(self@.wheres.take(i + 1).last() == self@.wheres[i as int]);
                assert(out.deep_view() =~= flat_values(self@.wheres.take(i + 1)));
            }
            i += 1;
        }
        proof {
            assert(self@.wheres.take(self.wheres@.len() as int) =~= self@.wheres);
        }
        out
    }
}

/// Repetitions concatenate: `c` repeated `a` times then `b` times is `c`
/// repeated `a + b` times.
pub proof fn lemma_repeat_add(c: char, a: nat, b: nat)
    ensures
        repeat_char(c, a) + repeat_char(c, b) == repeat_char(c, a + b),
    decreases b,
{
    if b == 0 {
        assert(repeat_char(c, a) + repeat_char(c, 0) =~= repeat_char(c, a));
    } else {
        lemma_repeat_add(c, a, (b - 1) as nat);
        assert(repeat_char(c, a) + repeat_char(c, b) =~= (repeat_char(c, a) + repeat_char(
            c,
            (b - 1) as nat,
        )).push(c));
    }
}

/// The values with every repetition dropped: the first occurrence of each
/// value stays, in first-appearance order.
pub open spec fn dedup_first(s: Seq<SqlValueV>) -> Seq<SqlValueV>
    decreases s.len(),
{
    if s.len() == 0 {
        Seq::empty()
    } else {
        let rest = dedup_first(s.drop_last());
        if rest.contains(s.last()) {
            rest
        } else {
            rest.push(s.last())
        }
    }
}

/// Drops every repeated value, keeping first occurrences in order.
fn dedup_values(values: &Vec<SqlValue>) -> (r: Vec<SqlValue>)
    ensures
        r.deep_view() == dedup_first(values.deep_view()),
{
    let mut out: Vec<SqlValue> = Vec::new();
    let mut i: usize = 0;
    while i < values.len()
        invariant
            i <= values@.len(),
            out.deep_view() == dedup_first(values.deep_view().take(i as int)),
        decreases values@.len() - i,
    {
        let v = &values[i];
        let mut found = false;
        let mut j: usize = 0;
        while j < out.len()
            invariant
                j <= out@.len(),
                found <==> exists|k: int| 0 <= k < j && out.deep_view()[k] == v@,
            decreases out@.len() - j,
        {
            if out[j].eq(v) {
                proof {
                    assert(out.deep_view()[j as int] == v@);
                }
                found = true;
            }
            j += 1;
        }
        proof {
            assert(found <==> out.deep_view().contains(v@));
            let dv = values.deep_view();
            assert(dv.take(i + 1).drop_last() =~= dv.take(i as int));
            assert(dv.take(i + 1).last() == dv[i as int]);
            assert(dv[i as int] == v@);
        }
        if !found {
            let ghost prev = out@;
            let ghost prev_dv = out.deep_view();
            out.push(v.duplicate());
            proof {
                assert forall|k: int| 0 <= k < prev.len() implies out.deep_view()[k] == prev_dv[k]
                    by {
                    assert(out@[k] == prev[k]);
                }
                assert(out.deep_view()[prev.len() as int] == v@);
                assert(out.deep_view() =~= prev_dv.push(v@));
            }
        }
        proof {
            assert(out.deep_view() =~= dedup_first(values.deep_view().take(i + 1)));
        }
        i += 1;
    }
    proof {
        assert(values.deep_view().take(values@.len() as int) =~= values.deep_view());
    }
    out
}

/// Which `%` pattern a match operator wraps its text value in.
#[derive(Clone, Copy)]
enum WrapKind {
    Contains,
    EndsWith,
    StartsWith,
}

/// The wrapping a [`WrapKind`] applies to one value.
spec fn wrap_one(kind: WrapKind, v: SqlValueV) -> SqlValueV {
    match kind {
        WrapKind::Contains => wrapped_like(v),
        WrapKind::EndsWith => wrapped_like_left(v),
        WrapKind::StartsWith => wrapped_like_right(v),
    }
}

/// Wraps every value of the list in the given `%` pattern.
fn wrap_all(values: &Vec<SqlValue>, kind: WrapKind) -> (r: Vec<SqlValue>)
    ensures
        r.deep_view() =~= values.deep_view().map_values(|v| wrap_one(kind, v)),
{
    let mut out: Vec<SqlValue> = Vec::new();
    let mut i: usize = 0;
    while i < values.len()
        invariant
            i <= values.len(),
            out.deep_view().len() == i,
            forall|j: int|
                0 <= j < i ==> out.deep_view()[j] == wrap_one(
                    kind,
                    values.deep_view()[j],
                ),
        decreases values.len() - i,
    {
        let v = values[i].duplicate();
        let w = match kind {
            WrapKind::Contains => v.wrap_like(),
            WrapKind::EndsWith => v.wrap_like_left(),
            WrapKind::StartsWith => v.wrap_like_right(),
        };
        let ghost prev = out@;
        let ghost prev_dv = out.deep_view();
        out.push(w);
        proof {
            assert(out@[i as int] == w);
            assert(out.deep_view()[i as int] == w@);
            assert(values.deep_view()[i as int] == values@[i as int]@);
            assert forall|j: int| 0 <= j < i + 1 implies out.deep_view()[j] == wrap_one(
                kind,
                values.deep_view()[j],
            ) by {
                if j < i {
                    assert(out@[j] == prev[j]);
                    assert(out.deep_view()[j] == prev[j].deep_view());
                    assert(prev_dv[j] == prev[j].deep_view());
                    assert(prev_dv[j] == wrap_one(kind, values.deep_view()[j]));
                }
            }
        }
        i += 1;
    }
    out
}

} // verus!
