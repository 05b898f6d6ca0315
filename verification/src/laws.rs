//! The crate's standing properties, stated once and proved from the
//! contracts of the modules they span.

use vstd::prelude::*;
use crate::dtypes::Context;
use crate::expr::ExprV;
use crate::field_infer::spec_exprs_fields;
use crate::plan::{PlanV, spec_groupby_schema, spec_hstack_fields, spec_join_schema,
    spec_melt_schema, spec_schema_of, wf_plan};
use crate::rewrite::{spec_count_alias, spec_fanout, spec_prepare, spec_remove_one, spec_replace,
    spec_rewrite, spec_replace_ok};
use crate::schema::{FieldV, spec_contains_name};
use crate::utils::{NodeKind, spec_has, spec_output_names, spec_rename};

verus! {

/// Schema cache consistency: on a well-formed plan — and the builder
/// only constructs well-formed plans — the schema a node reports is
/// exactly what its derivation rule produces afresh from its children.
pub proof fn lemma_schema_cache_consistent(p: PlanV)
    requires
        wf_plan(p),
    ensures
        match p {
            PlanV::Projection { expr, input, schema } => spec_schema_of(p) == schema
                && spec_exprs_fields(expr, spec_schema_of(*input), Context::Default) == Some(
                schema,
            ),
            PlanV::LocalProjection { expr, input, schema } => spec_schema_of(p) == schema
                && spec_exprs_fields(expr, spec_schema_of(*input), Context::Default) == Some(
                schema,
            ),
            PlanV::Aggregate { input, keys, aggs, schema, .. } => spec_schema_of(p) == schema
                && spec_groupby_schema(spec_schema_of(*input), keys, aggs) == Some(schema),
            PlanV::Join { input_left, input_right, schema, right_on, .. } => spec_schema_of(p)
                == schema && (match spec_output_names(right_on) {
                Some(ns) => schema == spec_join_schema(
                    spec_schema_of(*input_left),
                    spec_schema_of(*input_right),
                    ns,
                ),
                None => false,
            }),
            PlanV::HStack { input, exprs, schema } => spec_schema_of(p) == schema
                && spec_hstack_fields(spec_schema_of(*input), exprs) == Some(schema),
            PlanV::Melt { input, value_vars, schema, .. } => spec_schema_of(p) == schema
                && spec_melt_schema(spec_schema_of(*input), value_vars) == Some(schema),
            PlanV::Selection { input, .. } => spec_schema_of(p) == spec_schema_of(*input),
            PlanV::Cache { input } => spec_schema_of(p) == spec_schema_of(*input),
            PlanV::Distinct { input, .. } => spec_schema_of(p) == spec_schema_of(*input),
            PlanV::Sort { input, .. } => spec_schema_of(p) == spec_schema_of(*input),
            PlanV::Explode { input, .. } => spec_schema_of(p) == spec_schema_of(*input),
            PlanV::Slice { input, .. } => spec_schema_of(p) == spec_schema_of(*input),
            _ => true,
        },
{
}

/// Wildcard fan-out: a single wildcard-bearing expression without a
/// counted wildcard rewrites to exactly one copy per schema field, in
/// schema order, each with the wildcard replaced by that field's column.
pub proof fn lemma_wildcard_fanout(v: ExprV, s: Seq<FieldV>)
    requires
        !(v is Except),
        spec_has(v, NodeKind::Wildcard),
        !spec_has(v, NodeKind::CountAgg),
        spec_replace_ok(v),
    ensures
        spec_rewrite(seq![v], s) == Some(spec_fanout(v, s)),
        spec_fanout(v, s).len() == s.len(),
        forall|i: int|
            0 <= i < s.len() ==> #[trigger] spec_fanout(v, s)[i] == spec_replace(v, s[i].name),
{
    let vs = seq![v];
    assert(vs.drop_last() =~= Seq::<ExprV>::empty());
    assert(vs.last() == v);
    assert(crate::rewrite::spec_emitted(Seq::<ExprV>::empty(), s) == Some(Seq::<ExprV>::empty()));
    assert(crate::rewrite::spec_excluded(Seq::<ExprV>::empty()) == Some(
        Seq::<Seq<char>>::empty(),
    ));
    assert(crate::rewrite::spec_emit_one(v, s) == Some(spec_fanout(v, s)));
    assert(Seq::<ExprV>::empty() + spec_fanout(v, s) =~= spec_fanout(v, s));
    assert(crate::rewrite::spec_emitted(vs, s) == Some(spec_fanout(v, s)));
    assert(crate::rewrite::spec_excluded(vs) == Some(Seq::<Seq<char>>::empty()));
    assert(crate::rewrite::spec_remove_excluded(spec_fanout(v, s), Seq::<Seq<char>>::empty())
        == spec_fanout(v, s));
}

/// Count-wildcard collapse: a counted wildcard rewrites to exactly one
/// expression — the input with the wildcard renamed to the schema's
/// first field — aliased `"count"` unless the user already aliased it.
pub proof fn lemma_count_wildcard_collapse(v: ExprV, s: Seq<FieldV>, renamed: ExprV)
    requires
        !(v is Except),
        spec_has(v, NodeKind::Wildcard),
        spec_has(v, NodeKind::CountAgg),
        s.len() > 0,
        spec_rename(v, s[0].name) == Some(renamed),
    ensures
        spec_rewrite(seq![v], s) == Some(seq![spec_count_alias(renamed)]),
        spec_count_alias(renamed) is Alias,
{
    let vs = seq![v];
    assert(vs.drop_last() =~= Seq::<ExprV>::empty());
    assert(vs.last() == v);
    assert(crate::rewrite::spec_emitted(Seq::<ExprV>::empty(), s) == Some(Seq::<ExprV>::empty()));
    assert(crate::rewrite::spec_excluded(Seq::<ExprV>::empty()) == Some(
        Seq::<Seq<char>>::empty(),
    ));
    assert(crate::rewrite::spec_emit_one(v, s) == Some(seq![spec_count_alias(renamed)]));
    assert(Seq::<ExprV>::empty() + seq![spec_count_alias(renamed)] =~= seq![
        spec_count_alias(renamed),
    ]);
    assert(crate::rewrite::spec_emitted(vs, s) == Some(seq![spec_count_alias(renamed)]));
    assert(crate::rewrite::spec_excluded(vs) == Some(Seq::<Seq<char>>::empty()));
    assert(crate::rewrite::spec_remove_excluded(
        seq![spec_count_alias(renamed)],
        Seq::<Seq<char>>::empty(),
    ) == seq![spec_count_alias(renamed)]);
}

/// Exception removal: a wildcard followed by `except(col(b))` rewrites to
/// the fan-out with the first expression rooted at `b` removed, and
/// nothing else.
pub proof fn lemma_except_removal(b: Seq<char>, s: Seq<FieldV>)
    ensures
        spec_rewrite(seq![ExprV::Wildcard, ExprV::Except(Box::new(ExprV::Column(b)))], s) == Some(
            spec_remove_one(spec_fanout(ExprV::Wildcard, s), b),
        ),
{
    let w = ExprV::Wildcard;
    let ex = ExprV::Except(Box::new(ExprV::Column(b)));
    let vs = seq![w, ex];
    assert(vs.drop_last() =~= seq![w]);
    assert(vs.last() == ex);
    assert(seq![w].drop_last() =~= Seq::<ExprV>::empty());
    assert(seq![w].last() == w);
    assert(crate::rewrite::spec_emitted(Seq::<ExprV>::empty(), s) == Some(Seq::<ExprV>::empty()));
    assert(crate::rewrite::spec_excluded(Seq::<ExprV>::empty()) == Some(
        Seq::<Seq<char>>::empty(),
    ));
    assert(spec_has(w, NodeKind::Wildcard));
    assert(!spec_has(w, NodeKind::CountAgg));
    assert(crate::rewrite::spec_emit_one(w, s) == Some(spec_fanout(w, s)));
    assert(Seq::<ExprV>::empty() + spec_fanout(w, s) =~= spec_fanout(w, s));
    assert(crate::rewrite::spec_emitted(seq![w], s) == Some(spec_fanout(w, s)));
    assert(crate::rewrite::spec_excluded(seq![w]) == Some(Seq::<Seq<char>>::empty()));
    assert(crate::rewrite::spec_emit_one(ex, s) == Some(Seq::<ExprV>::empty()));
    assert(spec_fanout(w, s) + Seq::<ExprV>::empty() =~= spec_fanout(w, s));
    assert(crate::rewrite::spec_emitted(vs, s) == Some(spec_fanout(w, s)));
    assert(Seq::<Seq<char>>::empty().push(b) =~= seq![b]);
    assert(crate::rewrite::spec_excluded(vs) == Some(seq![b]));
    assert(seq![b][0] == b);
    assert(seq![b].drop_first() =~= Seq::<Seq<char>>::empty());
    assert(crate::rewrite::spec_remove_excluded(
        spec_remove_one(spec_fanout(w, s), b),
        Seq::<Seq<char>>::empty(),
    ) == spec_remove_one(spec_fanout(w, s), b));
    assert(crate::rewrite::spec_remove_excluded(spec_fanout(w, s), seq![b])
        == spec_remove_one(spec_fanout(w, s), b));
}

/// An empty projection is a select-all: the canonical list and its schema
/// are empty, so the builder hands the plan back unchanged.
pub proof fn lemma_empty_projection_identity(s: Seq<FieldV>)
    ensures
        spec_prepare(Seq::empty(), s) == Some((Seq::<ExprV>::empty(), Seq::<FieldV>::empty())),
{
}

/// Join name collision: a right field named like a left column, and not a
/// join key, appears in the join schema renamed with `_right` and with
/// its own dtype.
pub proof fn lemma_join_name_collision(
    left: Seq<FieldV>,
    right: Seq<FieldV>,
    right_on: Seq<Seq<char>>,
    i: int,
)
    requires
        0 <= i < right.len(),
        !right_on.contains(right[i].name),
        spec_contains_name(left, right[i].name),
    ensures
        spec_join_schema(left, right, right_on).contains(
            FieldV { name: right[i].name + "_right"@, dtype: right[i].dtype },
        ),
    decreases right.len(),
{
    let f = FieldV { name: right[i].name + "_right"@, dtype: right[i].dtype };
    lemma_join_right_membership(left, right, right_on, i);
    let rf = crate::plan::spec_join_right_fields(left, right, right_on);
    let k = choose|k: int| 0 <= k < rf.len() && rf[k] == f;
    assert(spec_join_schema(left, right, right_on)[left.len() + k] == f);
}

/// The right field list of a join keeps every renamed collision.
proof fn lemma_join_right_membership(
    left: Seq<FieldV>,
    right: Seq<FieldV>,
    right_on: Seq<Seq<char>>,
    i: int,
)
    requires
        0 <= i < right.len(),
        !right_on.contains(right[i].name),
        spec_contains_name(left, right[i].name),
    ensures
        crate::plan::spec_join_right_fields(left, right, right_on).contains(
            FieldV { name: right[i].name + "_right"@, dtype: right[i].dtype },
        ),
    decreases right.len(),
{
    let f = FieldV { name: right[i].name + "_right"@, dtype: right[i].dtype };
    if i == right.len() - 1 {
        let rest = crate::plan::spec_join_right_fields(left, right.drop_last(), right_on);
        assert(crate::plan::spec_join_right_fields(left, right, right_on) == rest.push(f));
        assert(rest.push(f)[rest.len() as int] == f);
    } else {
        assert(right.drop_last()[i] == right[i]);
        lemma_join_right_membership(left, right.drop_last(), right_on, i);
        let rest = crate::plan::spec_join_right_fields(left, right.drop_last(), right_on);
        let k = choose|k: int| 0 <= k < rest.len() && rest[k] == f;
        let whole = crate::plan::spec_join_right_fields(left, right, right_on);
        assert(whole[k] == f);
        assert(whole.contains(f));
    }
}

/// The description of a plan is a function of the tree alone: two
/// renderings of one tree are the same string.
pub proof fn lemma_describe_pure(p: PlanV, a: Seq<char>, b: Seq<char>)
    requires
        a == crate::format::spec_describe(p),
        b == crate::format::spec_describe(p),
    ensures
        a == b,
{
}

/// A graph rendering that starts at the root opens with the Graphviz
/// header line, whatever the tree.
pub proof fn lemma_dot_header(p: PlanV, branch: usize, prev: Seq<char>)
    ensures
        crate::format::spec_dot(p, branch, 0, prev).take(22) == "graph  polars_query {\n"@,
{
    reveal_strlit("graph  polars_query {\n");
    let header = "graph  polars_query {\n"@;
    let whole = crate::format::spec_dot(p, branch, 0, prev);
    assert(whole.take(22) =~= header) by {
        assert(crate::format::spec_write_dot(prev, crate::format::spec_dot_label(p, branch, 0), 0)
            == header);
    }
}

} // verus!

verus! {

/// Each subtree's graph text opens with its own header-or-edge line: at
/// the root the graph header, elsewhere an edge quoting the parent's
/// label and this node's label.  Since every recursive call passes the
/// parent's own label down, each emitted edge connects two node labels
/// of the tree.
pub proof fn lemma_dot_opens_with_own_edge(p: PlanV, branch: usize, id: usize, prev: Seq<char>)
    ensures
        exists|tail: Seq<char>|
            crate::format::spec_dot(p, branch, id, prev) == crate::format::spec_write_dot(
                prev,
                crate::format::spec_dot_label(p, branch, id),
                id,
            ) + tail,
{
    let wd = crate::format::spec_write_dot(prev, crate::format::spec_dot_label(p, branch, id), id);
    let whole = crate::format::spec_dot(p, branch, id, prev);
    let tail = whole.skip(wd.len() as int);
    match p {
        PlanV::CsvScan { .. } => {
            assert(wd + tail =~= whole);
        },
        PlanV::ParquetScan { .. } => {
            assert(wd + tail =~= whole);
        },
        PlanV::DataFrameScan { .. } => {
            assert(wd + tail =~= whole);
        },
        PlanV::Join { .. } => {
            assert(wd + tail =~= whole);
        },
        PlanV::Cache { .. } => {
            assert(wd + tail =~= whole);
        },
        PlanV::Selection { .. } => {
            assert(wd + tail =~= whole);
        },
        PlanV::LocalProjection { .. } => {
            assert(wd + tail =~= whole);
        },
        PlanV::Projection { .. } => {
            assert(wd + tail =~= whole);
        },
        PlanV::Aggregate { .. } => {
            assert(wd + tail =~= whole);
        },
        PlanV::HStack { .. } => {
            assert(wd + tail =~= whole);
        },
        PlanV::Distinct { .. } => {
            assert(wd + tail =~= whole);
        },
        PlanV::Sort { .. } => {
            assert(wd + tail =~= whole);
        },
        PlanV::Explode { .. } => {
            assert(wd + tail =~= whole);
        },
        PlanV::Slice { .. } => {
            assert(wd + tail =~= whole);
        },
        PlanV::Melt { .. } => {
            assert(wd + tail =~= whole);
        },
        PlanV::Udf { .. } => {
            assert(wd + tail =~= whole);
        },
    }
}

} // verus!
