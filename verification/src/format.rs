//! Rendering of plans: decimal numbers, expression debug strings, the
//! nested plan description and the Graphviz graph.

use vstd::prelude::*;
use vstd::string::{StrSliceExecFns, StringExecFns};
use crate::dtypes::{DataType, Operator};
use crate::expr::{AggExpr, AggExprV, Expr, ExprV, view_agg, view_expr, view_exprs};
use crate::literal::{LiteralValue, LiteralV};

verus! {

/// The decimal digit character of `d`, for `0 <= d <= 9`.
pub open spec fn spec_digit(d: int) -> char {
    if d == 0 {
        '0'
    } else if d == 1 {
        '1'
    } else if d == 2 {
        '2'
    } else if d == 3 {
        '3'
    } else if d == 4 {
        '4'
    } else if d == 5 {
        '5'
    } else if d == 6 {
        '6'
    } else if d == 7 {
        '7'
    } else if d == 8 {
        '8'
    } else {
        '9'
    }
}

/// The decimal rendering of a natural number, most significant digit
/// first.
pub open spec fn spec_u64_str(n: int) -> Seq<char>
    decreases n,
{
    if n < 10 {
        seq![spec_digit(n)]
    } else {
        spec_u64_str(n / 10) + seq![spec_digit(n % 10)]
    }
}

/// The decimal rendering of a signed number.
pub open spec fn spec_i64_str(n: int) -> Seq<char> {
    if n < 0 {
        seq!['-'] + spec_u64_str(-n)
    } else {
        spec_u64_str(n)
    }
}

/// The one-character string of a decimal digit.
fn digit_str(d: u64) -> (r: &'static str)
    requires
        d <= 9,
    ensures
        r@ == seq![spec_digit(d as int)],
{
    proof {
        reveal_strlit("0");
        reveal_strlit("1");
        reveal_strlit("2");
        reveal_strlit("3");
        reveal_strlit("4");
        reveal_strlit("5");
        reveal_strlit("6");
        reveal_strlit("7");
        reveal_strlit("8");
        reveal_strlit("9");
    }
    if d == 0 {
        "0"
    } else if d == 1 {
        "1"
    } else if d == 2 {
        "2"
    } else if d == 3 {
        "3"
    } else if d == 4 {
        "4"
    } else if d == 5 {
        "5"
    } else if d == 6 {
        "6"
    } else if d == 7 {
        "7"
    } else if d == 8 {
        "8"
    } else {
        "9"
    }
}

/// The decimal rendering of `n`.
pub fn u64_string(n: u64) -> (r: String)
    ensures
        r@ == spec_u64_str(n as int),
    decreases n,
{
    if n < 10 {
        String::from_str(digit_str(n))
    } else {
        u64_string(n / 10).concat(digit_str(n % 10))
    }
}

/// The decimal rendering of `n`.
pub fn usize_string(n: usize) -> (r: String)
    ensures
        r@ == spec_u64_str(n as int),
{
    u64_string(n as u64)
}

/// The decimal rendering of a signed `n`.
pub fn i64_string(n: i64) -> (r: String)
    ensures
        r@ == spec_i64_str(n as int),
{
    if n < 0 {
        let mag: u64 = if n == i64::MIN {
            9223372036854775808u64
        } else {
            (-n) as u64
        };
        assert(mag == -(n as int));
        proof {
            reveal_strlit("-");
            assert("-"@ =~= seq!['-']);
        }
        String::from_str("-").concat(u64_string(mag).as_str())
    } else {
        u64_string(n as u64)
    }
}

/// The rendering of a boolean.
pub open spec fn spec_bool_str(b: bool) -> Seq<char> {
    if b {
        "true"@
    } else {
        "false"@
    }
}

/// Executable twin of [`spec_bool_str`].
pub fn bool_str(b: bool) -> (r: &'static str)
    ensures
        r@ == spec_bool_str(b),
{
    if b {
        "true"
    } else {
        "false"
    }
}

/// The symbol of a binary operator.
pub open spec fn spec_op_str(op: Operator) -> Seq<char> {
    match op {
        Operator::Eq => "=="@,
        Operator::NotEq => "!="@,
        Operator::Lt => "<"@,
        Operator::LtEq => "<="@,
        Operator::Gt => ">"@,
        Operator::GtEq => ">="@,
        Operator::Plus => "+"@,
        Operator::Minus => "-"@,
        Operator::Multiply => "*"@,
        Operator::Divide => "/"@,
        Operator::Modulus => "%"@,
        Operator::And => "&"@,
        Operator::Or => "|"@,
    }
}

/// Executable twin of [`spec_op_str`].
fn op_str(op: Operator) -> (r: &'static str)
    ensures
        r@ == spec_op_str(op),
{
    match op {
        Operator::Eq => "==",
        Operator::NotEq => "!=",
        Operator::Lt => "<",
        Operator::LtEq => "<=",
        Operator::Gt => ">",
        Operator::GtEq => ">=",
        Operator::Plus => "+",
        Operator::Minus => "-",
        Operator::Multiply => "*",
        Operator::Divide => "/",
        Operator::Modulus => "%",
        Operator::And => "&",
        Operator::Or => "|",
    }
}

/// The name of a data type.
pub open spec fn spec_dtype_str(dt: DataType) -> Seq<char> {
    match dt {
        DataType::Boolean => "Boolean"@,
        DataType::UInt8 => "UInt8"@,
        DataType::UInt16 => "UInt16"@,
        DataType::UInt32 => "UInt32"@,
        DataType::UInt64 => "UInt64"@,
        DataType::Int8 => "Int8"@,
        DataType::Int16 => "Int16"@,
        DataType::Int32 => "Int32"@,
        DataType::Int64 => "Int64"@,
        DataType::Float32 => "Float32"@,
        DataType::Float64 => "Float64"@,
        DataType::Utf8 => "Utf8"@,
        DataType::Date64 => "Date64"@,
        DataType::List => "List"@,
        DataType::Null => "Null"@,
    }
}

/// Executable twin of [`spec_dtype_str`].
pub fn dtype_str(dt: DataType) -> (r: &'static str)
    ensures
        r@ == spec_dtype_str(dt),
{
    match dt {
        DataType::Boolean => "Boolean",
        DataType::UInt8 => "UInt8",
        DataType::UInt16 => "UInt16",
        DataType::UInt32 => "UInt32",
        DataType::UInt64 => "UInt64",
        DataType::Int8 => "Int8",
        DataType::Int16 => "Int16",
        DataType::Int32 => "Int32",
        DataType::Int64 => "Int64",
        DataType::Float32 => "Float32",
        DataType::Float64 => "Float64",
        DataType::Utf8 => "Utf8",
        DataType::Date64 => "Date64",
        DataType::List => "List",
        DataType::Null => "Null",
    }
}

/// The debug rendering of a literal.  The float variants show the raw
/// bit pattern of the value, which the plan carries in place of the
/// number itself.
pub open spec fn spec_lit_dbg(l: LiteralV) -> Seq<char> {
    match l {
        LiteralV::Null => "null"@,
        LiteralV::Boolean(b) => spec_bool_str(b),
        LiteralV::Utf8(s) => "Utf8(\""@ + s + "\")"@,
        LiteralV::UInt8(v) => spec_u64_str(v as int) + "u8"@,
        LiteralV::UInt16(v) => spec_u64_str(v as int) + "u16"@,
        LiteralV::UInt32(v) => spec_u64_str(v as int) + "u32"@,
        LiteralV::UInt64(v) => spec_u64_str(v as int) + "u64"@,
        LiteralV::Int8(v) => spec_i64_str(v as int) + "i8"@,
        LiteralV::Int16(v) => spec_i64_str(v as int) + "i16"@,
        LiteralV::Int32(v) => spec_i64_str(v as int) + "i32"@,
        LiteralV::Int64(v) => spec_i64_str(v as int) + "i64"@,
        LiteralV::Float32(bits) => "Float32(bits "@ + spec_u64_str(bits as int) + ")"@,
        LiteralV::Float64(bits) => "Float64(bits "@ + spec_u64_str(bits as int) + ")"@,
        LiteralV::Range { low, high, .. } => "Range("@ + spec_i64_str(low as int) + ".."@
            + spec_i64_str(high as int) + ")"@,
        LiteralV::DateTime(v) => "DateTime("@ + spec_i64_str(v as int) + ")"@,
        LiteralV::Series { name, .. } => "Series(\""@ + name + "\")"@,
    }
}

/// Executable twin of [`spec_lit_dbg`].
pub fn lit_dbg(l: &LiteralValue) -> (r: String)
    ensures
        r@ == spec_lit_dbg(l@),
{
    match l {
        LiteralValue::Null => String::from_str("null"),
        LiteralValue::Boolean(b) => String::from_str(bool_str(*b)),
        LiteralValue::Utf8(s) => String::from_str("Utf8(\"").concat(s.as_str()).concat("\")"),
        LiteralValue::UInt8(v) => u64_string(*v as u64).concat("u8"),
        LiteralValue::UInt16(v) => u64_string(*v as u64).concat("u16"),
        LiteralValue::UInt32(v) => u64_string(*v as u64).concat("u32"),
        LiteralValue::UInt64(v) => u64_string(*v).concat("u64"),
        LiteralValue::Int8(v) => i64_string(*v as i64).concat("i8"),
        LiteralValue::Int16(v) => i64_string(*v as i64).concat("i16"),
        LiteralValue::Int32(v) => i64_string(*v as i64).concat("i32"),
        LiteralValue::Int64(v) => i64_string(*v).concat("i64"),
        LiteralValue::Float32(bits) => String::from_str("Float32(bits ").concat(
            u64_string(*bits as u64).as_str(),
        ).concat(")"),
        LiteralValue::Float64(bits) => String::from_str("Float64(bits ").concat(
            u64_string(*bits).as_str(),
        ).concat(")"),
        LiteralValue::Range { low, high, .. } => String::from_str("Range(").concat(
            i64_string(*low).as_str(),
        ).concat("..").concat(i64_string(*high).as_str()).concat(")"),
        LiteralValue::DateTime(v) => String::from_str("DateTime(").concat(
            i64_string(*v).as_str(),
        ).concat(")"),
        LiteralValue::Series { name, .. } => String::from_str("Series(\"").concat(
            name.as_str(),
        ).concat("\")"),
    }
}

} // verus!

verus! {

/// The debug rendering of an aggregation: its input followed by the
/// aggregation's method name.
pub open spec fn spec_dbg_agg(a: AggExprV) -> Seq<char>
    decreases a,
{
    match a {
        AggExprV::Min(e) => spec_dbg_expr(*e) + ".min()"@,
        AggExprV::Max(e) => spec_dbg_expr(*e) + ".max()"@,
        AggExprV::Median(e) => spec_dbg_expr(*e) + ".median()"@,
        AggExprV::NUnique(e) => spec_dbg_expr(*e) + ".n_unique()"@,
        AggExprV::First(e) => spec_dbg_expr(*e) + ".first()"@,
        AggExprV::Last(e) => spec_dbg_expr(*e) + ".last()"@,
        AggExprV::Mean(e) => spec_dbg_expr(*e) + ".mean()"@,
        AggExprV::List(e) => spec_dbg_expr(*e) + ".agg_list()"@,
        AggExprV::Count(e) => spec_dbg_expr(*e) + ".count()"@,
        AggExprV::Quantile { expr, .. } => spec_dbg_expr(*expr) + ".quantile()"@,
        AggExprV::Sum(e) => spec_dbg_expr(*e) + ".sum()"@,
        AggExprV::AggGroups(e) => spec_dbg_expr(*e) + ".agg_groups()"@,
        AggExprV::Std(e) => spec_dbg_expr(*e) + ".std()"@,
        AggExprV::Var(e) => spec_dbg_expr(*e) + ".var()"@,
    }
}

/// The debug rendering of an expression, in builder style: columns as
/// `col("name")`, binary expressions bracketed, method-style wrappers.
pub open spec fn spec_dbg_expr(v: ExprV) -> Seq<char>
    decreases v,
{
    match v {
        ExprV::Column(n) => "col(\""@ + n + "\")"@,
        ExprV::Literal(l) => spec_lit_dbg(l),
        ExprV::Wildcard => "*"@,
        ExprV::Alias(e, n) => spec_dbg_expr(*e) + ".alias(\""@ + n + "\")"@,
        ExprV::BinaryExpr { left, op, right } => "[("@ + spec_dbg_expr(*left) + ") "@ + spec_op_str(
            op,
        ) + " ("@ + spec_dbg_expr(*right) + ")]"@,
        ExprV::Not(e) => "not("@ + spec_dbg_expr(*e) + ")"@,
        ExprV::IsNull(e) => spec_dbg_expr(*e) + ".is_null()"@,
        ExprV::IsNotNull(e) => spec_dbg_expr(*e) + ".is_not_null()"@,
        ExprV::IsUnique(e) => spec_dbg_expr(*e) + ".is_unique()"@,
        ExprV::Duplicated(e) => spec_dbg_expr(*e) + ".is_duplicated()"@,
        ExprV::Reverse(e) => spec_dbg_expr(*e) + ".reverse()"@,
        ExprV::Explode(e) => spec_dbg_expr(*e) + ".explode()"@,
        ExprV::Cast { expr, data_type } => spec_dbg_expr(*expr) + ".cast("@ + spec_dtype_str(
            data_type,
        ) + ")"@,
        ExprV::Sort { expr, reverse } => spec_dbg_expr(*expr) + ".sort("@ + spec_bool_str(reverse)
            + ")"@,
        ExprV::SortBy { expr, by, reverse } => spec_dbg_expr(*expr) + ".sort_by("@ + spec_dbg_expr(
            *by,
        ) + ", "@ + spec_bool_str(reverse) + ")"@,
        ExprV::Take { expr, idx } => spec_dbg_expr(*expr) + ".take("@ + spec_dbg_expr(*idx) + ")"@,
        ExprV::Shift { input, periods } => spec_dbg_expr(*input) + ".shift("@ + spec_i64_str(
            periods as int,
        ) + ")"@,
        ExprV::Slice { input, offset, length } => spec_dbg_expr(*input) + ".slice("@
            + spec_i64_str(offset as int) + ", "@ + spec_u64_str(length as int) + ")"@,
        ExprV::Ternary { predicate, truthy, falsy } => "when("@ + spec_dbg_expr(*predicate)
            + ").then("@ + spec_dbg_expr(*truthy) + ").otherwise("@ + spec_dbg_expr(*falsy) + ")"@,
        ExprV::Window { function, partition_by, .. } => spec_dbg_expr(*function) + ".over("@
            + spec_dbg_expr(*partition_by) + ")"@,
        ExprV::Filter { input, by } => spec_dbg_expr(*input) + ".filter("@ + spec_dbg_expr(*by)
            + ")"@,
        ExprV::Except(e) => "except("@ + spec_dbg_expr(*e) + ")"@,
        ExprV::Function { inputs, .. } => "udf("@ + spec_dbg_exprs_inner(inputs) + ")"@,
        ExprV::BinaryFunction { input_a, input_b, .. } => "binary_udf("@ + spec_dbg_expr(*input_a)
            + ", "@ + spec_dbg_expr(*input_b) + ")"@,
        ExprV::Agg(a) => spec_dbg_agg(a),
    }
}

/// The comma-joined debug renderings of `s`, without brackets.
pub open spec fn spec_dbg_exprs_inner(s: Seq<ExprV>) -> Seq<char>
    decreases s,
{
    if s.len() == 0 {
        Seq::empty()
    } else if s.len() == 1 {
        spec_dbg_expr(s[0])
    } else {
        spec_dbg_exprs_inner(s.drop_last()) + ", "@ + spec_dbg_expr(s.last())
    }
}

/// The debug rendering of an expression list, bracketed.
pub open spec fn spec_dbg_exprs(s: Seq<ExprV>) -> Seq<char> {
    "["@ + spec_dbg_exprs_inner(s) + "]"@
}

/// Executable twin of [`spec_dbg_agg`].
fn agg_dbg(a: &AggExpr) -> (r: String)
    ensures
        r@ == spec_dbg_agg(view_agg(*a)),
    decreases a,
{
    match a {
        AggExpr::Min(e) => expr_dbg(e).concat(".min()"),
        AggExpr::Max(e) => expr_dbg(e).concat(".max()"),
        AggExpr::Median(e) => expr_dbg(e).concat(".median()"),
        AggExpr::NUnique(e) => expr_dbg(e).concat(".n_unique()"),
        AggExpr::First(e) => expr_dbg(e).concat(".first()"),
        AggExpr::Last(e) => expr_dbg(e).concat(".last()"),
        AggExpr::Mean(e) => expr_dbg(e).concat(".mean()"),
        AggExpr::List(e) => expr_dbg(e).concat(".agg_list()"),
        AggExpr::Count(e) => expr_dbg(e).concat(".count()"),
        AggExpr::Quantile { expr, .. } => expr_dbg(expr).concat(".quantile()"),
        AggExpr::Sum(e) => expr_dbg(e).concat(".sum()"),
        AggExpr::AggGroups(e) => expr_dbg(e).concat(".agg_groups()"),
        AggExpr::Std(e) => expr_dbg(e).concat(".std()"),
        AggExpr::Var(e) => expr_dbg(e).concat(".var()"),
    }
}

/// Executable twin of [`spec_dbg_expr`].
#[verifier::rlimit(100)]
pub fn expr_dbg(e: &Expr) -> (r: String)
    ensures
        r@ == spec_dbg_expr(e@),
    decreases e, 1int,
{
    match e {
        Expr::Column(n) => String::from_str("col(\"").concat(n.as_str()).concat("\")"),
        Expr::Literal(l) => lit_dbg(l),
        Expr::Wildcard => String::from_str("*"),
        Expr::Alias(x, n) => expr_dbg(x).concat(".alias(\"").concat(n.as_str()).concat("\")"),
        Expr::BinaryExpr { left, op, right } => String::from_str("[(").concat(
            expr_dbg(left).as_str(),
        ).concat(") ").concat(op_str(*op)).concat(" (").concat(expr_dbg(right).as_str()).concat(
            ")]",
        ),
        Expr::Not(x) => String::from_str("not(").concat(expr_dbg(x).as_str()).concat(")"),
        Expr::IsNull(x) => expr_dbg(x).concat(".is_null()"),
        Expr::IsNotNull(x) => expr_dbg(x).concat(".is_not_null()"),
        Expr::IsUnique(x) => expr_dbg(x).concat(".is_unique()"),
        Expr::Duplicated(x) => expr_dbg(x).concat(".is_duplicated()"),
        Expr::Reverse(x) => expr_dbg(x).concat(".reverse()"),
        Expr::Explode(x) => expr_dbg(x).concat(".explode()"),
        Expr::Cast { expr, data_type } => expr_dbg(expr).concat(".cast(").concat(
            dtype_str(*data_type),
        ).concat(")"),
        Expr::Sort { expr, reverse } => expr_dbg(expr).concat(".sort(").concat(
            bool_str(*reverse),
        ).concat(")"),
        Expr::SortBy { expr, by, reverse } => expr_dbg(expr).concat(".sort_by(").concat(
            expr_dbg(by).as_str(),
        ).concat(", ").concat(bool_str(*reverse)).concat(")"),
        Expr::Take { expr, idx } => expr_dbg(expr).concat(".take(").concat(
            expr_dbg(idx).as_str(),
        ).concat(")"),
        Expr::Shift { input, periods } => expr_dbg(input).concat(".shift(").concat(
            i64_string(*periods).as_str(),
        ).concat(")"),
        Expr::Slice { input, offset, length } => expr_dbg(input).concat(".slice(").concat(
            i64_string(*offset).as_str(),
        ).concat(", ").concat(usize_string(*length).as_str()).concat(")"),
        Expr::Ternary { predicate, truthy, falsy } => String::from_str("when(").concat(
            expr_dbg(predicate).as_str(),
        ).concat(").then(").concat(expr_dbg(truthy).as_str()).concat(").otherwise(").concat(
            expr_dbg(falsy).as_str(),
        ).concat(")"),
        Expr::Window { function, partition_by, .. } => expr_dbg(function).concat(".over(").concat(
            expr_dbg(partition_by).as_str(),
        ).concat(")"),
        Expr::Filter { input, by } => expr_dbg(input).concat(".filter(").concat(
            expr_dbg(by).as_str(),
        ).concat(")"),
        Expr::Except(x) => String::from_str("except(").concat(expr_dbg(x).as_str()).concat(")"),
        Expr::Function { inputs, .. } => {
            proof {
                let g: Expr = *e;
                assert(decreases_to!(g => g->inputs));
            }
            String::from_str("udf(").concat(exprs_dbg_inner(inputs).as_str()).concat(")")
        },
        Expr::BinaryFunction { input_a, input_b, .. } => String::from_str("binary_udf(").concat(
            expr_dbg(input_a).as_str(),
        ).concat(", ").concat(expr_dbg(input_b).as_str()).concat(")"),
        Expr::Agg(a) => agg_dbg(a),
    }
}

/// Executable twin of [`spec_dbg_exprs_inner`].
fn exprs_dbg_inner(es: &Vec<Expr>) -> (r: String)
    ensures
        r@ == spec_dbg_exprs_inner(view_exprs(es@)),
    decreases es, 0int,
{
    let mut out = String::new();
    let mut i: usize = 0;
    proof {
        crate::expr::lemma_view_exprs_len(es@);
        assert(view_exprs(es@.take(0)) =~= Seq::<ExprV>::empty());
        assert(out@ =~= spec_dbg_exprs_inner(view_exprs(es@.take(0))));
    }
    while i < es.len()
        invariant
            0 <= i <= es.len(),
            view_exprs(es@).len() == es@.len(),
            out@ == spec_dbg_exprs_inner(view_exprs(es@.take(i as int))),
        decreases es.len() - i,
    {
        proof {
            vstd::std_specs::vec::axiom_vec_index_decreases::<Expr>(*es, i as int);
        }
        let ghost t = view_exprs(es@.take(i as int));
        proof {
            crate::expr::lemma_view_exprs_len(es@.take(i as int));
            assert(es@.take(i + 1).drop_last() =~= es@.take(i as int));
            assert(es@.take(i + 1).last() == es@[i as int]);
            assert(view_exprs(es@.take(i + 1)) == t.push(view_expr(es@[i as int])));
            assert(view_exprs(es@.take(i + 1)).drop_last() =~= t);
        }
        if i > 0 {
            out.append(", ");
        }
        let d = expr_dbg(&es[i]);
        out.append(d.as_str());
        i += 1;
    }
    proof {
        assert(es@.take(es@.len() as int) =~= es@);
    }
    out
}

/// The bracketed debug rendering of an expression list.
pub fn exprs_dbg(es: &Vec<Expr>) -> (r: String)
    ensures
        r@ == spec_dbg_exprs(view_exprs(es@)),
{
    String::from_str("[").concat(exprs_dbg_inner(es).as_str()).concat("]")
}

/// The quoted, comma-joined rendering of a name list, bracketed.
pub open spec fn spec_dbg_strs(s: Seq<Seq<char>>) -> Seq<char> {
    "["@ + spec_dbg_strs_inner(s) + "]"@
}

/// The quoted, comma-joined rendering of a name list.
pub open spec fn spec_dbg_strs_inner(s: Seq<Seq<char>>) -> Seq<char>
    decreases s,
{
    if s.len() == 0 {
        Seq::empty()
    } else if s.len() == 1 {
        "\""@ + s[0] + "\""@
    } else {
        spec_dbg_strs_inner(s.drop_last()) + ", \""@ + s.last() + "\""@
    }
}

/// Executable twin of [`spec_dbg_strs`].
pub fn strs_dbg(names: &Vec<String>) -> (r: String)
    ensures
        r@ == spec_dbg_strs(crate::utils::view_strs(names@)),
{
    let ghost vs = crate::utils::view_strs(names@);
    let mut out = String::from_str("[");
    let mut i: usize = 0;
    proof {
        assert(vs.take(0) =~= Seq::<Seq<char>>::empty());
        assert(out@ =~= "["@ + spec_dbg_strs_inner(vs.take(0)));
    }
    while i < names.len()
        invariant
            0 <= i <= names.len(),
            vs == crate::utils::view_strs(names@),
            vs.len() == names@.len(),
            out@ == "["@ + spec_dbg_strs_inner(vs.take(i as int)),
        decreases names.len() - i,
    {
        proof {
            assert(vs.take(i + 1).drop_last() =~= vs.take(i as int));
            assert(vs.take(i + 1).last() == vs[i as int]);
            assert(vs[i as int] == names@[i as int]@);
        }
        if i > 0 {
            out.append(", \"");
        } else {
            out.append("\"");
        }
        out.append(names[i].as_str());
        out.append("\"");
        i += 1;
    }
    proof {
        assert(vs.take(vs.len() as int) =~= vs);
    }
    out.concat("]")
}

/// The debug rendering of an optional expression.
pub open spec fn spec_opt_expr_dbg(o: Option<ExprV>) -> Seq<char> {
    match o {
        None => "None"@,
        Some(v) => "Some("@ + spec_dbg_expr(v) + ")"@,
    }
}

/// Executable twin of [`spec_opt_expr_dbg`].
pub fn opt_expr_dbg(o: Option<&Expr>) -> (r: String)
    ensures
        r@ == spec_opt_expr_dbg(match o {
            Some(e) => Some(e@),
            None => None,
        }),
{
    match o {
        None => String::from_str("None"),
        Some(e) => String::from_str("Some(").concat(expr_dbg(e).as_str()).concat(")"),
    }
}

} // verus!

verus! {

/// `s` with every square bracket removed.
pub open spec fn spec_strip(s: Seq<char>) -> Seq<char>
    decreases s.len(),
{
    if s.len() == 0 {
        Seq::empty()
    } else {
        spec_strip(s.drop_last()) + (if s.last() == '[' || s.last() == ']' {
            Seq::empty()
        } else {
            seq![s.last()]
        })
    }
}

/// `s` clipped to 25 characters, with an ellipsis when clipped.
pub open spec fn spec_clip(s: Seq<char>) -> Seq<char> {
    if s.len() > 25 {
        s.take(25) + "..."@
    } else {
        s
    }
}

/// The rendering of an optional predicate for a graph label: a dash for
/// none, else the debug string with brackets stripped and clipped to 25
/// characters.
pub open spec fn spec_fmt_predicate(o: Option<ExprV>) -> Seq<char> {
    match o {
        None => "-"@,
        Some(v) => spec_clip(spec_strip(spec_dbg_expr(v))),
    }
}

/// Executable twin of [`spec_fmt_predicate`].
#[verifier::loop_isolation(false)]
pub fn fmt_predicate(predicate: Option<&Expr>) -> (r: String)
    ensures
        r@ == spec_fmt_predicate(match predicate {
            Some(e) => Some(e@),
            None => None,
        }),
{
    match predicate {
        None => String::from_str("-"),
        Some(e) => {
            let d = expr_dbg(e);
            let n = d.as_str().unicode_len();
            let mut stripped = String::new();
            let mut i: usize = 0;
            proof {
                assert(d@.take(0) =~= Seq::<char>::empty());
                assert(stripped@ =~= spec_strip(d@.take(0)));
            }
            while i < n
                invariant
                    0 <= i <= n,
                    n == d@.len(),
                    stripped@ == spec_strip(d@.take(i as int)),
                decreases n - i,
            {
                let c = d.as_str().get_char(i);
                proof {
                    assert(d@.take(i + 1).drop_last() =~= d@.take(i as int));
                    assert(d@.take(i + 1).last() == d@[i as int]);
                }
                if c != '[' && c != ']' {
                    let piece = d.as_str().substring_char(i, i + 1);
                    proof {
                        assert(piece@ =~= seq![d@[i as int]]);
                    }
                    stripped.append(piece);
                }
                i += 1;
            }
            proof {
                assert(d@.take(d@.len() as int) =~= d@);
            }
            let m = stripped.as_str().unicode_len();
            if m > 25 {
                let head = stripped.as_str().substring_char(0, 25);
                proof {
                    assert(head@ =~= stripped@.take(25));
                }
                String::from_str(head).concat("...")
            } else {
                stripped
            }
        },
    }
}

} // verus!

verus! {

/// A column count shown in a scan header: `*` for a full projection,
/// else the list's length.
pub open spec fn spec_ncols_exprs(o: Option<Seq<ExprV>>) -> Seq<char> {
    match o {
        None => "*"@,
        Some(v) => spec_u64_str(v.len() as int),
    }
}

/// As [`spec_ncols_exprs`], for a name list.
pub open spec fn spec_ncols_strs(o: Option<Seq<Seq<char>>>) -> Seq<char> {
    match o {
        None => "*"@,
        Some(v) => spec_u64_str(v.len() as int),
    }
}

/// The names of the fields of `s`, in order.
pub open spec fn spec_schema_names(s: Seq<crate::schema::FieldV>) -> Seq<Seq<char>> {
    Seq::new(s.len(), |i: int| s[i].name)
}

/// At most the first four field names, as a debug list.
pub open spec fn spec_names_preview(s: Seq<crate::schema::FieldV>) -> Seq<char> {
    if s.len() <= 4 {
        spec_dbg_strs(spec_schema_names(s))
    } else {
        spec_dbg_strs(spec_schema_names(s).take(4))
    }
}

/// The nested description of a plan, as [`crate::plan::LogicalPlan::describe`]
/// renders it.
pub open spec fn spec_describe(p: crate::plan::PlanV) -> Seq<char>
    decreases p,
{
    match p {
        crate::plan::PlanV::Cache { input } => "CACHE "@ + spec_describe(*input),
        crate::plan::PlanV::ParquetScan { path, schema, with_columns, predicate, .. } =>
            "PARQUET SCAN "@ + path + "; PROJECT "@ + spec_ncols_strs(with_columns) + "/"@
            + spec_u64_str(schema.len() as int) + " COLUMNS; SELECTION: "@ + spec_opt_expr_dbg(
            predicate,
        ),
        crate::plan::PlanV::Selection { input, predicate } => "FILTER\n\t"@ + spec_dbg_expr(
            predicate,
        ) + "\nFROM\n\t"@ + spec_describe(*input),
        crate::plan::PlanV::Melt { input, .. } => "MELT\n\t"@ + spec_describe(*input),
        crate::plan::PlanV::CsvScan { path, schema, with_columns, predicate, .. } => "CSV SCAN "@
            + path + "; PROJECT "@ + spec_ncols_strs(with_columns) + "/"@ + spec_u64_str(
            schema.len() as int,
        ) + " COLUMNS; SELECTION: "@ + spec_opt_expr_dbg(predicate),
        crate::plan::PlanV::DataFrameScan { schema, projection, selection } => "TABLE: "@
            + spec_names_preview(schema) + "; PROJECT "@ + spec_ncols_exprs(projection) + "/"@
            + spec_u64_str(schema.len() as int) + " COLUMNS; SELECTION: "@ + spec_opt_expr_dbg(
            selection,
        ),
        crate::plan::PlanV::Projection { expr, input, .. } => "SELECT "@ + spec_u64_str(
            expr.len() as int,
        ) + " COLUMNS \nFROM\n"@ + spec_describe(*input),
        crate::plan::PlanV::LocalProjection { expr, input, .. } => "LOCAL SELECT "@ + spec_u64_str(
            expr.len() as int,
        ) + " COLUMNS \nFROM\n"@ + spec_describe(*input),
        crate::plan::PlanV::Sort { input, by_column, .. } => "SORT "@ + spec_describe(*input)
            + " BY "@ + spec_dbg_exprs(by_column),
        crate::plan::PlanV::Explode { input, columns } => "EXPLODE COLUMN(S) "@ + spec_dbg_strs(
            columns,
        ) + " OF "@ + spec_describe(*input),
        crate::plan::PlanV::Aggregate { input, keys, aggs, .. } => "Aggregate\n\t"@
            + spec_dbg_exprs(aggs) + " BY "@ + spec_dbg_exprs(keys) + " FROM "@ + spec_describe(
            *input,
        ),
        crate::plan::PlanV::Join { input_left, input_right, left_on, right_on, .. } => "JOIN\n\t("@
            + spec_describe(*input_left) + ")\nWITH\n\t("@ + spec_describe(*input_right)
            + ")\nON (left: "@ + spec_dbg_exprs(left_on) + " right: "@ + spec_dbg_exprs(right_on)
            + ")"@,
        crate::plan::PlanV::HStack { input, exprs, .. } => "STACK ["@ + spec_describe(*input)
            + "\n\tWITH COLUMN(S)\n"@ + spec_dbg_exprs(exprs) + "\n]"@,
        crate::plan::PlanV::Distinct { input, .. } => "DISTINCT "@ + spec_describe(*input),
        crate::plan::PlanV::Slice { input, offset, len } => "SLICE "@ + spec_describe(*input)
            + ", offset: "@ + spec_i64_str(offset as int) + ", len: "@ + spec_u64_str(len as int),
        crate::plan::PlanV::Udf { input, .. } => "UDF "@ + spec_describe(*input),
    }
}

/// The first field names of the schema, cloned for a preview list.
fn names_preview(schema: &crate::schema::Schema) -> (r: String)
    ensures
        r@ == spec_names_preview(schema@),
{
    let k: usize = if schema.len() <= 4 {
        schema.len()
    } else {
        4
    };
    let ghost names = if schema@.len() <= 4 {
        spec_schema_names(schema@)
    } else {
        spec_schema_names(schema@).take(4)
    };
    let mut out: Vec<String> = Vec::new();
    let mut i: usize = 0;
    proof {
        assert(crate::utils::view_strs(out@) =~= names.take(0));
    }
    while i < k
        invariant
            0 <= i <= k,
            k <= schema@.len(),
            names.len() == k,
            forall|j: int| 0 <= j < k ==> names[j] == schema@[j].name,
            crate::utils::view_strs(out@) == names.take(i as int),
        decreases k - i,
    {
        let ghost before = crate::utils::view_strs(out@);
        out.push(schema.field(i).name().clone());
        proof {
            assert(crate::utils::view_strs(out@) =~= before.push(out@.last()@));
            assert(names.take(i + 1) =~= names.take(i as int).push(names[i as int]));
        }
        i += 1;
    }
    proof {
        assert(names.take(k as int) =~= names);
    }
    strs_dbg(&out)
}

impl crate::plan::LogicalPlan {
    /// The pretty-printed tree, as [`spec_describe`] says.  Two calls on
    /// one tree give the same string: the result is a function of the
    /// tree alone.
    #[verifier::rlimit(100)]
    pub fn describe(&self) -> (r: String)
        ensures
            r@ == spec_describe(self@),
        decreases self,
    {
        match self {
            crate::plan::LogicalPlan::Cache { input } => String::from_str("CACHE ").concat(
                input.describe().as_str(),
            ),
            crate::plan::LogicalPlan::ParquetScan { path, schema, with_columns, predicate, .. } => {
                let ncols = match with_columns {
                    Some(cs) => usize_string(cs.len()),
                    None => String::from_str("*"),
                };
                String::from_str("PARQUET SCAN ").concat(path.as_str()).concat(
                    "; PROJECT ",
                ).concat(ncols.as_str()).concat("/").concat(
                    usize_string(schema.len()).as_str(),
                ).concat(" COLUMNS; SELECTION: ").concat(
                    opt_expr_dbg(predicate.as_ref()).as_str(),
                )
            },
            crate::plan::LogicalPlan::Selection { input, predicate } => String::from_str(
                "FILTER\n\t",
            ).concat(expr_dbg(predicate).as_str()).concat("\nFROM\n\t").concat(
                input.describe().as_str(),
            ),
            crate::plan::LogicalPlan::Melt { input, .. } => String::from_str("MELT\n\t").concat(
                input.describe().as_str(),
            ),
            crate::plan::LogicalPlan::CsvScan { path, schema, with_columns, predicate, .. } => {
                let ncols = match with_columns {
                    Some(cs) => usize_string(cs.len()),
                    None => String::from_str("*"),
                };
                String::from_str("CSV SCAN ").concat(path.as_str()).concat("; PROJECT ").concat(
                    ncols.as_str(),
                ).concat("/").concat(usize_string(schema.len()).as_str()).concat(
                    " COLUMNS; SELECTION: ",
                ).concat(opt_expr_dbg(predicate.as_ref()).as_str())
            },
            crate::plan::LogicalPlan::DataFrameScan { schema, projection, selection } => {
                let ncols = match projection {
                    Some(es) => {
                        proof {
                            crate::expr::lemma_view_exprs_len(es@);
                        }
                        usize_string(es.len())
                    },
                    None => String::from_str("*"),
                };
                String::from_str("TABLE: ").concat(names_preview(schema).as_str()).concat(
                    "; PROJECT ",
                ).concat(ncols.as_str()).concat("/").concat(
                    usize_string(schema.len()).as_str(),
                ).concat(" COLUMNS; SELECTION: ").concat(
                    opt_expr_dbg(selection.as_ref()).as_str(),
                )
            },
            crate::plan::LogicalPlan::Projection { expr, input, .. } => {
                proof {
                    crate::expr::lemma_view_exprs_len(expr@);
                }
                String::from_str("SELECT ").concat(usize_string(expr.len()).as_str()).concat(
                    " COLUMNS \nFROM\n",
                ).concat(input.describe().as_str())
            },
            crate::plan::LogicalPlan::LocalProjection { expr, input, .. } => {
                proof {
                    crate::expr::lemma_view_exprs_len(expr@);
                }
                String::from_str("LOCAL SELECT ").concat(usize_string(expr.len()).as_str()).concat(
                    " COLUMNS \nFROM\n",
                ).concat(input.describe().as_str())
            },
            crate::plan::LogicalPlan::Sort { input, by_column, .. } => String::from_str(
                "SORT ",
            ).concat(input.describe().as_str()).concat(" BY ").concat(
                exprs_dbg(by_column).as_str(),
            ),
            crate::plan::LogicalPlan::Explode { input, columns } => String::from_str(
                "EXPLODE COLUMN(S) ",
            ).concat(strs_dbg(columns).as_str()).concat(" OF ").concat(input.describe().as_str()),
            crate::plan::LogicalPlan::Aggregate { input, keys, aggs, .. } => String::from_str(
                "Aggregate\n\t",
            ).concat(exprs_dbg(aggs).as_str()).concat(" BY ").concat(
                exprs_dbg(keys).as_str(),
            ).concat(" FROM ").concat(input.describe().as_str()),
            crate::plan::LogicalPlan::Join { input_left, input_right, left_on, right_on, .. } =>
                String::from_str("JOIN\n\t(").concat(input_left.describe().as_str()).concat(
                ")\nWITH\n\t(",
            ).concat(input_right.describe().as_str()).concat(")\nON (left: ").concat(
                exprs_dbg(left_on).as_str(),
            ).concat(" right: ").concat(exprs_dbg(right_on).as_str()).concat(")"),
            crate::plan::LogicalPlan::HStack { input, exprs, .. } => String::from_str(
                "STACK [",
            ).concat(input.describe().as_str()).concat("\n\tWITH COLUMN(S)\n").concat(
                exprs_dbg(exprs).as_str(),
            ).concat("\n]"),
            crate::plan::LogicalPlan::Distinct { input, .. } => String::from_str(
                "DISTINCT ",
            ).concat(input.describe().as_str()),
            crate::plan::LogicalPlan::Slice { input, offset, len } => String::from_str(
                "SLICE ",
            ).concat(input.describe().as_str()).concat(", offset: ").concat(
                i64_string(*offset).as_str(),
            ).concat(", len: ").concat(usize_string(*len).as_str()),
            crate::plan::LogicalPlan::Udf { input, .. } => String::from_str("UDF ").concat(
                input.describe().as_str(),
            ),
        }
    }
}

} // verus!

verus! {

/// Addition that stops at the top of `usize` instead of wrapping.
pub open spec fn spec_sat_add(a: usize, b: usize) -> usize {
    if a + b > usize::MAX {
        usize::MAX
    } else {
        (a + b) as usize
    }
}

/// Executable twin of [`spec_sat_add`].
pub fn sat_add(a: usize, b: usize) -> (r: usize)
    ensures
        r == spec_sat_add(a, b),
{
    if a > usize::MAX - b {
        usize::MAX
    } else {
        a + b
    }
}

/// The rendering of a `(branch, id)` pair.
pub open spec fn spec_tup(branch: usize, id: usize) -> Seq<char> {
    "("@ + spec_u64_str(branch as int) + ", "@ + spec_u64_str(id as int) + ")"@
}

/// Executable twin of [`spec_tup`].
fn tup_string(branch: usize, id: usize) -> (r: String)
    ensures
        r@ == spec_tup(branch, id),
{
    String::from_str("(").concat(usize_string(branch).as_str()).concat(", ").concat(
        usize_string(id).as_str(),
    ).concat(")")
}

/// The names a stack label shows: per expression its alias, or its first
/// root column, each with a leading space and a trailing comma.
pub open spec fn spec_stack_items(s: Seq<ExprV>) -> Seq<char>
    decreases s,
{
    if s.len() == 0 {
        Seq::empty()
    } else {
        spec_stack_items(s.drop_last()) + (match s.last() {
            ExprV::Alias(_, n) => " "@ + n + ","@,
            e => if crate::utils::spec_roots(e).len() > 0 {
                " "@ + crate::utils::spec_roots(e)[0] + ","@
            } else {
                Seq::empty()
            },
        })
    }
}

/// The names a distinct label shows, each with a trailing comma-space.
pub open spec fn spec_distinct_items(s: Seq<Seq<char>>) -> Seq<char>
    decreases s,
{
    if s.len() == 0 {
        Seq::empty()
    } else {
        spec_distinct_items(s.drop_last()) + s.last() + ", "@
    }
}

/// The label of one node in the graph, carrying the operator, its main
/// parameters and the `(branch, id)` suffix that keeps labels of
/// different positions apart.
pub open spec fn spec_dot_label(p: crate::plan::PlanV, branch: usize, id: usize) -> Seq<char> {
    match p {
        crate::plan::PlanV::Cache { .. } => "CACHE ["@ + spec_tup(branch, id) + "]"@,
        crate::plan::PlanV::Selection { predicate, .. } => "FILTER BY "@ + spec_fmt_predicate(
            Some(predicate),
        ) + " ["@ + spec_tup(branch, id) + "]"@,
        crate::plan::PlanV::CsvScan { path, schema, with_columns, predicate, .. } => "CSV SCAN "@
            + path + ";\nπ "@ + spec_ncols_strs(with_columns) + "/"@ + spec_u64_str(
            schema.len() as int,
        ) + ";\nσ "@ + spec_fmt_predicate(predicate) + "\n["@ + spec_tup(branch, id) + "]"@,
        crate::plan::PlanV::ParquetScan { path, schema, with_columns, predicate, .. } =>
            "PARQUET SCAN "@ + path + ";\nπ "@ + spec_ncols_strs(with_columns) + "/"@
            + spec_u64_str(schema.len() as int) + ";\nσ "@ + spec_fmt_predicate(predicate) + " ["@
            + spec_tup(branch, id) + "]"@,
        crate::plan::PlanV::DataFrameScan { schema, projection, selection } => "TABLE\nπ "@
            + spec_ncols_exprs(projection) + "/"@ + spec_u64_str(schema.len() as int) + ";\nσ "@
            + spec_fmt_predicate(selection) + "\n["@ + spec_tup(branch, id) + "]"@,
        crate::plan::PlanV::Projection { expr, input, .. } => "π "@ + spec_u64_str(
            expr.len() as int,
        ) + "/"@ + spec_u64_str(crate::plan::spec_schema_of(*input).len() as int) + " ["@
            + spec_tup(branch, id) + "]"@,
        crate::plan::PlanV::LocalProjection { expr, input, .. } => "LOCAL π "@ + spec_u64_str(
            expr.len() as int,
        ) + "/"@ + spec_u64_str(crate::plan::spec_schema_of(*input).len() as int) + " ["@
            + spec_tup(branch, id) + "]"@,
        crate::plan::PlanV::Sort { by_column, .. } => "SORT BY "@ + spec_dbg_exprs(by_column)
            + " ["@ + spec_u64_str(id as int) + "]"@,
        crate::plan::PlanV::Explode { columns, .. } => "EXPLODE "@ + spec_dbg_strs(columns) + " ["@
            + spec_tup(branch, id) + "]"@,
        crate::plan::PlanV::Melt { .. } => "MELT ["@ + spec_tup(branch, id) + "]"@,
        crate::plan::PlanV::Aggregate { keys, aggs, .. } => "AGG "@ + spec_dbg_exprs(aggs) + " BY "@
            + spec_dbg_exprs_cat(keys) + " ["@ + spec_tup(branch, id) + "]"@,
        crate::plan::PlanV::HStack { exprs, .. } => "STACK"@ + spec_stack_items(exprs) + " ["@
            + spec_tup(branch, id) + "]"@,
        crate::plan::PlanV::Slice { offset, len, .. } => "SLICE offset: "@ + spec_i64_str(
            offset as int,
        ) + "; len: "@ + spec_u64_str(len as int) + " ["@ + spec_tup(branch, id) + "]"@,
        crate::plan::PlanV::Distinct { subset, .. } => "DISTINCT"@ + (match subset {
            Some(names) => " BY "@ + spec_distinct_items(names),
            None => Seq::empty(),
        }) + " ["@ + spec_tup(branch, id) + "]"@,
        crate::plan::PlanV::Join { left_on, right_on, .. } => "JOIN left "@ + spec_dbg_exprs(
            left_on,
        ) + "; right: "@ + spec_dbg_exprs(right_on) + " ["@ + spec_u64_str(id as int) + "]"@,
        crate::plan::PlanV::Udf { .. } => "UDF ["@ + spec_tup(branch, id) + "]"@,
    }
}

/// The debug renderings of `s`, concatenated without separators.
pub open spec fn spec_dbg_exprs_cat(s: Seq<ExprV>) -> Seq<char>
    decreases s,
{
    if s.len() == 0 {
        Seq::empty()
    } else {
        spec_dbg_exprs_cat(s.drop_last()) + spec_dbg_expr(s.last())
    }
}

/// What one header-or-edge line adds to the graph text.
pub open spec fn spec_write_dot(prev: Seq<char>, current: Seq<char>, id: usize) -> Seq<char> {
    if id == 0 {
        "graph  polars_query {\n"@
    } else {
        "\""@ + prev + "\" -- \""@ + current + "\"\n"@
    }
}

/// The whole text a plan adds to the graph: its header or edge, the
/// quoted label of a root leaf, and the text of its children, the two
/// join branches numbered apart.
pub open spec fn spec_dot(
    p: crate::plan::PlanV,
    branch: usize,
    id: usize,
    prev: Seq<char>,
) -> Seq<char>
    decreases p,
{
    let lbl = spec_dot_label(p, branch, id);
    match p {
        crate::plan::PlanV::CsvScan { .. } => spec_write_dot(prev, lbl, id) + (if id == 0 {
            "\""@ + lbl + "\""@
        } else {
            Seq::empty()
        }),
        crate::plan::PlanV::ParquetScan { .. } => spec_write_dot(prev, lbl, id) + (if id == 0 {
            "\""@ + lbl + "\""@
        } else {
            Seq::empty()
        }),
        crate::plan::PlanV::DataFrameScan { .. } => spec_write_dot(prev, lbl, id) + (if id == 0 {
            "\""@ + lbl + "\""@
        } else {
            Seq::empty()
        }),
        crate::plan::PlanV::Join { input_left, input_right, .. } => spec_write_dot(prev, lbl, id)
            + spec_dot(*input_left, spec_sat_add(branch, 10), spec_sat_add(id, 1), lbl) + spec_dot(
            *input_right,
            spec_sat_add(branch, 20),
            spec_sat_add(id, 1),
            lbl,
        ),
        crate::plan::PlanV::Cache { input } => spec_write_dot(prev, lbl, id) + spec_dot(
            *input,
            branch,
            spec_sat_add(id, 1),
            lbl,
        ),
        crate::plan::PlanV::Selection { input, .. } => spec_write_dot(prev, lbl, id) + spec_dot(
            *input,
            branch,
            spec_sat_add(id, 1),
            lbl,
        ),
        crate::plan::PlanV::LocalProjection { input, .. } => spec_write_dot(prev, lbl, id)
            + spec_dot(*input, branch, spec_sat_add(id, 1), lbl),
        crate::plan::PlanV::Projection { input, .. } => spec_write_dot(prev, lbl, id) + spec_dot(
            *input,
            branch,
            spec_sat_add(id, 1),
            lbl,
        ),
        crate::plan::PlanV::Aggregate { input, .. } => spec_write_dot(prev, lbl, id) + spec_dot(
            *input,
            branch,
            spec_sat_add(id, 1),
            lbl,
        ),
        crate::plan::PlanV::HStack { input, .. } => spec_write_dot(prev, lbl, id) + spec_dot(
            *input,
            branch,
            spec_sat_add(id, 1),
            lbl,
        ),
        crate::plan::PlanV::Distinct { input, .. } => spec_write_dot(prev, lbl, id) + spec_dot(
            *input,
            branch,
            spec_sat_add(id, 1),
            lbl,
        ),
        crate::plan::PlanV::Sort { input, .. } => spec_write_dot(prev, lbl, id) + spec_dot(
            *input,
            branch,
            spec_sat_add(id, 1),
            lbl,
        ),
        crate::plan::PlanV::Explode { input, .. } => spec_write_dot(prev, lbl, id) + spec_dot(
            *input,
            branch,
            spec_sat_add(id, 1),
            lbl,
        ),
        crate::plan::PlanV::Slice { input, .. } => spec_write_dot(prev, lbl, id) + spec_dot(
            *input,
            branch,
            spec_sat_add(id, 1),
            lbl,
        ),
        crate::plan::PlanV::Melt { input, .. } => spec_write_dot(prev, lbl, id) + spec_dot(
            *input,
            branch,
            spec_sat_add(id, 1),
            lbl,
        ),
        crate::plan::PlanV::Udf { input, .. } => spec_write_dot(prev, lbl, id) + spec_dot(
            *input,
            branch,
            spec_sat_add(id, 1),
            lbl,
        ),
    }
}

/// Executable twin of [`spec_dbg_exprs_cat`].
fn exprs_dbg_cat(es: &Vec<Expr>) -> (r: String)
    ensures
        r@ == spec_dbg_exprs_cat(view_exprs(es@)),
{
    let mut out = String::new();
    let mut i: usize = 0;
    proof {
        assert(view_exprs(es@.take(0)) =~= Seq::<ExprV>::empty());
        assert(out@ =~= spec_dbg_exprs_cat(view_exprs(es@.take(0))));
    }
    while i < es.len()
        invariant
            0 <= i <= es.len(),
            out@ == spec_dbg_exprs_cat(view_exprs(es@.take(i as int))),
        decreases es.len() - i,
    {
        let ghost t = view_exprs(es@.take(i as int));
        proof {
            crate::expr::lemma_view_exprs_index(es@, i as int);
            assert(es@.take(i + 1).drop_last() =~= es@.take(i as int));
            assert(es@.take(i + 1).last() == es@[i as int]);
            assert(view_exprs(es@.take(i + 1)) == t.push(view_expr(es@[i as int])));
            assert(view_exprs(es@.take(i + 1)).drop_last() =~= t);
        }
        let d = expr_dbg(&es[i]);
        out.append(d.as_str());
        i += 1;
    }
    proof {
        assert(es@.take(es@.len() as int) =~= es@);
    }
    out
}

/// Executable twin of [`spec_stack_items`].
fn stack_items(es: &Vec<Expr>) -> (r: String)
    ensures
        r@ == spec_stack_items(view_exprs(es@)),
{
    let mut out = String::new();
    let mut i: usize = 0;
    proof {
        assert(view_exprs(es@.take(0)) =~= Seq::<ExprV>::empty());
        assert(out@ =~= spec_stack_items(view_exprs(es@.take(0))));
    }
    while i < es.len()
        invariant
            0 <= i <= es.len(),
            out@ == spec_stack_items(view_exprs(es@.take(i as int))),
        decreases es.len() - i,
    {
        let ghost t = view_exprs(es@.take(i as int));
        proof {
            crate::expr::lemma_view_exprs_index(es@, i as int);
            crate::expr::lemma_view_variants(es@[i as int]);
            assert(es@.take(i + 1).drop_last() =~= es@.take(i as int));
            assert(es@.take(i + 1).last() == es@[i as int]);
            assert(view_exprs(es@.take(i + 1)) == t.push(view_expr(es@[i as int])));
            assert(view_exprs(es@.take(i + 1)).drop_last() =~= t);
        }
        match &es[i] {
            Expr::Alias(_, n) => {
                out.append(" ");
                out.append(n.as_str());
                out.append(",");
            },
            other => {
                let roots = crate::utils::expr_to_root_column_names(other);
                if roots.len() > 0 {
                    proof {
                        assert(crate::utils::view_strs(roots@)[0] == roots@[0]@);
                    }
                    out.append(" ");
                    out.append(roots[0].as_str());
                    out.append(",");
                }
            },
        }
        i += 1;
    }
    proof {
        assert(es@.take(es@.len() as int) =~= es@);
    }
    out
}

/// Executable twin of [`spec_distinct_items`].
fn distinct_items(names: &Vec<String>) -> (r: String)
    ensures
        r@ == spec_distinct_items(crate::utils::view_strs(names@)),
{
    let ghost vs = crate::utils::view_strs(names@);
    let mut out = String::new();
    let mut i: usize = 0;
    proof {
        assert(vs.take(0) =~= Seq::<Seq<char>>::empty());
        assert(out@ =~= spec_distinct_items(vs.take(0)));
    }
    while i < names.len()
        invariant
            0 <= i <= names.len(),
            vs == crate::utils::view_strs(names@),
            vs.len() == names@.len(),
            out@ == spec_distinct_items(vs.take(i as int)),
        decreases names.len() - i,
    {
        proof {
            assert(vs.take(i + 1).drop_last() =~= vs.take(i as int));
            assert(vs.take(i + 1).last() == vs[i as int]);
            assert(vs[i as int] == names@[i as int]@);
        }
        out.append(names[i].as_str());
        out.append(", ");
        i += 1;
    }
    proof {
        assert(vs.take(vs.len() as int) =~= vs);
    }
    out
}

impl crate::plan::LogicalPlan {
    /// The label of this node, as [`spec_dot_label`] says.
    #[verifier::rlimit(100)]
    fn dot_label(&self, branch: usize, id: usize) -> (r: String)
        ensures
            r@ == spec_dot_label(self@, branch, id),
    {
        match self {
            crate::plan::LogicalPlan::Cache { .. } => String::from_str("CACHE [").concat(
                tup_string(branch, id).as_str(),
            ).concat("]"),
            crate::plan::LogicalPlan::Selection { predicate, .. } => String::from_str(
                "FILTER BY ",
            ).concat(fmt_predicate(Some(predicate)).as_str()).concat(" [").concat(
                tup_string(branch, id).as_str(),
            ).concat("]"),
            crate::plan::LogicalPlan::CsvScan { path, schema, with_columns, predicate, .. } => {
                let ncols = match with_columns {
                    Some(cs) => usize_string(cs.len()),
                    None => String::from_str("*"),
                };
                String::from_str("CSV SCAN ").concat(path.as_str()).concat(";\nπ ").concat(
                    ncols.as_str(),
                ).concat("/").concat(usize_string(schema.len()).as_str()).concat(";\nσ ").concat(
                    fmt_predicate(predicate.as_ref()).as_str(),
                ).concat("\n[").concat(tup_string(branch, id).as_str()).concat("]")
            },
            crate::plan::LogicalPlan::ParquetScan { path, schema, with_columns, predicate, .. } => {
                let ncols = match with_columns {
                    Some(cs) => usize_string(cs.len()),
                    None => String::from_str("*"),
                };
                String::from_str("PARQUET SCAN ").concat(path.as_str()).concat(";\nπ ").concat(
                    ncols.as_str(),
                ).concat("/").concat(usize_string(schema.len()).as_str()).concat(";\nσ ").concat(
                    fmt_predicate(predicate.as_ref()).as_str(),
                ).concat(" [").concat(tup_string(branch, id).as_str()).concat("]")
            },
            crate::plan::LogicalPlan::DataFrameScan { schema, projection, selection } => {
                let ncols = match projection {
                    Some(es) => {
                        proof {
                            crate::expr::lemma_view_exprs_len(es@);
                        }
                        usize_string(es.len())
                    },
                    None => String::from_str("*"),
                };
                String::from_str("TABLE\nπ ").concat(ncols.as_str()).concat("/").concat(
                    usize_string(schema.len()).as_str(),
                ).concat(";\nσ ").concat(fmt_predicate(selection.as_ref()).as_str()).concat(
                    "\n[",
                ).concat(tup_string(branch, id).as_str()).concat("]")
            },
            crate::plan::LogicalPlan::Projection { expr, input, .. } => {
                proof {
                    crate::expr::lemma_view_exprs_len(expr@);
                }
                String::from_str("π ").concat(usize_string(expr.len()).as_str()).concat(
                    "/",
                ).concat(usize_string(input.schema().len()).as_str()).concat(" [").concat(
                    tup_string(branch, id).as_str(),
                ).concat("]")
            },
            crate::plan::LogicalPlan::LocalProjection { expr, input, .. } => {
                proof {
                    crate::expr::lemma_view_exprs_len(expr@);
                }
                String::from_str("LOCAL π ").concat(usize_string(expr.len()).as_str()).concat(
                    "/",
                ).concat(usize_string(input.schema().len()).as_str()).concat(" [").concat(
                    tup_string(branch, id).as_str(),
                ).concat("]")
            },
            crate::plan::LogicalPlan::Sort { by_column, .. } => String::from_str(
                "SORT BY ",
            ).concat(exprs_dbg(by_column).as_str()).concat(" [").concat(
                usize_string(id).as_str(),
            ).concat("]"),
            crate::plan::LogicalPlan::Explode { columns, .. } => String::from_str(
                "EXPLODE ",
            ).concat(strs_dbg(columns).as_str()).concat(" [").concat(
                tup_string(branch, id).as_str(),
            ).concat("]"),
            crate::plan::LogicalPlan::Melt { .. } => String::from_str("MELT [").concat(
                tup_string(branch, id).as_str(),
            ).concat("]"),
            crate::plan::LogicalPlan::Aggregate { keys, aggs, .. } => String::from_str(
                "AGG ",
            ).concat(exprs_dbg(aggs).as_str()).concat(" BY ").concat(
                exprs_dbg_cat(keys).as_str(),
            ).concat(" [").concat(tup_string(branch, id).as_str()).concat("]"),
            crate::plan::LogicalPlan::HStack { exprs, .. } => String::from_str("STACK").concat(
                stack_items(exprs).as_str(),
            ).concat(" [").concat(tup_string(branch, id).as_str()).concat("]"),
            crate::plan::LogicalPlan::Slice { offset, len, .. } => String::from_str(
                "SLICE offset: ",
            ).concat(i64_string(*offset).as_str()).concat("; len: ").concat(
                usize_string(*len).as_str(),
            ).concat(" [").concat(tup_string(branch, id).as_str()).concat("]"),
            crate::plan::LogicalPlan::Distinct { subset, .. } => {
                let by = match subset {
                    Some(names) => String::from_str(" BY ").concat(
                        distinct_items(names).as_str(),
                    ),
                    None => String::new(),
                };
                String::from_str("DISTINCT").concat(by.as_str()).concat(" [").concat(
                    tup_string(branch, id).as_str(),
                ).concat("]")
            },
            crate::plan::LogicalPlan::Join { left_on, right_on, .. } => String::from_str(
                "JOIN left ",
            ).concat(exprs_dbg(left_on).as_str()).concat("; right: ").concat(
                exprs_dbg(right_on).as_str(),
            ).concat(" [").concat(usize_string(id).as_str()).concat("]"),
            crate::plan::LogicalPlan::Udf { .. } => String::from_str("UDF [").concat(
                tup_string(branch, id).as_str(),
            ).concat("]"),
        }
    }

    /// Append one header or edge line.
    fn write_dot(acc_str: &mut String, prev_node: &str, current_node: &str, id: usize)
        ensures
            final(acc_str)@ == old(acc_str)@ + spec_write_dot(prev_node@, current_node@, id),
    {
        if id == 0 {
            acc_str.append("graph  polars_query {\n");
        } else {
            acc_str.append("\"");
            acc_str.append(prev_node);
            acc_str.append("\" -- \"");
            acc_str.append(current_node);
            acc_str.append("\"\n");
            assert(acc_str@ =~= old(acc_str)@ + spec_write_dot(prev_node@, current_node@, id));
        }
    }

    /// Append the Graphviz text of this tree, as [`spec_dot`] says.  The
    /// `id` pair is the starting branch and depth; the root call passes
    /// `(0, 0)` and an empty previous label.
    #[verifier::rlimit(100)]
    pub fn dot(&self, acc_str: &mut String, id: (usize, usize), prev_node: &str)
        ensures
            final(acc_str)@ == old(acc_str)@ + spec_dot(self@, id.0, id.1, prev_node@),
        decreases self,
    {
        let (branch, id) = id;
        let current = self.dot_label(branch, id);
        let ghost pre = acc_str@;
        match self {
            crate::plan::LogicalPlan::CsvScan { .. } => {
                Self::write_dot(acc_str, prev_node, current.as_str(), id);
                if id == 0 {
                    acc_str.append("\"");
                    acc_str.append(current.as_str());
                    acc_str.append("\"");
                }
                assert(acc_str@ =~= pre + spec_dot(self@, branch, id, prev_node@));
            },
            crate::plan::LogicalPlan::ParquetScan { .. } => {
                Self::write_dot(acc_str, prev_node, current.as_str(), id);
                if id == 0 {
                    acc_str.append("\"");
                    acc_str.append(current.as_str());
                    acc_str.append("\"");
                }
                assert(acc_str@ =~= pre + spec_dot(self@, branch, id, prev_node@));
            },
            crate::plan::LogicalPlan::DataFrameScan { .. } => {
                Self::write_dot(acc_str, prev_node, current.as_str(), id);
                if id == 0 {
                    acc_str.append("\"");
                    acc_str.append(current.as_str());
                    acc_str.append("\"");
                }
                assert(acc_str@ =~= pre + spec_dot(self@, branch, id, prev_node@));
            },
            crate::plan::LogicalPlan::Join { input_left, input_right, .. } => {
                Self::write_dot(acc_str, prev_node, current.as_str(), id);
                input_left.dot(acc_str, (sat_add(branch, 10), sat_add(id, 1)), current.as_str());
                input_right.dot(acc_str, (sat_add(branch, 20), sat_add(id, 1)), current.as_str());
                assert(acc_str@ =~= pre + spec_dot(self@, branch, id, prev_node@));
            },
            crate::plan::LogicalPlan::Cache { input } => {
                Self::write_dot(acc_str, prev_node, current.as_str(), id);
                input.dot(acc_str, (branch, sat_add(id, 1)), current.as_str());
                assert(acc_str@ =~= pre + spec_dot(self@, branch, id, prev_node@));
            },
            crate::plan::LogicalPlan::Selection { input, .. } => {
                Self::write_dot(acc_str, prev_node, current.as_str(), id);
                input.dot(acc_str, (branch, sat_add(id, 1)), current.as_str());
                assert(acc_str@ =~= pre + spec_dot(self@, branch, id, prev_node@));
            },
            crate::plan::LogicalPlan::LocalProjection { input, .. } => {
                Self::write_dot(acc_str, prev_node, current.as_str(), id);
                input.dot(acc_str, (branch, sat_add(id, 1)), current.as_str());
                assert(acc_str@ =~= pre + spec_dot(self@, branch, id, prev_node@));
            },
            crate::plan::LogicalPlan::Projection { input, .. } => {
                Self::write_dot(acc_str, prev_node, current.as_str(), id);
                input.dot(acc_str, (branch, sat_add(id, 1)), current.as_str());
                assert(acc_str@ =~= pre + spec_dot(self@, branch, id, prev_node@));
            },
            crate::plan::LogicalPlan::Aggregate { input, .. } => {
                Self::write_dot(acc_str, prev_node, current.as_str(), id);
                input.dot(acc_str, (branch, sat_add(id, 1)), current.as_str());
                assert(acc_str@ =~= pre + spec_dot(self@, branch, id, prev_node@));
            },
            crate::plan::LogicalPlan::HStack { input, .. } => {
                Self::write_dot(acc_str, prev_node, current.as_str(), id);
                input.dot(acc_str, (branch, sat_add(id, 1)), current.as_str());
                assert(acc_str@ =~= pre + spec_dot(self@, branch, id, prev_node@));
            },
            crate::plan::LogicalPlan::Distinct { input, .. } => {
                Self::write_dot(acc_str, prev_node, current.as_str(), id);
                input.dot(acc_str, (branch, sat_add(id, 1)), current.as_str());
                assert(acc_str@ =~= pre + spec_dot(self@, branch, id, prev_node@));
            },
            crate::plan::LogicalPlan::Sort { input, .. } => {
                Self::write_dot(acc_str, prev_node, current.as_str(), id);
                input.dot(acc_str, (branch, sat_add(id, 1)), current.as_str());
                assert(acc_str@ =~= pre + spec_dot(self@, branch, id, prev_node@));
            },
            crate::plan::LogicalPlan::Explode { input, .. } => {
                Self::write_dot(acc_str, prev_node, current.as_str(), id);
                input.dot(acc_str, (branch, sat_add(id, 1)), current.as_str());
                assert(acc_str@ =~= pre + spec_dot(self@, branch, id, prev_node@));
            },
            crate::plan::LogicalPlan::Slice { input, .. } => {
                Self::write_dot(acc_str, prev_node, current.as_str(), id);
                input.dot(acc_str, (branch, sat_add(id, 1)), current.as_str());
                assert(acc_str@ =~= pre + spec_dot(self@, branch, id, prev_node@));
            },
            crate::plan::LogicalPlan::Melt { input, .. } => {
                Self::write_dot(acc_str, prev_node, current.as_str(), id);
                input.dot(acc_str, (branch, sat_add(id, 1)), current.as_str());
                assert(acc_str@ =~= pre + spec_dot(self@, branch, id, prev_node@));
            },
            crate::plan::LogicalPlan::Udf { input, .. } => {
                Self::write_dot(acc_str, prev_node, current.as_str(), id);
                input.dot(acc_str, (branch, sat_add(id, 1)), current.as_str());
                assert(acc_str@ =~= pre + spec_dot(self@, branch, id, prev_node@));
            },
        }
    }
}

} // verus!
