//! Ordered `(name, dtype)` field lists and the operations schema synthesis
//! needs: by-name lookup, upsert and merge.

use vstd::prelude::*;
use vstd::string::StringExecFns;
use crate::dtypes::DataType;
use crate::error::PlanError;

verus! {

/// Spec-level image of a [`Field`].
pub struct FieldV {
    pub name: Seq<char>,
    pub dtype: DataType,
}

/// A named, typed column of a schema.
pub struct Field {
    pub name: String,
    pub dtype: DataType,
}

impl View for Field {
    type V = FieldV;

    open spec fn view(&self) -> FieldV {
        FieldV { name: self.name@, dtype: self.dtype }
    }
}

impl Clone for Field {
    fn clone(&self) -> (r: Self)
        ensures
            r@ == self@,
    {
        Field { name: self.name.clone(), dtype: self.dtype }
    }
}

impl Field {
    pub fn new(name: String, dtype: DataType) -> (r: Field)
        ensures
            r@ == (FieldV { name: name@, dtype }),
    {
        Field { name, dtype }
    }

    pub fn name(&self) -> (r: &String)
        ensures
            r@ == self@.name,
    {
        &self.name
    }

    pub fn data_type(&self) -> (r: DataType)
        ensures
            r == self@.dtype,
    {
        self.dtype
    }
}

/// The view of a sequence of fields.
pub open spec fn view_fields(s: Seq<Field>) -> Seq<FieldV> {
    s.map_values(|f: Field| f@)
}

/// A `Vec<Field>` clone preserves the fields' views.
pub proof fn lemma_cloned_fields_view(a: Seq<Field>, b: Seq<Field>)
    requires
        a.len() == b.len(),
        forall|i: int| #![all_triggers] 0 <= i < a.len() ==> cloned::<Field>(a[i], b[i]),
    ensures
        view_fields(a) == view_fields(b),
{
    assert forall|i: int| 0 <= i < a.len() implies #[trigger] view_fields(b)[i] == view_fields(a)[i]
        by {
        assert(cloned::<Field>(a[i], b[i]));
    }
    assert(view_fields(a) =~= view_fields(b));
}

/// True when some field of `s` is named `name`.
pub open spec fn spec_contains_name(s: Seq<FieldV>, name: Seq<char>) -> bool {
    exists|i: int| 0 <= i < s.len() && #[trigger] s[i].name == name
}

/// The index of the first field of `s` named `name`, if any.
pub open spec fn spec_index_of(s: Seq<FieldV>, name: Seq<char>) -> Option<int>
    decreases s.len(),
{
    if s.len() == 0 {
        None
    } else if s[0].name == name {
        Some(0int)
    } else {
        match spec_index_of(s.drop_first(), name) {
            Some(i) => Some(i + 1),
            None => None,
        }
    }
}

/// The first field of `s` named `name`, if any.
pub open spec fn spec_field_with_name(s: Seq<FieldV>, name: Seq<char>) -> Option<FieldV> {
    match spec_index_of(s, name) {
        Some(i) => Some(s[i]),
        None => None,
    }
}

/// What [`spec_index_of`] returns is a well-placed first match.
pub proof fn lemma_index_of_properties(s: Seq<FieldV>, name: Seq<char>)
    ensures
        match spec_index_of(s, name) {
            Some(i) => 0 <= i < s.len() && s[i].name == name && forall|j: int|
                0 <= j < i ==> (#[trigger] s[j].name) != name,
            None => !spec_contains_name(s, name),
        },
    decreases s.len(),
{
    if s.len() != 0 && s[0].name != name {
        lemma_index_of_properties(s.drop_first(), name);
        let rest = s.drop_first();
        match spec_index_of(rest, name) {
            Some(i) => {
                assert forall|j: int| 0 <= j < i + 1 implies (#[trigger] s[j].name) != name by {
                    if j >= 1 {
                        assert(rest[j - 1] == s[j]);
                    }
                }
            },
            None => {
                assert forall|i: int| 0 <= i < s.len() implies (#[trigger] s[i].name) != name by {
                    if i >= 1 {
                        assert(rest[i - 1] == s[i]);
                    }
                }
            },
        }
    }
}

/// Unfolding step used by scanning loops: looking `name` up in `s` from
/// position `i` on.
proof fn lemma_index_of_skip(s: Seq<FieldV>, name: Seq<char>, i: int)
    requires
        0 <= i < s.len(),
        s[i].name != name,
    ensures
        spec_index_of(s.skip(i), name) == match spec_index_of(s.skip(i + 1), name) {
            Some(k) => Some(k + 1),
            None => None::<int>,
        },
{
    assert(s.skip(i).len() != 0);
    assert(s.skip(i)[0] == s[i]);
    assert(s.skip(i).drop_first() =~= s.skip(i + 1));
}

/// An ordered list of named, typed columns.
pub struct Schema {
    pub fields: Vec<Field>,
}

impl View for Schema {
    type V = Seq<FieldV>;

    open spec fn view(&self) -> Seq<FieldV> {
        view_fields(self.fields@)
    }
}

impl Clone for Schema {
    fn clone(&self) -> (r: Self)
        ensures
            r@ == self@,
    {
        let fields = self.fields.clone();
        proof {
            lemma_cloned_fields_view(self.fields@, fields@);
        }
        Schema { fields }
    }
}

impl Schema {
    /// A schema over the given fields, in their order.
    pub fn new(fields: Vec<Field>) -> (r: Schema)
        ensures
            r@ == view_fields(fields@),
    {
        Schema { fields }
    }

    /// The empty schema.
    pub fn empty() -> (r: Schema)
        ensures
            r@ == Seq::<FieldV>::empty(),
    {
        let fields: Vec<Field> = Vec::new();
        assert(view_fields(fields@) =~= Seq::<FieldV>::empty());
        Schema { fields }
    }

    pub fn fields(&self) -> (r: &Vec<Field>)
        ensures
            view_fields(r@) == self@,
    {
        &self.fields
    }

    pub fn len(&self) -> (r: usize)
        ensures
            r == self@.len(),
    {
        self.fields.len()
    }

    /// The field at position `i`.
    pub fn field(&self, i: usize) -> (r: &Field)
        requires
            i < self@.len(),
        ensures
            r@ == self@[i as int],
    {
        &self.fields[i]
    }

    /// The position of the first field named `name`.
    pub fn index_of(&self, name: &String) -> (r: Option<usize>)
        ensures
            match r {
                Some(i) => spec_index_of(self@, name@) == Some(i as int),
                None => spec_index_of(self@, name@) is None,
            },
    {
        let ghost v = self@;
        proof {
            assert(v.skip(0) =~= v);
        }
        let mut i: usize = 0;
        while i < self.fields.len()
            invariant
                0 <= i <= self.fields.len(),
                v == view_fields(self.fields@),
                v.len() == self.fields@.len(),
                spec_index_of(v, name@) == match spec_index_of(v.skip(i as int), name@) {
                    Some(k) => Some(k + i),
                    None => None::<int>,
                },
            decreases self.fields.len() - i,
        {
            assert(v[i as int] == self.fields@[i as int]@);
            if self.fields[i].name().eq(name) {
                assert(v.skip(i as int)[0] == v[i as int]);
                return Some(i);
            }
            proof {
                lemma_index_of_skip(v, name@, i as int);
            }
            i += 1;
        }
        proof {
            assert(v.skip(v.len() as int) =~= Seq::<FieldV>::empty());
        }
        None
    }

    /// The first field named `name`.
    pub fn field_with_name(&self, name: &String) -> (r: Option<&Field>)
        ensures
            match r {
                Some(f) => spec_field_with_name(self@, name@) == Some(f@),
                None => spec_field_with_name(self@, name@) is None,
            },
    {
        match self.index_of(name) {
            Some(i) => {
                proof {
                    lemma_index_of_properties(self@, name@);
                }
                Some(&self.fields[i])
            },
            None => None,
        }
    }
}

/// One upsert step: replace the first field named like `f`, else append `f`.
pub open spec fn spec_upsert(s: Seq<FieldV>, f: FieldV) -> Seq<FieldV> {
    match spec_index_of(s, f.name) {
        Some(i) => s.update(i, f),
        None => s.push(f),
    }
}

/// Merging `b` into `a`, left to right: a field of `b` whose name `a` (as
/// grown so far) already holds must agree on the dtype and is dropped;
/// a new name is appended.  `None` when two dtypes clash.
pub open spec fn spec_merge(a: Seq<FieldV>, b: Seq<FieldV>) -> Option<Seq<FieldV>>
    decreases b.len(),
{
    if b.len() == 0 {
        Some(a)
    } else {
        match spec_merge(a, b.drop_last()) {
            None => None,
            Some(acc) => {
                let f = b.last();
                match spec_index_of(acc, f.name) {
                    Some(i) => if acc[i].dtype == f.dtype {
                        Some(acc)
                    } else {
                        None
                    },
                    None => Some(acc.push(f)),
                }
            },
        }
    }
}

/// Once merging has failed on a prefix of `b`, the whole merge fails.
proof fn lemma_merge_none_prefix(a: Seq<FieldV>, b: Seq<FieldV>, i: int)
    requires
        0 <= i <= b.len(),
        spec_merge(a, b.take(i)) is None,
    ensures
        spec_merge(a, b) is None,
    decreases b.len() - i,
{
    if i < b.len() {
        assert(b.take(i + 1).drop_last() =~= b.take(i));
        lemma_merge_none_prefix(a, b, i + 1);
    } else {
        assert(b.take(i) =~= b);
    }
}

impl Schema {
    /// Merge `other` into `self` as [`spec_merge`] says.
    pub fn try_merge(&self, other: &Schema) -> (r: Result<Schema, PlanError>)
        ensures
            match r {
                Ok(s) => spec_merge(self@, other@) == Some(s@),
                Err(_) => spec_merge(self@, other@) is None,
            },
    {
        let ghost bv = other@;
        let mut out = self.clone();
        let mut i: usize = 0;
        while i < other.fields.len()
            invariant
                0 <= i <= other.fields.len(),
                bv == view_fields(other.fields@),
                bv.len() == other.fields@.len(),
                spec_merge(self@, bv.take(i as int)) == Some(out@),
            decreases other.fields.len() - i,
        {
            let f = &other.fields[i];
            assert(bv[i as int] == f@);
            proof {
                assert(bv.take(i + 1).drop_last() =~= bv.take(i as int));
                assert(bv.take(i + 1).last() == bv[i as int]);
            }
            match out.index_of(f.name()) {
                Some(j) => {
                    proof {
                        lemma_index_of_properties(out@, f@.name);
                        assert(out@[j as int] == out.fields@[j as int]@);
                    }
                    if out.fields[j].data_type() != f.data_type() {
                        proof {
                            assert(spec_merge(self@, bv.take(i + 1)) is None);
                            lemma_merge_none_prefix(self@, bv, i + 1);
                        }
                        return Err(
                            PlanError::InvalidOperation(
                                String::from_str("cannot merge schemas: dtypes differ"),
                            ),
                        );
                    }
                },
                None => {
                    let fc = f.clone();
                    let ghost before = out@;
                    out.fields.push(fc);
                    assert(out@ =~= before.push(f@));
                },
            }
            i += 1;
        }
        proof {
            assert(bv.take(bv.len() as int) =~= bv);
        }
        Ok(out)
    }
}

} // verus!
