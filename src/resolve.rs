//! Turns an ordered list of `(name, tag)` fields into columns and references.

use vstd::prelude::*;

use crate::schema_type::{
    lookup, str_eq, tags_of, type_for_tag, valid_tags, SchemaType, UnknownTypeTag,
};

verus! {

/// A field as the resolution rules see it: its name and its type tag.
pub type FieldView = (Seq<char>, Seq<char>);

/// A column as the resolution rules see it: its name and its type.
pub type ColumnView = (Seq<char>, SchemaType);

/// A relation as the resolution rules see it: the related name and its
/// foreign-key column.
pub type ReferenceView = (Seq<char>, Seq<char>);

/// A column of the generated entity.
pub struct Column {
    pub name: String,
    pub schema_type: SchemaType,
}

impl View for Column {
    type V = ColumnView;

    open spec fn view(&self) -> ColumnView {
        (self.name@, self.schema_type)
    }
}

/// A relation of the generated entity to another one, through a foreign key.
pub struct Reference {
    /// The name of the relation field, as given.
    pub target: String,
    /// The column that holds the foreign key.
    pub foreign_key: String,
}

impl View for Reference {
    type V = ReferenceView;

    open spec fn view(&self) -> ReferenceView {
        (self.target@, self.foreign_key@)
    }
}

/// What resolving a field list yields: the columns and references in input
/// order, and the fields skipped because they name automatically managed
/// columns.
pub struct Resolution {
    pub columns: Vec<Column>,
    pub references: Vec<Reference>,
    /// Names of the fields that were given although they are managed
    /// automatically; each deserves a warning.
    pub redundant_fields: Vec<String>,
}

/// Names of the columns that the surrounding system maintains by itself.
pub open spec fn reserved_names() -> Seq<&'static str> {
    seq!["created_at", "updated_at", "create_at", "update_at"]
}

/// Whether `name` is one of the automatically managed column names.
pub open spec fn is_reserved(name: Seq<char>) -> bool {
    exists|i: int| 0 <= i < reserved_names().len() && #[trigger] reserved_names()[i]@ == name
}

/// The tag that marks a field as a relation.
pub open spec fn is_relation(tag: Seq<char>) -> bool {
    tag == "references"@
}

/// The foreign-key column synthesised for the relation field `name`.
pub open spec fn foreign_key(name: Seq<char>) -> Seq<char> {
    name + "_id"@
}

/// The columns that one field contributes.
pub open spec fn field_columns(f: FieldView) -> Seq<ColumnView> {
    if is_reserved(f.0) {
        seq![]
    } else if is_relation(f.1) {
        seq![(foreign_key(f.0), SchemaType::Integer)]
    } else {
        match type_for_tag(f.1) {
            Some(t) => seq![(f.0, t)],
            None => seq![],
        }
    }
}

/// The references that one field contributes.
pub open spec fn field_references(f: FieldView) -> Seq<ReferenceView> {
    if !is_reserved(f.0) && is_relation(f.1) {
        seq![(f.0, foreign_key(f.0))]
    } else {
        seq![]
    }
}

/// The redundant-field diagnostics that one field contributes.
pub open spec fn field_redundant(f: FieldView) -> Seq<Seq<char>> {
    if is_reserved(f.0) {
        seq![f.0]
    } else {
        seq![]
    }
}

/// Whether a field makes the whole resolution fail: its tag is neither a
/// relation nor in the symbol table, and its name is not reserved.
pub open spec fn field_rejected(f: FieldView) -> bool {
    !is_reserved(f.0) && !is_relation(f.1) && type_for_tag(f.1) is None
}

/// Whether every field of `fs` is accepted.
pub open spec fn all_accepted(fs: Seq<FieldView>) -> bool {
    forall|i: int| 0 <= i < fs.len() ==> !field_rejected(#[trigger] fs[i])
}

/// Whether `tag` is the tag of the first field of `fs` that is rejected.
pub open spec fn first_rejected_tag(fs: Seq<FieldView>, tag: Seq<char>) -> bool {
    exists|i: int|
        0 <= i < fs.len() && field_rejected(#[trigger] fs[i]) && all_accepted(fs.subrange(0, i))
            && fs[i].1 == tag
}

/// The columns of a field list: those of each field, in input order.
pub open spec fn resolved_columns(fs: Seq<FieldView>) -> Seq<ColumnView>
    decreases fs.len(),
{
    if fs.len() == 0 {
        seq![]
    } else {
        resolved_columns(fs.drop_last()) + field_columns(fs.last())
    }
}

/// The references of a field list: those of each field, in input order.
pub open spec fn resolved_references(fs: Seq<FieldView>) -> Seq<ReferenceView>
    decreases fs.len(),
{
    if fs.len() == 0 {
        seq![]
    } else {
        resolved_references(fs.drop_last()) + field_references(fs.last())
    }
}

/// The redundant fields of a field list, in input order.
pub open spec fn resolved_redundant(fs: Seq<FieldView>) -> Seq<Seq<char>>
    decreases fs.len(),
{
    if fs.len() == 0 {
        seq![]
    } else {
        resolved_redundant(fs.drop_last()) + field_redundant(fs.last())
    }
}

/// The fields as pairs of character sequences.
pub open spec fn fields_view(fs: Seq<(String, String)>) -> Seq<FieldView> {
    fs.map_values(|f: (String, String)| (f.0@, f.1@))
}

/// The columns as (name, type) pairs.
pub open spec fn columns_view(cs: Seq<Column>) -> Seq<ColumnView> {
    cs.map_values(|c: Column| c@)
}

/// The references as (target, foreign key) pairs.
pub open spec fn references_view(rs: Seq<Reference>) -> Seq<ReferenceView> {
    rs.map_values(|r: Reference| r@)
}

/// The strings as character sequences.
pub open spec fn strings_view(ss: Seq<String>) -> Seq<Seq<char>> {
    ss.map_values(|s: String| s@)
}

/// Whether `name` is one of the automatically managed column names.
pub fn is_reserved_name(name: &str) -> (r: bool)
    ensures
        r == is_reserved(name@),
{
    let reserved = vec!["created_at", "updated_at", "create_at", "update_at"];
    assert(reserved@ == reserved_names());
    let mut i: usize = 0;
    while i < reserved.len()
        invariant
            reserved@ == reserved_names(),
            i <= reserved.len(),
            forall|k: int| 0 <= k < i ==> reserved_names()[k]@ != name@,
        decreases reserved.len() - i,
    {
        if str_eq(reserved[i], name) {
            return true;
        }
        i = i + 1;
    }
    false
}

/// The foreign-key column name for the relation field `name`: `name` followed
/// by `_id`.
pub fn foreign_key_name(name: &str) -> (r: String)
    ensures
        r@ == foreign_key(name@),
{
    let mut r = name.to_owned();
    r.append("_id");
    r
}

/// Resolves `fields` in order.
///
/// Reserved names are skipped and reported as redundant; a `references` field
/// becomes an integer foreign-key column `<name>_id` and a reference; any other
/// field becomes a column of the type its tag maps to. The first field whose
/// tag is unknown makes the whole resolution fail.
pub fn resolve_fields(fields: &[(String, String)]) -> (r: Result<Resolution, UnknownTypeTag>)
    ensures
        r is Ok <==> all_accepted(fields_view(fields@)),
        r matches Ok(res) ==> {
            &&& columns_view(res.columns@) == resolved_columns(fields_view(fields@))
            &&& references_view(res.references@) == resolved_references(fields_view(fields@))
            &&& strings_view(res.redundant_fields@) == resolved_redundant(fields_view(fields@))
        },
        r matches Err(e) ==> {
            &&& first_rejected_tag(fields_view(fields@), e.tag@)
            &&& tags_of(e.valid_tags@) == valid_tags()
        },
{
    let ghost fv = fields_view(fields@);
    let mut columns: Vec<Column> = Vec::new();
    let mut references: Vec<Reference> = Vec::new();
    let mut redundant_fields: Vec<String> = Vec::new();
    let mut i: usize = 0;
    while i < fields.len()
        invariant
            fv == fields_view(fields@),
            i <= fields.len(),
            all_accepted(fv.subrange(0, i as int)),
            columns_view(columns@) == resolved_columns(fv.subrange(0, i as int)),
            references_view(references@) == resolved_references(fv.subrange(0, i as int)),
            strings_view(redundant_fields@) == resolved_redundant(fv.subrange(0, i as int)),
        decreases fields.len() - i,
    {
        let name = &fields[i].0;
        let tag = &fields[i].1;
        let ghost f = fv[i as int];
        assert(fv.subrange(0, i + 1).drop_last() =~= fv.subrange(0, i as int));
        assert(fv.subrange(0, i + 1).last() == f);
        if is_reserved_name(name.as_str()) {
            redundant_fields.push(name.clone());
            assert(strings_view(redundant_fields@) =~= resolved_redundant(fv.subrange(0, i + 1)));
            assert(columns_view(columns@) =~= resolved_columns(fv.subrange(0, i + 1)));
            assert(references_view(references@) =~= resolved_references(
                fv.subrange(0, i + 1),
            ));
        } else if str_eq(tag.as_str(), "references") {
            let fk = foreign_key_name(name.as_str());
            columns.push(Column { name: fk.clone(), schema_type: SchemaType::Integer });
            references.push(Reference { target: name.clone(), foreign_key: fk });
            assert(strings_view(redundant_fields@) =~= resolved_redundant(fv.subrange(0, i + 1)));
            assert(columns_view(columns@) =~= resolved_columns(fv.subrange(0, i + 1)));
            assert(references_view(references@) =~= resolved_references(
                fv.subrange(0, i + 1),
            ));
        } else {
            match lookup(tag.as_str()) {
                Ok(t) => {
                    columns.push(Column { name: name.clone(), schema_type: t });
                    assert(strings_view(redundant_fields@) =~= resolved_redundant(
                        fv.subrange(0, i + 1),
                    ));
                    assert(columns_view(columns@) =~= resolved_columns(fv.subrange(0, i + 1)));
                    assert(references_view(references@) =~= resolved_references(
                        fv.subrange(0, i + 1),
                    ));
                },
                Err(e) => {
                    assert(field_rejected(fv[i as int]));
                    return Err(e);
                },
            }
        }
        assert(all_accepted(fv.subrange(0, i + 1)));
        i = i + 1;
    }
    assert(fv.subrange(0, fields.len() as int) =~= fv);
    Ok(Resolution { columns, references, redundant_fields })
}

/// How many times `x` occurs in `s`.
pub open spec fn occurrences<A>(s: Seq<A>, x: A) -> nat
    decreases s.len(),
{
    if s.len() == 0 {
        0
    } else {
        occurrences(s.drop_last(), x) + if s.last() == x {
            1nat
        } else {
            0nat
        }
    }
}

proof fn lemma_occurrences_concat<A>(a: Seq<A>, b: Seq<A>, x: A)
    ensures
        occurrences(a + b, x) == occurrences(a, x) + occurrences(b, x),
    decreases b.len(),
{
    if b.len() == 0 {
        assert(a + b =~= a);
    } else {
        assert((a + b).drop_last() =~= a + b.drop_last());
        lemma_occurrences_concat(a, b.drop_last(), x);
    }
}

/// Resolving a concatenation is concatenating the resolutions.
proof fn lemma_resolved_concat(a: Seq<FieldView>, b: Seq<FieldView>)
    ensures
        resolved_columns(a + b) == resolved_columns(a) + resolved_columns(b),
        resolved_references(a + b) == resolved_references(a) + resolved_references(b),
        resolved_redundant(a + b) == resolved_redundant(a) + resolved_redundant(b),
    decreases b.len(),
{
    if b.len() == 0 {
        assert(a + b =~= a);
        assert(resolved_columns(a) + resolved_columns(b) =~= resolved_columns(a));
        assert(resolved_references(a) + resolved_references(b) =~= resolved_references(a));
        assert(resolved_redundant(a) + resolved_redundant(b) =~= resolved_redundant(a));
    } else {
        assert((a + b).drop_last() =~= a + b.drop_last());
        lemma_resolved_concat(a, b.drop_last());
        assert(resolved_columns(a + b) =~= resolved_columns(a) + resolved_columns(b));
        assert(resolved_references(a + b) =~= resolved_references(a) + resolved_references(b));
        assert(resolved_redundant(a + b) =~= resolved_redundant(a) + resolved_redundant(b));
    }
}

/// A list of fields with no reserved name and no relation resolves, when it
/// resolves, to one column per field, named as the fields are and in their
/// order, and to no reference.
pub proof fn lemma_plain_fields_keep_order(fs: Seq<FieldView>)
    requires
        forall|i: int|
            0 <= i < fs.len() ==> !is_reserved(#[trigger] fs[i].0) && !is_relation(fs[i].1),
    ensures
        all_accepted(fs) ==> resolved_columns(fs).len() == fs.len() && forall|i: int|
            0 <= i < fs.len() ==> #[trigger] resolved_columns(fs)[i].0 == fs[i].0,
        resolved_references(fs) == Seq::<ReferenceView>::empty(),
    decreases fs.len(),
{
    if fs.len() > 0 {
        let init = fs.drop_last();
        assert forall|i: int| 0 <= i < init.len() implies !is_reserved(#[trigger] init[i].0)
            && !is_relation(init[i].1) by {
            assert(init[i] == fs[i]);
        }
        lemma_plain_fields_keep_order(init);
        assert(!is_reserved(fs[fs.len() - 1].0));
        assert(resolved_references(fs) =~= Seq::<ReferenceView>::empty());
        if all_accepted(fs) {
            assert(!field_rejected(fs[fs.len() - 1]));
            assert(all_accepted(init)) by {
                assert forall|i: int| 0 <= i < init.len() implies !field_rejected(
                    #[trigger] init[i],
                ) by {
                    assert(init[i] == fs[i]);
                }
            }
        }
    }
}

/// A relation field `n` that is not reserved yields exactly one integer
/// column `n_id` and exactly one reference `(n, n_id)`, unless another field
/// yields the same column or reference as well.
pub proof fn lemma_relation_field_expands(fs: Seq<FieldView>, i: int)
    requires
        0 <= i < fs.len(),
        is_relation(fs[i].1),
        !is_reserved(fs[i].0),
        forall|j: int|
            0 <= j < fs.len() && j != i ==> occurrences(
                field_columns(#[trigger] fs[j]),
                (foreign_key(fs[i].0), SchemaType::Integer),
            ) == 0 && occurrences(field_references(fs[j]), (fs[i].0, foreign_key(fs[i].0))) == 0,
    ensures
        occurrences(resolved_columns(fs), (foreign_key(fs[i].0), SchemaType::Integer)) == 1,
        occurrences(resolved_references(fs), (fs[i].0, foreign_key(fs[i].0))) == 1,
{
    lemma_relation_prefix(fs, i, fs.len() as int);
    assert(fs.subrange(0, fs.len() as int) =~= fs);
}

/// The count of [`lemma_relation_field_expands`] over the first `k` fields.
proof fn lemma_relation_prefix(fs: Seq<FieldView>, i: int, k: int)
    requires
        0 <= i < fs.len(),
        0 <= k <= fs.len(),
        is_relation(fs[i].1),
        !is_reserved(fs[i].0),
        forall|j: int|
            0 <= j < fs.len() && j != i ==> occurrences(
                field_columns(#[trigger] fs[j]),
                (foreign_key(fs[i].0), SchemaType::Integer),
            ) == 0 && occurrences(field_references(fs[j]), (fs[i].0, foreign_key(fs[i].0))) == 0,
    ensures
        occurrences(
            resolved_columns(fs.subrange(0, k)),
            (foreign_key(fs[i].0), SchemaType::Integer),
        ) == if k > i {
            1nat
        } else {
            0nat
        },
        occurrences(resolved_references(fs.subrange(0, k)), (fs[i].0, foreign_key(fs[i].0)))
            == if k > i {
            1nat
        } else {
            0nat
        },
    decreases k,
{
    let c = (foreign_key(fs[i].0), SchemaType::Integer);
    let r = (fs[i].0, foreign_key(fs[i].0));
    if k == 0 {
        assert(fs.subrange(0, 0) =~= Seq::<FieldView>::empty());
    } else {
        lemma_relation_prefix(fs, i, k - 1);
        let p = fs.subrange(0, k);
        assert(p.drop_last() =~= fs.subrange(0, k - 1));
        assert(p.last() == fs[k - 1]);
        lemma_occurrences_concat(
            resolved_columns(fs.subrange(0, k - 1)),
            field_columns(fs[k - 1]),
            c,
        );
        lemma_occurrences_concat(
            resolved_references(fs.subrange(0, k - 1)),
            field_references(fs[k - 1]),
            r,
        );
        if k - 1 == i {
            assert(field_columns(fs[i]) == seq![c]);
            assert(seq![c].drop_last() =~= Seq::<ColumnView>::empty());
            assert(occurrences(Seq::<ColumnView>::empty(), c) == 0);
            assert(occurrences(seq![c], c) == 1);
            assert(field_references(fs[i]) == seq![r]);
            assert(seq![r].drop_last() =~= Seq::<ReferenceView>::empty());
            assert(occurrences(Seq::<ReferenceView>::empty(), r) == 0);
            assert(occurrences(seq![r], r) == 1);
        }
    }
}

/// A field with a reserved name contributes no column and no reference, and
/// never makes resolution fail: the result is that of the list without it.
pub proof fn lemma_reserved_field_vanishes(fs: Seq<FieldView>, i: int)
    requires
        0 <= i < fs.len(),
        is_reserved(fs[i].0),
    ensures
        field_columns(fs[i]) == Seq::<ColumnView>::empty(),
        field_references(fs[i]) == Seq::<ReferenceView>::empty(),
        !field_rejected(fs[i]),
        resolved_columns(fs) == resolved_columns(fs.remove(i)),
        resolved_references(fs) == resolved_references(fs.remove(i)),
        all_accepted(fs) <==> all_accepted(fs.remove(i)),
{
    let pre = fs.subrange(0, i);
    let post = fs.subrange(i + 1, fs.len() as int);
    let one = seq![fs[i]];
    assert(fs =~= pre + one + post);
    assert(fs.remove(i) =~= pre + post);
    lemma_resolved_concat(pre + one, post);
    lemma_resolved_concat(pre, one);
    lemma_resolved_concat(pre, post);
    assert(one.drop_last() =~= Seq::<FieldView>::empty());
    assert(resolved_columns(Seq::<FieldView>::empty()) == Seq::<ColumnView>::empty());
    assert(resolved_references(Seq::<FieldView>::empty()) == Seq::<ReferenceView>::empty());
    assert(resolved_columns(one) =~= Seq::<ColumnView>::empty());
    assert(resolved_references(one) =~= Seq::<ReferenceView>::empty());
    assert(resolved_columns(pre) + resolved_columns(one) =~= resolved_columns(pre));
    assert(resolved_references(pre) + resolved_references(one) =~= resolved_references(pre));
    let rest = fs.remove(i);
    if all_accepted(rest) {
        assert forall|j: int| 0 <= j < fs.len() implies !field_rejected(#[trigger] fs[j]) by {
            if j < i {
                assert(fs[j] == rest[j]);
            } else if j > i {
                assert(fs[j] == rest[j - 1]);
            }
        }
    }
    if all_accepted(fs) {
        assert forall|j: int| 0 <= j < rest.len() implies !field_rejected(#[trigger] rest[j]) by {
            if j < i {
                assert(fs[j] == rest[j]);
            } else {
                assert(fs[j + 1] == rest[j]);
            }
        }
    }
}

/// A field whose name is not reserved and whose tag is neither a relation nor
/// in the symbol table makes the whole list fail to resolve.
pub proof fn lemma_unknown_tag_rejects(fs: Seq<FieldView>, i: int)
    requires
        0 <= i < fs.len(),
        !is_reserved(fs[i].0),
        !is_relation(fs[i].1),
        type_for_tag(fs[i].1) is None,
    ensures
        !all_accepted(fs),
{
    assert(field_rejected(fs[i]));
}

} // verus!
