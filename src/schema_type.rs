//! The closed vocabulary of column types and the table from type tags to it.

use vstd::prelude::*;

verus! {

/// A column type that the schema and migration layer understands.
///
/// `...Null` columns are nullable, plain ones are required, `...Uniq` ones are
/// required and unique.
#[derive(Clone, Copy, Debug, PartialEq, Eq, Structural)]
pub enum SchemaType {
    Uuid,
    StrNull,
    Str,
    StrUniq,
    TextNull,
    Text,
    TinyIntegerNull,
    TinyInteger,
    TinyIntegerUniq,
    SmallIntegerNull,
    SmallInteger,
    SmallIntegerUniq,
    IntegerNull,
    Integer,
    IntegerUniq,
    BigIntegerNull,
    BigInteger,
    BigIntegerUniq,
    FloatNull,
    Float,
    DoubleNull,
    Double,
    DecimalNull,
    Decimal,
    DecimalLenNull,
    DecimalLen,
    BoolNull,
    Bool,
    TimestamptzNull,
    Timestamptz,
    DateNull,
    Date,
    TimestampNull,
    Timestamp,
    JsonNull,
    Json,
    JsonbNull,
    Jsonb,
}

impl SchemaType {
    /// The canonical name of the column type, as the schema layer spells it.
    pub open spec fn spec_name(self) -> &'static str {
        match self {
            SchemaType::Uuid => "uuid",
            SchemaType::StrNull => "string_null",
            SchemaType::Str => "string",
            SchemaType::StrUniq => "string_uniq",
            SchemaType::TextNull => "text_null",
            SchemaType::Text => "text",
            SchemaType::TinyIntegerNull => "tiny_integer_null",
            SchemaType::TinyInteger => "tiny_integer",
            SchemaType::TinyIntegerUniq => "tiny_integer_uniq",
            SchemaType::SmallIntegerNull => "small_integer_null",
            SchemaType::SmallInteger => "small_integer",
            SchemaType::SmallIntegerUniq => "small_integer_uniq",
            SchemaType::IntegerNull => "integer_null",
            SchemaType::Integer => "integer",
            SchemaType::IntegerUniq => "integer_uniq",
            SchemaType::BigIntegerNull => "big_integer_null",
            SchemaType::BigInteger => "big_integer",
            SchemaType::BigIntegerUniq => "big_integer_uniq",
            SchemaType::FloatNull => "float_null",
            SchemaType::Float => "float",
            SchemaType::DoubleNull => "double_null",
            SchemaType::Double => "double",
            SchemaType::DecimalNull => "decimal_null",
            SchemaType::Decimal => "decimal",
            SchemaType::DecimalLenNull => "decimal_len_null",
            SchemaType::DecimalLen => "decimal_len",
            SchemaType::BoolNull => "bool_null",
            SchemaType::Bool => "bool",
            SchemaType::TimestamptzNull => "timestamptz_null",
            SchemaType::Timestamptz => "timestamptz",
            SchemaType::DateNull => "date_null",
            SchemaType::Date => "date",
            SchemaType::TimestampNull => "timestamp_null",
            SchemaType::Timestamp => "timestamp",
            SchemaType::JsonNull => "json_null",
            SchemaType::Json => "json",
            SchemaType::JsonbNull => "jsonb_null",
            SchemaType::Jsonb => "jsonb",
        }
    }

    /// The canonical name of the column type.
    pub fn name(&self) -> (r: &'static str)
        ensures
            r@ == self.spec_name()@,
    {
        match self {
            SchemaType::Uuid => "uuid",
            SchemaType::StrNull => "string_null",
            SchemaType::Str => "string",
            SchemaType::StrUniq => "string_uniq",
            SchemaType::TextNull => "text_null",
            SchemaType::Text => "text",
            SchemaType::TinyIntegerNull => "tiny_integer_null",
            SchemaType::TinyInteger => "tiny_integer",
            SchemaType::TinyIntegerUniq => "tiny_integer_uniq",
            SchemaType::SmallIntegerNull => "small_integer_null",
            SchemaType::SmallInteger => "small_integer",
            SchemaType::SmallIntegerUniq => "small_integer_uniq",
            SchemaType::IntegerNull => "integer_null",
            SchemaType::Integer => "integer",
            SchemaType::IntegerUniq => "integer_uniq",
            SchemaType::BigIntegerNull => "big_integer_null",
            SchemaType::BigInteger => "big_integer",
            SchemaType::BigIntegerUniq => "big_integer_uniq",
            SchemaType::FloatNull => "float_null",
            SchemaType::Float => "float",
            SchemaType::DoubleNull => "double_null",
            SchemaType::Double => "double",
            SchemaType::DecimalNull => "decimal_null",
            SchemaType::Decimal => "decimal",
            SchemaType::DecimalLenNull => "decimal_len_null",
            SchemaType::DecimalLen => "decimal_len",
            SchemaType::BoolNull => "bool_null",
            SchemaType::Bool => "bool",
            SchemaType::TimestamptzNull => "timestamptz_null",
            SchemaType::Timestamptz => "timestamptz",
            SchemaType::DateNull => "date_null",
            SchemaType::Date => "date",
            SchemaType::TimestampNull => "timestamp_null",
            SchemaType::Timestamp => "timestamp",
            SchemaType::JsonNull => "json_null",
            SchemaType::Json => "json",
            SchemaType::JsonbNull => "jsonb_null",
            SchemaType::Jsonb => "jsonb",
        }
    }
}

/// The symbol table: each accepted type tag with the column type it stands for.
pub open spec fn symbol_table() -> Seq<(&'static str, SchemaType)> {
    seq![
        ("uuid", SchemaType::Uuid),
        ("string", SchemaType::StrNull),
        ("string!", SchemaType::Str),
        ("string^", SchemaType::StrUniq),
        ("text", SchemaType::TextNull),
        ("text!", SchemaType::Text),
        ("tiny_integer", SchemaType::TinyIntegerNull),
        ("tiny_integer!", SchemaType::TinyInteger),
        ("tiny_integer^", SchemaType::TinyIntegerUniq),
        ("small_integer", SchemaType::SmallIntegerNull),
        ("small_integer!", SchemaType::SmallInteger),
        ("small_integer^", SchemaType::SmallIntegerUniq),
        ("int", SchemaType::IntegerNull),
        ("int!", SchemaType::Integer),
        ("int^", SchemaType::IntegerUniq),
        ("big_integer", SchemaType::BigIntegerNull),
        ("big_integer!", SchemaType::BigInteger),
        ("big_integer^", SchemaType::BigIntegerUniq),
        ("float", SchemaType::FloatNull),
        ("float!", SchemaType::Float),
        ("double", SchemaType::DoubleNull),
        ("double!", SchemaType::Double),
        ("decimal", SchemaType::DecimalNull),
        ("decimal!", SchemaType::Decimal),
        ("decimal_len", SchemaType::DecimalLenNull),
        ("decimal_len!", SchemaType::DecimalLen),
        ("bool", SchemaType::BoolNull),
        ("bool!", SchemaType::Bool),
        ("tstz", SchemaType::TimestamptzNull),
        ("tstz!", SchemaType::Timestamptz),
        ("date", SchemaType::DateNull),
        ("date!", SchemaType::Date),
        ("ts", SchemaType::TimestampNull),
        ("ts!", SchemaType::Timestamp),
        ("json", SchemaType::JsonNull),
        ("json!", SchemaType::Json),
        ("jsonb", SchemaType::JsonbNull),
        ("jsonb!", SchemaType::Jsonb),
    ]
}

/// The accepted type tags, in table order.
pub open spec fn valid_tags() -> Seq<Seq<char>> {
    symbol_table().map_values(|e: (&'static str, SchemaType)| e.0@)
}

/// The column type of the first table entry whose tag is `tag`, counting
/// from entry `i` on.
pub open spec fn type_from(tag: Seq<char>, i: int) -> Option<SchemaType>
    decreases symbol_table().len() - i,
{
    if i < 0 || i >= symbol_table().len() {
        None
    } else if symbol_table()[i].0@ == tag {
        Some(symbol_table()[i].1)
    } else {
        type_from(tag, i + 1)
    }
}

/// What the symbol table maps `tag` to, if anything.
pub open spec fn type_for_tag(tag: Seq<char>) -> Option<SchemaType> {
    type_from(tag, 0)
}

/// Whether `a` and `b` hold the same characters.
pub fn str_eq(a: &str, b: &str) -> (r: bool)
    ensures
        r == (a@ == b@),
{
    let n = a.unicode_len();
    if n != b.unicode_len() {
        return false;
    }
    let mut i: usize = 0;
    while i < n
        invariant
            n == a@.len(),
            n == b@.len(),
            i <= n,
            a@.subrange(0, i as int) == b@.subrange(0, i as int),
        decreases n - i,
    {
        if a.get_char(i) != b.get_char(i) {
            return false;
        }
        assert(a@.subrange(0, i + 1) == a@.subrange(0, i as int).push(a@[i as int]));
        assert(b@.subrange(0, i + 1) == b@.subrange(0, i as int).push(b@[i as int]));
        i = i + 1;
    }
    assert(a@ == a@.subrange(0, n as int));
    assert(b@ == b@.subrange(0, n as int));
    true
}

/// The symbol table as a vector.
fn table() -> (r: Vec<(&'static str, SchemaType)>)
    ensures
        r@ == symbol_table(),
{
    let r = vec![
        ("uuid", SchemaType::Uuid),
        ("string", SchemaType::StrNull),
        ("string!", SchemaType::Str),
        ("string^", SchemaType::StrUniq),
        ("text", SchemaType::TextNull),
        ("text!", SchemaType::Text),
        ("tiny_integer", SchemaType::TinyIntegerNull),
        ("tiny_integer!", SchemaType::TinyInteger),
        ("tiny_integer^", SchemaType::TinyIntegerUniq),
        ("small_integer", SchemaType::SmallIntegerNull),
        ("small_integer!", SchemaType::SmallInteger),
        ("small_integer^", SchemaType::SmallIntegerUniq),
        ("int", SchemaType::IntegerNull),
        ("int!", SchemaType::Integer),
        ("int^", SchemaType::IntegerUniq),
        ("big_integer", SchemaType::BigIntegerNull),
        ("big_integer!", SchemaType::BigInteger),
        ("big_integer^", SchemaType::BigIntegerUniq),
        ("float", SchemaType::FloatNull),
        ("float!", SchemaType::Float),
        ("double", SchemaType::DoubleNull),
        ("double!", SchemaType::Double),
        ("decimal", SchemaType::DecimalNull),
        ("decimal!", SchemaType::Decimal),
        ("decimal_len", SchemaType::DecimalLenNull),
        ("decimal_len!", SchemaType::DecimalLen),
        ("bool", SchemaType::BoolNull),
        ("bool!", SchemaType::Bool),
        ("tstz", SchemaType::TimestamptzNull),
        ("tstz!", SchemaType::Timestamptz),
        ("date", SchemaType::DateNull),
        ("date!", SchemaType::Date),
        ("ts", SchemaType::TimestampNull),
        ("ts!", SchemaType::Timestamp),
        ("json", SchemaType::JsonNull),
        ("json!", SchemaType::Json),
        ("jsonb", SchemaType::JsonbNull),
        ("jsonb!", SchemaType::Jsonb),
    ];
    assert(r@ == symbol_table());
    r
}

/// Relates [`type_from`] to the entries from `i` on: it finds a type exactly
/// when some entry there carries the tag, and the type it finds is that of
/// such an entry.
proof fn lemma_type_from(tag: Seq<char>, i: int)
    requires
        0 <= i <= symbol_table().len(),
    ensures
        type_from(tag, i) is Some <==> exists|j: int|
            i <= j < symbol_table().len() && #[trigger] symbol_table()[j].0@ == tag,
        type_from(tag, i) matches Some(t) ==> exists|j: int|
            i <= j < symbol_table().len() && #[trigger] symbol_table()[j].0@ == tag
                && symbol_table()[j].1 == t,
    decreases symbol_table().len() - i,
{
    if i < symbol_table().len() {
        lemma_type_from(tag, i + 1);
    }
}

/// Every accepted tag resolves, and what it resolves to is the type that the
/// table pairs with it: a member of the closed vocabulary, fixed by the tag
/// alone. Any other tag resolves to nothing.
pub proof fn lemma_lookup_total_on_valid_tags(tag: Seq<char>)
    ensures
        valid_tags().contains(tag) <==> type_for_tag(tag) is Some,
        type_for_tag(tag) matches Some(t) ==> exists|j: int|
            0 <= j < symbol_table().len() && #[trigger] symbol_table()[j].0@ == tag
                && symbol_table()[j].1 == t,
{
    lemma_type_from(tag, 0);
    if valid_tags().contains(tag) {
        let j = choose|j: int| 0 <= j < valid_tags().len() && valid_tags()[j] == tag;
        assert(symbol_table()[j].0@ == tag);
    }
    if type_for_tag(tag) is Some {
        let j = choose|j: int|
            0 <= j < symbol_table().len() && #[trigger] symbol_table()[j].0@ == tag;
        assert(valid_tags()[j] == tag);
    }
}

/// A type tag that the symbol table does not hold.
pub struct UnknownTypeTag {
    /// The rejected tag.
    pub tag: String,
    /// Every tag that the table accepts, in table order.
    pub valid_tags: Vec<&'static str>,
}

/// The characters of each tag in a list.
pub open spec fn tags_of(v: Seq<&'static str>) -> Seq<Seq<char>> {
    v.map_values(|t: &'static str| t@)
}

/// Every tag that the symbol table accepts, in table order.
pub fn valid_tag_list() -> (r: Vec<&'static str>)
    ensures
        tags_of(r@) == valid_tags(),
{
    let t = table();
    let mut r: Vec<&'static str> = Vec::new();
    let mut i: usize = 0;
    while i < t.len()
        invariant
            t@ == symbol_table(),
            i <= t.len(),
            r@.len() == i,
            forall|k: int| 0 <= k < i ==> r@[k] == symbol_table()[k].0,
        decreases t.len() - i,
    {
        r.push(t[i].0);
        i = i + 1;
    }
    assert(tags_of(r@) =~= valid_tags());
    r
}

/// Looks `tag` up in the symbol table.
///
/// A miss carries the rejected tag and the full list of accepted tags.
pub fn lookup(tag: &str) -> (r: Result<SchemaType, UnknownTypeTag>)
    ensures
        match r {
            Ok(t) => type_for_tag(tag@) == Some(t),
            Err(e) => {
                &&& type_for_tag(tag@) is None
                &&& e.tag@ == tag@
                &&& tags_of(e.valid_tags@) == valid_tags()
            },
        },
{
    let t = table();
    let mut i: usize = 0;
    while i < t.len()
        invariant
            t@ == symbol_table(),
            i <= t.len(),
            type_for_tag(tag@) == type_from(tag@, i as int),
        decreases t.len() - i,
    {
        if str_eq(t[i].0, tag) {
            return Ok(t[i].1);
        }
        i = i + 1;
    }
    Err(UnknownTypeTag { tag: tag.to_owned(), valid_tags: valid_tag_list() })
}

} // verus!
