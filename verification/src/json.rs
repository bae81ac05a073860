//! A minimal JSON document model.
//!
//! Wire payloads are represented as trees of [`JsonValue`].  Contracts
//! about documents are stated over the mathematical model [`Jv`], which
//! replaces every executable container by its abstract view, so that a
//! specification can build and compare documents freely.

use vstd::prelude::*;

verus! {

broadcast use vstd::std_specs::vec::group_vec_axioms;

/// A decimal number, `mantissa * 10^(-scale)`, negated when `neg` is set.
///
/// Monetary and quantity values travel as JSON numbers; this fixed-point
/// form keeps typical currency magnitudes exact.  An integer `n` is the
/// decimal with scale `0` and mantissa `|n|`.
#[derive(Debug, Clone, Copy, PartialEq, Eq, Structural)]
pub struct Decimal {
    pub neg: bool,
    pub mantissa: u64,
    pub scale: u32,
}

impl Decimal {
    /// Builds the decimal `(-1)^neg * mantissa * 10^(-scale)`.
    pub fn new(neg: bool, mantissa: u64, scale: u32) -> (r: Decimal)
        ensures
            r == (Decimal { neg, mantissa, scale }),
    {
        Decimal { neg, mantissa, scale }
    }
}

/// One key/value entry of a JSON object.
#[derive(Debug, PartialEq)]
pub struct JsonField {
    pub key: String,
    pub value: JsonValue,
}

/// A JSON document tree.
///
/// Object entries keep their order; the decoder looks a key up by its
/// first occurrence.
#[derive(Debug, PartialEq)]
pub enum JsonValue {
    Null,
    Bool(bool),
    Num(Decimal),
    Str(String),
    Arr(Vec<JsonValue>),
    Obj(Vec<JsonField>),
}

/// The mathematical model of a JSON document: strings become character
/// sequences and vectors become sequences, so specifications can build
/// and take apart documents without executable allocation.
#[verifier::ext_equal]
pub enum Jv {
    Null,
    Bool(bool),
    Num(Decimal),
    Str(Seq<char>),
    Arr(Seq<Jv>),
    Obj(Seq<(Seq<char>, Jv)>),
}

/// Maps a document tree to its model.
pub open spec fn jv_of(v: JsonValue) -> Jv
    decreases v,
{
    match v {
        JsonValue::Null => Jv::Null,
        JsonValue::Bool(b) => Jv::Bool(b),
        JsonValue::Num(d) => Jv::Num(d),
        JsonValue::Str(s) => Jv::Str(s@),
        JsonValue::Arr(a) => Jv::Arr(jv_of_list(a@)),
        JsonValue::Obj(o) => Jv::Obj(obj_entries(o@)),
    }
}

/// The model of an array's element list.
pub open spec fn jv_of_list(s: Seq<JsonValue>) -> Seq<Jv>
    decreases s via jv_of_list_decreases
{
    if s.len() == 0 {
        Seq::empty()
    } else {
        seq![jv_of(s[0])] + jv_of_list(s.drop_first())
    }
}

#[via_fn]
proof fn jv_of_list_decreases(s: Seq<JsonValue>) {
    if s.len() != 0 {
        vstd::seq::axiom_seq_len_decreases(s, s.drop_first());
    }
}

/// The model of an object's entry list.
pub open spec fn obj_entries(fields: Seq<JsonField>) -> Seq<(Seq<char>, Jv)>
    decreases fields via obj_entries_decreases
{
    if fields.len() == 0 {
        Seq::empty()
    } else {
        seq![(fields[0].key@, jv_of(fields[0].value))] + obj_entries(fields.drop_first())
    }
}

#[via_fn]
proof fn obj_entries_decreases(fields: Seq<JsonField>) {
    if fields.len() != 0 {
        vstd::seq::axiom_seq_len_decreases(fields, fields.drop_first());
    }
}

/// Pointwise reading of an element list's model.
pub proof fn lemma_jv_of_list_index(s: Seq<JsonValue>)
    ensures
        jv_of_list(s).len() == s.len(),
        forall|i: int| 0 <= i < s.len() ==> jv_of_list(s)[i] == jv_of(s[i]),
    decreases s.len(),
{
    if s.len() != 0 {
        lemma_jv_of_list_index(s.drop_first());
        assert forall|i: int| 0 <= i < s.len() implies jv_of_list(s)[i] == jv_of(s[i]) by {
            if i > 0 {
                assert(s.drop_first()[i - 1] == s[i]);
            }
        }
    }
}

/// Pointwise reading of an entry list's model.
pub proof fn lemma_obj_entries_index(fields: Seq<JsonField>)
    ensures
        obj_entries(fields).len() == fields.len(),
        forall|i: int| 0 <= i < fields.len() ==> obj_entries(fields)[i] == (
        fields[i].key@,
        jv_of(fields[i].value),
        ),
    decreases fields.len(),
{
    if fields.len() != 0 {
        lemma_obj_entries_index(fields.drop_first());
        assert forall|i: int| 0 <= i < fields.len() implies obj_entries(fields)[i] == (
            fields[i].key@,
            jv_of(fields[i].value),
        ) by {
            if i > 0 {
                assert(fields.drop_first()[i - 1] == fields[i]);
            }
        }
    }
}

impl View for JsonValue {
    type V = Jv;

    open spec fn view(&self) -> Jv {
        jv_of(*self)
    }
}

/// The value under `key` in an entry list, at its first occurrence.
pub open spec fn obj_get(entries: Seq<(Seq<char>, Jv)>, key: Seq<char>) -> Option<Jv>
    decreases entries.len(),
{
    if entries.len() == 0 {
        None
    } else if entries[0].0 == key {
        Some(entries[0].1)
    } else {
        obj_get(entries.subrange(1, entries.len() as int), key)
    }
}

/// Looking a key up is unchanged by dropping a prefix that does not hold it.
pub proof fn lemma_obj_get_skip(entries: Seq<(Seq<char>, Jv)>, key: Seq<char>, i: int)
    requires
        0 <= i <= entries.len(),
        forall|j: int| 0 <= j < i ==> entries[j].0 != key,
    ensures
        obj_get(entries, key) == obj_get(entries.subrange(i, entries.len() as int), key),
    decreases i,
{
    if i == 0 {
        assert(entries.subrange(0, entries.len() as int) =~= entries);
    } else {
        let tail = entries.subrange(1, entries.len() as int);
        lemma_obj_get_skip(tail, key, i - 1);
        assert(tail.subrange(i - 1, tail.len() as int) =~= entries.subrange(
            i,
            entries.len() as int,
        ));
    }
}

/// Character-for-character string equality.
pub fn str_eq(a: &str, b: &str) -> (r: bool)
    ensures
        r == (a@ == b@),
{
    let la = a.unicode_len();
    let lb = b.unicode_len();
    if la != lb {
        return false;
    }
    let mut i: usize = 0;
    while i < la
        invariant
            0 <= i <= la,
            la == a@.len(),
            la == b@.len(),
            forall|j: int| 0 <= j < i ==> a@[j] == b@[j],
        decreases la - i,
    {
        if a.get_char(i) != b.get_char(i) {
            return false;
        }
        i += 1;
    }
    proof {
        assert(a@ =~= b@);
    }
    true
}

impl JsonValue {
    /// Whether this document is the JSON `null`.
    pub fn is_null(&self) -> (r: bool)
        ensures
            r == (self@ is Null),
    {
        match self {
            JsonValue::Null => true,
            _ => false,
        }
    }
}

/// A borrow of the value under `key`, when the key is present.
pub fn find_field<'a>(fields: &'a Vec<JsonField>, key: &str) -> (r: Option<&'a JsonValue>)
    ensures
        match r {
            Some(fv) => obj_get(obj_entries(fields@), key@) == Some(jv_of(*fv)),
            None => obj_get(obj_entries(fields@), key@) is None,
        },
{
    let n = fields.len();
    let mut i: usize = 0;
    while i < n
        invariant
            0 <= i <= n,
            n == fields@.len(),
            forall|j: int| 0 <= j < i ==> fields@[j].key@ != key@,
        decreases n - i,
    {
        if str_eq(fields[i].key.as_str(), key) {
            proof {
                lemma_obj_entries_index(fields@);
                lemma_obj_get_skip(obj_entries(fields@), key@, i as int);
                assert(obj_entries(fields@).subrange(i as int, fields@.len() as int)[0]
                    == obj_entries(fields@)[i as int]);
            }
            return Some(&fields[i].value);
        }
        i += 1;
    }
    proof {
        lemma_obj_entries_index(fields@);
        lemma_obj_get_skip(obj_entries(fields@), key@, n as int);
    }
    None
}

} // verus!
