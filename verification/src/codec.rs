//! The field codec layer: how typed values travel inside JSON objects.
//!
//! Every parameter and response shape encodes to and decodes from a
//! [`JsonValue`] object through the two traits here.  The field helpers
//! fix the policy that is uniform across the whole catalog:
//!
//! * integer identifiers encode as native numbers but decode from
//!   either a number or a numeric string;
//! * dates decode from any supported textual format and encode in the
//!   ISO form;
//! * closed enumerations refuse unknown codes outright;
//! * a required field must be present; an optional field may be absent
//!   or `null`, decodes to the unset state then, and is omitted from
//!   encoded output entirely when unset.

use vstd::prelude::*;
use crate::json::JsonField;
use crate::json::JsonValue;
use crate::json::Jv;
use crate::json::Decimal;
use crate::json::find_field;
use crate::json::jv_of;
use crate::json::jv_of_list;
use crate::json::lemma_jv_of_list_index;
use crate::json::lemma_obj_entries_index;
use crate::json::obj_entries;
use crate::json::obj_get;
use crate::num::render_u64;
use crate::num::parse_i64;
use crate::num::spec_i64_string;
use crate::num::spec_parse_i64;
use crate::num::spec_u64_string;
use crate::num::lemma_parse_render_i64;
use crate::date::Date;
use crate::date::DateTime;
use crate::date::parse_date;
use crate::date::parse_datetime;
use crate::date::render_date;
use crate::date::render_datetime;
use crate::date::spec_parse_date;
use crate::date::spec_parse_date_fmt;
use crate::date::spec_parse_datetime;
use crate::date::spec_render_date;
use crate::date::spec_render_datetime;
use crate::enums::Country;
use crate::enums::Currency;
use crate::enums::Market;
use crate::enums::PayoutDescription;
use crate::enums::SaleAllocationMethod;
use crate::enums::TradeDescription;

verus! {

/// Why a decode failed.
#[derive(Debug, Clone, Copy, PartialEq, Eq, Structural)]
pub enum ErrorKind {
    /// A required field is absent.
    MissingField,
    /// A value or the surrounding document has the wrong JSON shape.
    WrongType,
    /// A string is outside a closed vocabulary.
    UnknownCode,
    /// A date string matches no supported format.
    BadDate,
    /// A timestamp string is malformed.
    BadTimestamp,
    /// A number is out of range or a numeric string is malformed.
    BadNumber,
}

/// The short name of a failure kind.
pub open spec fn spec_kind_name(k: ErrorKind) -> Seq<char> {
    match k {
        ErrorKind::MissingField => "missing field"@,
        ErrorKind::WrongType => "wrong type"@,
        ErrorKind::UnknownCode => "unknown code"@,
        ErrorKind::BadDate => "unrecognized date format"@,
        ErrorKind::BadTimestamp => "unrecognized timestamp format"@,
        ErrorKind::BadNumber => "bad number"@,
    }
}

/// Whether the path `p` begins with the name `prefix`: how an error
/// names the field or endpoint it arose under.
pub open spec fn spec_starts_with(p: Seq<char>, prefix: Seq<char>) -> bool {
    p.len() >= prefix.len() && p.take(prefix.len() as int) == prefix
}

/// A decode failure: the path of the offending field, from the
/// endpoint down, and what went wrong there.
#[derive(Debug, Clone, PartialEq)]
pub struct DecodeError {
    pub path: String,
    pub kind: ErrorKind,
}

impl DecodeError {
    /// A failure of kind `kind` at the place named `at`.
    pub fn new(kind: ErrorKind, at: &str) -> (r: DecodeError)
        ensures
            r.kind == kind,
            r.path@ == at@,
            spec_starts_with(r.path@, at@),
    {
        let r = DecodeError { path: at.to_owned(), kind };
        proof {
            assert(r.path@.take(at@.len() as int) =~= at@);
        }
        r
    }

    /// The same failure, named under field `key` of an enclosing object.
    pub fn in_field(self, key: &str) -> (r: DecodeError)
        ensures
            r.kind == self.kind,
            r.path@ == if self.path@.len() == 0 {
                key@
            } else {
                key@ + "."@ + self.path@
            },
            spec_starts_with(r.path@, key@),
    {
        proof {
            assert(key@.take(key@.len() as int) =~= key@);
            assert((key@ + "."@ + self.path@).take(key@.len() as int) =~= key@);
        }
        if self.path.as_str().is_empty() {
            DecodeError { path: key.to_owned(), kind: self.kind }
        } else {
            let mut p = key.to_owned();
            p.append(".");
            p.append(self.path.as_str());
            DecodeError { path: p, kind: self.kind }
        }
    }

    /// The same failure, named under element `i` of an enclosing array.
    pub fn in_index(self, i: usize) -> (r: DecodeError)
        ensures
            r.kind == self.kind,
            r.path@ == if self.path@.len() == 0 {
                "["@ + spec_u64_string(i as nat) + "]"@
            } else {
                "["@ + spec_u64_string(i as nat) + "]"@ + "."@ + self.path@
            },
    {
        let mut p = "[".to_owned();
        p.append(render_u64(i as u64).as_str());
        p.append("]");
        if self.path.as_str().is_empty() {
            DecodeError { path: p, kind: self.kind }
        } else {
            p.append(".");
            p.append(self.path.as_str());
            DecodeError { path: p, kind: self.kind }
        }
    }

    /// The same failure, named under the endpoint that was decoding.
    pub fn in_endpoint(self, endpoint: &str) -> (r: DecodeError)
        ensures
            r.kind == self.kind,
            r.path@ == endpoint@ + ": "@ + self.path@,
            spec_starts_with(r.path@, endpoint@),
    {
        proof {
            assert((endpoint@ + ": "@ + self.path@).take(endpoint@.len() as int) =~= endpoint@);
        }
        let mut p = endpoint.to_owned();
        p.append(": ");
        p.append(self.path.as_str());
        DecodeError { path: p, kind: self.kind }
    }

    /// The short name of the failure kind.
    pub fn kind_name(&self) -> (r: &'static str)
        ensures
            r@ == spec_kind_name(self.kind),
    {
        match self.kind {
            ErrorKind::MissingField => "missing field",
            ErrorKind::WrongType => "wrong type",
            ErrorKind::UnknownCode => "unknown code",
            ErrorKind::BadDate => "unrecognized date format",
            ErrorKind::BadTimestamp => "unrecognized timestamp format",
            ErrorKind::BadNumber => "bad number",
        }
    }

    /// A printable description: the path, then the failure kind.
    pub fn message(&self) -> (r: String)
        ensures
            r@ == self.path@ + ": "@ + spec_kind_name(self.kind),
    {
        let mut p = self.path.clone();
        p.append(": ");
        p.append(self.kind_name());
        p
    }
}

/// A value that encodes itself into a JSON document.
pub trait ToJson: Sized {
    /// The document model this value encodes to.
    spec fn enc(s: Self) -> Jv;

    /// Encodes this value; the result is exactly `enc`.
    fn encode(&self) -> (r: JsonValue)
        ensures
            r@ == Self::enc(*self),
    ;
}

/// A value decoded from a JSON document.
pub trait FromJson: Sized {
    /// Whether the document is an acceptable wire form of `Self`.
    spec fn decodable(v: Jv) -> bool;

    /// Whether `s` is the value that the document `v` decodes to.
    spec fn rel(v: Jv, s: Self) -> bool;

    /// Decodes a document.  Exactly the documents satisfying
    /// `decodable` are accepted, and the result satisfies `rel`.
    fn decode(v: &JsonValue) -> (r: Result<Self, DecodeError>)
        ensures
            r matches Ok(s) ==> Self::decodable(v@) && Self::rel(v@, s),
            Self::decodable(v@) ==> r is Ok,
    ;
}

/// The one entry a required field contributes to an encoded object.
pub open spec fn req_entry<T: ToJson>(key: Seq<char>, x: T) -> Seq<(Seq<char>, Jv)> {
    seq![(key, T::enc(x))]
}

/// The entries an optional field contributes: nothing at all when the
/// field is unset.
pub open spec fn opt_entry<T: ToJson>(key: Seq<char>, x: Option<T>) -> Seq<(Seq<char>, Jv)> {
    match x {
        None => Seq::empty(),
        Some(y) => seq![(key, T::enc(y))],
    }
}

/// The value under `key` when `v` is an object that holds the key.
pub open spec fn field_of(v: Jv, key: Seq<char>) -> Option<Jv> {
    match v {
        Jv::Obj(entries) => obj_get(entries, key),
        _ => None,
    }
}

/// Whether the required field `key` of `v` is present and acceptable.
pub open spec fn req_field_ok<T: FromJson>(v: Jv, key: Seq<char>) -> bool {
    match field_of(v, key) {
        Some(f) => T::decodable(f),
        None => false,
    }
}

/// Whether `x` is what the required field `key` of `v` decodes to.
pub open spec fn req_field_rel<T: FromJson>(v: Jv, key: Seq<char>, x: T) -> bool {
    match field_of(v, key) {
        Some(f) => T::rel(f, x),
        None => false,
    }
}

/// Whether the optional field `key` of `v` is acceptable: absent,
/// `null`, or an acceptable value.
pub open spec fn opt_field_ok<T: FromJson>(v: Jv, key: Seq<char>) -> bool {
    v is Obj && match field_of(v, key) {
        None => true,
        Some(f) => f is Null || T::decodable(f),
    }
}

/// Whether `x` is what the optional field `key` of `v` decodes to: the
/// unset state when the field is absent or `null`.
pub open spec fn opt_field_rel<T: FromJson>(v: Jv, key: Seq<char>, x: Option<T>) -> bool {
    v is Obj && match field_of(v, key) {
        None => x is None,
        Some(f) => if f is Null {
            x is None
        } else {
            match x {
                Some(y) => T::rel(f, y),
                None => false,
            }
        },
    }
}

/// A builder of encoded objects, one field at a time, in order.
pub struct JsonObj {
    fields: Vec<JsonField>,
}

impl View for JsonObj {
    type V = Seq<(Seq<char>, Jv)>;

    closed spec fn view(&self) -> Seq<(Seq<char>, Jv)> {
        obj_entries(self.fields@)
    }
}

impl JsonObj {
    /// An object with no fields yet.
    pub fn new() -> (r: JsonObj)
        ensures
            r@ == Seq::<(Seq<char>, Jv)>::empty(),
    {
        let r = JsonObj { fields: Vec::new() };
        proof {
            assert(obj_entries(r.fields@) =~= Seq::<(Seq<char>, Jv)>::empty());
        }
        r
    }

    /// Appends a required field.
    pub fn put<T: ToJson>(&mut self, key: &str, x: &T)
        ensures
            final(self)@ == old(self)@ + req_entry(key@, *x),
    {
        let value = x.encode();
        self.fields.push(JsonField { key: key.to_owned(), value });
        proof {
            lemma_obj_entries_index(old(self).fields@);
            lemma_obj_entries_index(self.fields@);
            assert(obj_entries(self.fields@) =~= obj_entries(old(self).fields@) + req_entry(
                key@,
                *x,
            ));
        }
    }

    /// Appends an optional field; an unset field adds nothing.
    pub fn put_opt<T: ToJson>(&mut self, key: &str, x: &Option<T>)
        ensures
            final(self)@ == old(self)@ + opt_entry(key@, *x),
    {
        match x {
            None => {
                proof {
                    assert(old(self)@ + opt_entry::<T>(key@, None) =~= old(self)@);
                }
            },
            Some(y) => {
                self.put(key, y);
                proof {
                    assert(old(self)@ + req_entry(key@, *y) =~= old(self)@ + opt_entry(
                        key@,
                        Some(*y),
                    ));
                }
            },
        }
    }

    /// Finishes the object.
    pub fn finish(self) -> (r: JsonValue)
        ensures
            r@ == Jv::Obj(self@),
    {
        JsonValue::Obj(self.fields)
    }
}

/// Decodes the required field `key` of the object `v`.  The field must
/// be present and acceptable; the error otherwise names the field.
pub fn get_field<T: FromJson>(v: &JsonValue, key: &str) -> (r: Result<T, DecodeError>)
    ensures
        r matches Ok(x) ==> req_field_ok::<T>(v@, key@) && req_field_rel::<T>(v@, key@, x),
        req_field_ok::<T>(v@, key@) ==> r is Ok,
        r matches Err(e) ==> spec_starts_with(e.path@, key@),
        !(v@ is Obj) ==> (r matches Err(e) && e.kind == ErrorKind::WrongType),
        v@ is Obj && field_of(v@, key@) is None ==> (r matches Err(e) && e.kind
            == ErrorKind::MissingField),
{
    match v {
        JsonValue::Obj(fields) => {
            match find_field(fields, key) {
                Some(fv) => match T::decode(fv) {
                    Ok(x) => Ok(x),
                    Err(e) => Err(e.in_field(key)),
                },
                None => Err(DecodeError::new(ErrorKind::MissingField, key)),
            }
        },
        _ => Err(DecodeError::new(ErrorKind::WrongType, key)),
    }
}

/// Decodes the optional field `key` of the object `v`: absent or
/// `null` is the unset state.
pub fn get_opt_field<T: FromJson>(v: &JsonValue, key: &str) -> (r: Result<
    Option<T>,
    DecodeError,
>)
    ensures
        r matches Ok(x) ==> opt_field_ok::<T>(v@, key@) && opt_field_rel::<T>(v@, key@, x),
        opt_field_ok::<T>(v@, key@) ==> r is Ok,
        r matches Err(e) ==> spec_starts_with(e.path@, key@),
        !(v@ is Obj) ==> (r matches Err(e) && e.kind == ErrorKind::WrongType),
{
    match v {
        JsonValue::Obj(fields) => {
            match find_field(fields, key) {
                Some(fv) => {
                    if fv.is_null() {
                        Ok(None)
                    } else {
                        match T::decode(fv) {
                            Ok(x) => Ok(Some(x)),
                            Err(e) => Err(e.in_field(key)),
                        }
                    }
                },
                None => Ok(None),
            }
        },
        _ => Err(DecodeError::new(ErrorKind::WrongType, key)),
    }
}

impl ToJson for i64 {
    open spec fn enc(s: i64) -> Jv {
        Jv::Num(
            Decimal {
                neg: s < 0,
                mantissa: (if s < 0 {
                    -(s as int)
                } else {
                    s as int
                }) as u64,
                scale: 0,
            },
        )
    }

    fn encode(&self) -> (r: JsonValue) {
        let n = *self;
        let neg = n < 0;
        let m: u64 = if n == i64::MIN {
            9223372036854775808u64
        } else if n < 0 {
            (-n) as u64
        } else {
            n as u64
        };
        JsonValue::Num(Decimal { neg, mantissa: m, scale: 0 })
    }
}

impl FromJson for i64 {
    open spec fn decodable(v: Jv) -> bool {
        match v {
            Jv::Num(d) => d.scale == 0 && if d.neg {
                d.mantissa <= 9223372036854775808u64
            } else {
                d.mantissa <= 9223372036854775807u64
            },
            Jv::Str(t) => spec_parse_i64(t) is Some,
            _ => false,
        }
    }

    open spec fn rel(v: Jv, s: i64) -> bool {
        match v {
            Jv::Num(d) => d.scale == 0 && s as int == if d.neg {
                -(d.mantissa as int)
            } else {
                d.mantissa as int
            },
            Jv::Str(t) => spec_parse_i64(t) == Some(s),
            _ => false,
        }
    }

    fn decode(v: &JsonValue) -> (r: Result<i64, DecodeError>) {
        match v {
            JsonValue::Num(d) => {
                if d.scale != 0 {
                    return Err(DecodeError::new(ErrorKind::BadNumber, ""));
                }
                let m = d.mantissa;
                if d.neg {
                    if m > 9223372036854775808u64 {
                        Err(DecodeError::new(ErrorKind::BadNumber, ""))
                    } else if m == 9223372036854775808u64 {
                        Ok(i64::MIN)
                    } else {
                        Ok(-(m as i64))
                    }
                } else {
                    if m > 9223372036854775807u64 {
                        Err(DecodeError::new(ErrorKind::BadNumber, ""))
                    } else {
                        Ok(m as i64)
                    }
                }
            },
            JsonValue::Str(s) => match parse_i64(s.as_str()) {
                Some(n) => Ok(n),
                None => Err(DecodeError::new(ErrorKind::BadNumber, "")),
            },
            _ => Err(DecodeError::new(ErrorKind::WrongType, "")),
        }
    }
}

impl ToJson for String {
    open spec fn enc(s: String) -> Jv {
        Jv::Str(s@)
    }

    fn encode(&self) -> (r: JsonValue) {
        JsonValue::Str(self.clone())
    }
}

impl FromJson for String {
    open spec fn decodable(v: Jv) -> bool {
        v is Str
    }

    open spec fn rel(v: Jv, s: String) -> bool {
        v == Jv::Str(s@)
    }

    fn decode(v: &JsonValue) -> (r: Result<String, DecodeError>) {
        match v {
            JsonValue::Str(s) => Ok(s.clone()),
            _ => Err(DecodeError::new(ErrorKind::WrongType, "")),
        }
    }
}

impl ToJson for bool {
    open spec fn enc(s: bool) -> Jv {
        Jv::Bool(s)
    }

    fn encode(&self) -> (r: JsonValue) {
        JsonValue::Bool(*self)
    }
}

impl FromJson for bool {
    open spec fn decodable(v: Jv) -> bool {
        v is Bool
    }

    open spec fn rel(v: Jv, s: bool) -> bool {
        v == Jv::Bool(s)
    }

    fn decode(v: &JsonValue) -> (r: Result<bool, DecodeError>) {
        match v {
            JsonValue::Bool(b) => Ok(*b),
            _ => Err(DecodeError::new(ErrorKind::WrongType, "")),
        }
    }
}

impl ToJson for Decimal {
    open spec fn enc(s: Decimal) -> Jv {
        Jv::Num(s)
    }

    fn encode(&self) -> (r: JsonValue) {
        JsonValue::Num(*self)
    }
}

impl FromJson for Decimal {
    open spec fn decodable(v: Jv) -> bool {
        v is Num
    }

    open spec fn rel(v: Jv, s: Decimal) -> bool {
        v == Jv::Num(s)
    }

    fn decode(v: &JsonValue) -> (r: Result<Decimal, DecodeError>) {
        match v {
            JsonValue::Num(d) => Ok(*d),
            _ => Err(DecodeError::new(ErrorKind::WrongType, "")),
        }
    }
}

impl ToJson for Date {
    open spec fn enc(s: Date) -> Jv {
        Jv::Str(spec_render_date(s))
    }

    fn encode(&self) -> (r: JsonValue) {
        JsonValue::Str(render_date(self))
    }
}

impl FromJson for Date {
    open spec fn decodable(v: Jv) -> bool {
        v matches Jv::Str(t) && spec_parse_date(t) is Some
    }

    open spec fn rel(v: Jv, s: Date) -> bool {
        v matches Jv::Str(t) && spec_parse_date(t) == Some(s)
    }

    fn decode(v: &JsonValue) -> (r: Result<Date, DecodeError>) {
        match v {
            JsonValue::Str(s) => match parse_date(s.as_str()) {
                Some(d) => Ok(d),
                None => Err(DecodeError::new(ErrorKind::BadDate, "")),
            },
            _ => Err(DecodeError::new(ErrorKind::WrongType, "")),
        }
    }
}

impl ToJson for DateTime {
    open spec fn enc(s: DateTime) -> Jv {
        Jv::Str(spec_render_datetime(s))
    }

    fn encode(&self) -> (r: JsonValue) {
        JsonValue::Str(render_datetime(self))
    }
}

impl FromJson for DateTime {
    open spec fn decodable(v: Jv) -> bool {
        v matches Jv::Str(t) && spec_parse_datetime(t) is Some
    }

    open spec fn rel(v: Jv, s: DateTime) -> bool {
        v matches Jv::Str(t) && spec_parse_datetime(t) == Some(s)
    }

    fn decode(v: &JsonValue) -> (r: Result<DateTime, DecodeError>) {
        match v {
            JsonValue::Str(s) => match parse_datetime(s.as_str()) {
                Some(t) => Ok(t),
                None => Err(DecodeError::new(ErrorKind::BadTimestamp, "")),
            },
            _ => Err(DecodeError::new(ErrorKind::WrongType, "")),
        }
    }
}

/// A field whose true wire shape is undocumented: its content is
/// ignored on decode, and it encodes as `null`.
#[derive(Debug, Clone, Copy, PartialEq, Eq, Structural)]
pub struct Ignored;

impl ToJson for Ignored {
    open spec fn enc(s: Ignored) -> Jv {
        Jv::Null
    }

    fn encode(&self) -> (r: JsonValue) {
        JsonValue::Null
    }
}

impl FromJson for Ignored {
    open spec fn decodable(v: Jv) -> bool {
        true
    }

    open spec fn rel(v: Jv, s: Ignored) -> bool {
        true
    }

    fn decode(v: &JsonValue) -> (r: Result<Ignored, DecodeError>) {
        Ok(Ignored)
    }
}

/// Whether every element of an array model is acceptable for `T`.
pub open spec fn arr_decodable<T: FromJson>(items: Seq<Jv>) -> bool {
    forall|i: int| 0 <= i < items.len() ==> T::decodable(#[trigger] items[i])
}

/// Whether `s` holds, element for element, the values of an array model.
pub open spec fn arr_rel<T: FromJson>(items: Seq<Jv>, s: Vec<T>) -> bool {
    s@.len() == items.len() && forall|i: int|
        0 <= i < items.len() ==> T::rel(#[trigger] items[i], s@[i])
}

impl<T: ToJson> ToJson for Vec<T> {
    open spec fn enc(s: Vec<T>) -> Jv {
        Jv::Arr(s@.map_values(|x: T| T::enc(x)))
    }

    fn encode(&self) -> (r: JsonValue) {
        let mut out: Vec<JsonValue> = Vec::new();
        let n = self.len();
        let mut i: usize = 0;
        while i < n
            invariant
                0 <= i <= n,
                n == self@.len(),
                out@.len() == i,
                forall|j: int| 0 <= j < i ==> jv_of(#[trigger] out@[j]) == T::enc(self@[j]),
            decreases n - i,
        {
            let item = self[i].encode();
            out.push(item);
            i += 1;
        }
        proof {
            lemma_jv_of_list_index(out@);
            assert(jv_of_list(out@) =~= self@.map_values(|x: T| T::enc(x)));
        }
        JsonValue::Arr(out)
    }
}

impl<T: FromJson> FromJson for Vec<T> {
    open spec fn decodable(v: Jv) -> bool {
        match v {
            Jv::Arr(items) => arr_decodable::<T>(items),
            _ => false,
        }
    }

    open spec fn rel(v: Jv, s: Vec<T>) -> bool {
        match v {
            Jv::Arr(items) => arr_rel::<T>(items, s),
            _ => false,
        }
    }

    fn decode(v: &JsonValue) -> (r: Result<Vec<T>, DecodeError>) {
        match v {
            JsonValue::Arr(items) => {
                proof {
                    lemma_jv_of_list_index(items@);
                }
                let mut out: Vec<T> = Vec::new();
                let n = items.len();
                let mut i: usize = 0;
                while i < n
                    invariant
                        0 <= i <= n,
                        n == items@.len(),
                        out@.len() == i,
                        v@ == Jv::Arr(jv_of_list(items@)),
                        jv_of_list(items@).len() == items@.len(),
                        forall|j: int|
                            0 <= j < items@.len() ==> jv_of_list(items@)[j] == jv_of(
                                #[trigger] items@[j],
                            ),
                        forall|j: int| 0 <= j < i ==> T::decodable(jv_of(#[trigger] items@[j])),
                        forall|j: int|
                            0 <= j < i ==> T::rel(jv_of(#[trigger] items@[j]), out@[j]),
                    decreases n - i,
                {
                    match T::decode(&items[i]) {
                        Ok(x) => {
                            out.push(x);
                        },
                        Err(e) => {
                            proof {
                                assert(jv_of_list(items@)[i as int] == jv_of(items@[i as int]));
                                assert(!arr_decodable::<T>(jv_of_list(items@)));
                            }
                            return Err(e.in_index(i));
                        },
                    }
                    i += 1;
                }
                Ok(out)
            },
            _ => Err(DecodeError::new(ErrorKind::WrongType, "")),
        }
    }
}

impl ToJson for Currency {
    open spec fn enc(s: Currency) -> Jv {
        Jv::Str(s.spec_code())
    }

    fn encode(&self) -> (r: JsonValue) {
        JsonValue::Str(self.code().to_owned())
    }
}

impl FromJson for Currency {
    open spec fn decodable(v: Jv) -> bool {
        v matches Jv::Str(t) && Currency::spec_from_code(t) is Some
    }

    open spec fn rel(v: Jv, s: Currency) -> bool {
        v matches Jv::Str(t) && Currency::spec_from_code(t) == Some(s)
    }

    fn decode(v: &JsonValue) -> (r: Result<Currency, DecodeError>) {
        match v {
            JsonValue::Str(s) => match Currency::from_code(s.as_str()) {
                Some(c) => Ok(c),
                None => Err(DecodeError::new(ErrorKind::UnknownCode, "")),
            },
            _ => Err(DecodeError::new(ErrorKind::WrongType, "")),
        }
    }
}

impl ToJson for Country {
    open spec fn enc(s: Country) -> Jv {
        Jv::Str(s.spec_code())
    }

    fn encode(&self) -> (r: JsonValue) {
        JsonValue::Str(self.code().to_owned())
    }
}

impl FromJson for Country {
    open spec fn decodable(v: Jv) -> bool {
        v matches Jv::Str(t) && Country::spec_from_code(t) is Some
    }

    open spec fn rel(v: Jv, s: Country) -> bool {
        v matches Jv::Str(t) && Country::spec_from_code(t) == Some(s)
    }

    fn decode(v: &JsonValue) -> (r: Result<Country, DecodeError>) {
        match v {
            JsonValue::Str(s) => match Country::from_code(s.as_str()) {
                Some(c) => Ok(c),
                None => Err(DecodeError::new(ErrorKind::UnknownCode, "")),
            },
            _ => Err(DecodeError::new(ErrorKind::WrongType, "")),
        }
    }
}

impl ToJson for Market {
    open spec fn enc(s: Market) -> Jv {
        Jv::Str(s.spec_code())
    }

    fn encode(&self) -> (r: JsonValue) {
        JsonValue::Str(self.code().to_owned())
    }
}

impl FromJson for Market {
    open spec fn decodable(v: Jv) -> bool {
        v matches Jv::Str(t) && Market::spec_from_code(t) is Some
    }

    open spec fn rel(v: Jv, s: Market) -> bool {
        v matches Jv::Str(t) && Market::spec_from_code(t) == Some(s)
    }

    fn decode(v: &JsonValue) -> (r: Result<Market, DecodeError>) {
        match v {
            JsonValue::Str(s) => match Market::from_code(s.as_str()) {
                Some(c) => Ok(c),
                None => Err(DecodeError::new(ErrorKind::UnknownCode, "")),
            },
            _ => Err(DecodeError::new(ErrorKind::WrongType, "")),
        }
    }
}

impl ToJson for TradeDescription {
    open spec fn enc(s: TradeDescription) -> Jv {
        Jv::Str(s.spec_code())
    }

    fn encode(&self) -> (r: JsonValue) {
        JsonValue::Str(self.code().to_owned())
    }
}

impl FromJson for TradeDescription {
    open spec fn decodable(v: Jv) -> bool {
        v matches Jv::Str(t) && TradeDescription::spec_from_code(t) is Some
    }

    open spec fn rel(v: Jv, s: TradeDescription) -> bool {
        v matches Jv::Str(t) && TradeDescription::spec_from_code(t) == Some(s)
    }

    fn decode(v: &JsonValue) -> (r: Result<TradeDescription, DecodeError>) {
        match v {
            JsonValue::Str(s) => match TradeDescription::from_code(s.as_str()) {
                Some(c) => Ok(c),
                None => Err(DecodeError::new(ErrorKind::UnknownCode, "")),
            },
            _ => Err(DecodeError::new(ErrorKind::WrongType, "")),
        }
    }
}

impl ToJson for PayoutDescription {
    open spec fn enc(s: PayoutDescription) -> Jv {
        Jv::Str(s.spec_code())
    }

    fn encode(&self) -> (r: JsonValue) {
        JsonValue::Str(self.code().to_owned())
    }
}

impl FromJson for PayoutDescription {
    open spec fn decodable(v: Jv) -> bool {
        v matches Jv::Str(t) && PayoutDescription::spec_from_code(t) is Some
    }

    open spec fn rel(v: Jv, s: PayoutDescription) -> bool {
        v matches Jv::Str(t) && PayoutDescription::spec_from_code(t) == Some(s)
    }

    fn decode(v: &JsonValue) -> (r: Result<PayoutDescription, DecodeError>) {
        match v {
            JsonValue::Str(s) => match PayoutDescription::from_code(s.as_str()) {
                Some(c) => Ok(c),
                None => Err(DecodeError::new(ErrorKind::UnknownCode, "")),
            },
            _ => Err(DecodeError::new(ErrorKind::WrongType, "")),
        }
    }
}

impl ToJson for SaleAllocationMethod {
    open spec fn enc(s: SaleAllocationMethod) -> Jv {
        Jv::Str(s.spec_code())
    }

    fn encode(&self) -> (r: JsonValue) {
        JsonValue::Str(self.code().to_owned())
    }
}

impl FromJson for SaleAllocationMethod {
    open spec fn decodable(v: Jv) -> bool {
        v matches Jv::Str(t) && SaleAllocationMethod::spec_from_code(t) is Some
    }

    open spec fn rel(v: Jv, s: SaleAllocationMethod) -> bool {
        v matches Jv::Str(t) && SaleAllocationMethod::spec_from_code(t) == Some(s)
    }

    fn decode(v: &JsonValue) -> (r: Result<SaleAllocationMethod, DecodeError>) {
        match v {
            JsonValue::Str(s) => match SaleAllocationMethod::from_code(s.as_str()) {
                Some(c) => Ok(c),
                None => Err(DecodeError::new(ErrorKind::UnknownCode, "")),
            },
            _ => Err(DecodeError::new(ErrorKind::WrongType, "")),
        }
    }
}

/// An integer identifier is never lost or corrupted by the wire: the
/// number form it encodes to decodes back to it, its decimal-string
/// form decodes to it too, and no other value decodes from either form.
pub proof fn lemma_id_round_trip(n: i64)
    ensures
        <i64 as FromJson>::decodable(<i64 as ToJson>::enc(n)),
        <i64 as FromJson>::rel(<i64 as ToJson>::enc(n), n),
        <i64 as FromJson>::decodable(Jv::Str(spec_i64_string(n as int))),
        <i64 as FromJson>::rel(Jv::Str(spec_i64_string(n as int)), n),
        forall|m: i64| <i64 as FromJson>::rel(<i64 as ToJson>::enc(n), m) ==> m == n,
        forall|m: i64| <i64 as FromJson>::rel(Jv::Str(spec_i64_string(n as int)), m) ==> m == n,
{
    lemma_parse_render_i64(n);
}

/// An optional field that is absent from an object decodes to the
/// unset state — and only to it — and an unset optional field
/// contributes nothing to encoded output.
pub proof fn lemma_optional_unset<T: FromJson + ToJson>(v: Jv, key: Seq<char>)
    requires
        v is Obj,
        field_of(v, key) is None,
    ensures
        opt_field_ok::<T>(v, key),
        opt_field_rel::<T>(v, key, None),
        forall|x: Option<T>| opt_field_rel::<T>(v, key, x) ==> x is None,
        opt_entry::<T>(key, None) == Seq::<(Seq<char>, Jv)>::empty(),
{
    assert(opt_entry::<T>(key, None) =~= Seq::<(Seq<char>, Jv)>::empty());
}

/// A date string that matches no supported format is refused outright.
/// One that matches the primary ISO format decodes to exactly the
/// calendar date its digits spell, whatever the later formats would
/// make of it.
pub proof fn lemma_date_format_strict(t: Seq<char>)
    ensures
        spec_parse_date_fmt(t, '-') is None && spec_parse_date_fmt(t, '/') is None
            ==> !<Date as FromJson>::decodable(Jv::Str(t)),
        spec_parse_date_fmt(t, '-') matches Some(d) ==> spec_parse_date(t) == Some(d)
            && <Date as FromJson>::rel(Jv::Str(t), d),
{
}

/// A currency document decodes exactly when it is a string of the
/// vocabulary: an unrecognized code fails, and is never defaulted.
pub proof fn lemma_enum_code_strict(v: Jv)
    ensures
        <Currency as FromJson>::decodable(v) <==> (v matches Jv::Str(s)
            && Currency::spec_known_code(s)),
{
    match v {
        Jv::Str(s) => {
            Currency::lemma_from_code_exact(s);
        },
        _ => {},
    }
}

} // verus!
