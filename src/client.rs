use vstd::prelude::*;
use base64::Engine;
use crate::fields::{key_at, FieldMap};
use crate::sql::{decimal_of, push_decimal};
use crate::stream::{Column, QueryResponse};
use crate::value::{WireKind, WireValue};

verus! {

/// The decimal form of a signed integer, with a leading `-` when negative.
pub open spec fn signed_decimal(i: int) -> Seq<char> {
    if i < 0 {
        "-"@ + decimal_of((-i) as nat)
    } else {
        decimal_of(i as nat)
    }
}

/// Appends the decimal form of `i`.
pub fn push_signed(out: &mut String, i: i64)
    ensures
        final(out)@ == old(out)@ + signed_decimal(i as int),
{
    if i < 0 {
        out.append("-");
        let magnitude: u64 = if i == i64::MIN {
            9223372036854775808u64
        } else {
            (-i) as u64
        };
        push_decimal(out, magnitude);
        proof {
            assert(old(out)@ + "-"@ + decimal_of(magnitude as nat) =~= old(out)@ + signed_decimal(
                i as int,
            ));
        }
    } else {
        push_decimal(out, i as u64);
    }
}

/// How a value is shown in a text table; `real` is the text of the real
/// number, if the value is one.
pub open spec fn display_text(v: WireValue, real_text: Seq<char>) -> Seq<char> {
    match v.value {
        Some(WireKind::IntValue(i)) => signed_decimal(i as int),
        Some(WireKind::RealValue(_)) => real_text,
        Some(WireKind::TextValue(s)) => s@,
        Some(WireKind::BoolValue(b)) => if b {
            "true"@
        } else {
            "false"@
        },
        Some(WireKind::TimestampValue(t)) => signed_decimal(t as int),
        Some(WireKind::BlobValue(b)) => "<blob:"@ + decimal_of(b@.len()) + " bytes>"@,
        _ => "NULL"@,
    }
}

/// How a value is shown in a text table. A real number is written by
/// `format_real`, which gets its bit pattern.
pub fn proto_value_to_string<F: Fn(u64) -> String>(value: WireValue, format_real: F) -> (r: String)
    requires
        forall|bits: u64| format_real.requires((bits,)),
    ensures
        value.value matches Some(WireKind::RealValue(bits)) ==> format_real.ensures((bits,), r),
        !(value.value matches Some(WireKind::RealValue(_))) ==> r@ == display_text(
            value,
            Seq::empty(),
        ),
{
    match value.value {
        Some(WireKind::IntValue(i)) => {
            let mut s = String::new();
            push_signed(&mut s, i);
            assert(s@ =~= signed_decimal(i as int));
            s
        },
        Some(WireKind::RealValue(bits)) => format_real(bits),
        Some(WireKind::TextValue(s)) => s,
        Some(WireKind::BoolValue(b)) => {
            if b {
                String::from_str("true")
            } else {
                String::from_str("false")
            }
        },
        Some(WireKind::TimestampValue(t)) => {
            let mut s = String::new();
            push_signed(&mut s, t);
            assert(s@ =~= signed_decimal(t as int));
            s
        },
        Some(WireKind::BlobValue(b)) => {
            let mut s = String::from_str("<blob:");
            push_decimal(&mut s, b.len() as u64);
            s.append(" bytes>");
            s
        },
        _ => String::from_str("NULL"),
    }
}

/// The standard, padded base64 form of some bytes.
pub uninterp spec fn base64_of(b: Seq<u8>) -> Seq<char>;

/// Relies on `base64::engine::general_purpose::STANDARD.encode`: padded
/// output of four characters per started group of three bytes. It panics
/// only when that length overflows, which `requires` rules out.
#[verifier::external_body]
fn base64_encode(b: &Vec<u8>) -> (r: String)
    requires
        b@.len() <= usize::MAX / 2,
    ensures
        r@ == base64_of(b@),
        r@.len() == 4 * ((b@.len() + 2) / 3),
{
    base64::engine::general_purpose::STANDARD.encode(b)
}

/// A value as a JSON document shows it.
#[derive(Debug, Clone)]
pub enum JsonCell {
    Integer(i64),
    /// A real, as its bit pattern; JSON has no form for NaN or an infinity.
    Real(u64),
    Text(String),
    Bool(bool),
    Null,
}

/// Builds the JSON form of a value: integers and timestamps are numbers,
/// blobs are base64 text, nulls and unset values are null.
pub fn proto_value_to_json(value: WireValue) -> (r: JsonCell)
    requires
        value.value matches Some(WireKind::BlobValue(b)) ==> b@.len() <= usize::MAX / 2,
    ensures
        match value.value {
            Some(WireKind::IntValue(i)) => r == JsonCell::Integer(i),
            Some(WireKind::RealValue(b)) => r == JsonCell::Real(b),
            Some(WireKind::TextValue(s)) => r matches JsonCell::Text(t) && t@ == s@,
            Some(WireKind::BoolValue(b)) => r == JsonCell::Bool(b),
            Some(WireKind::TimestampValue(t)) => r == JsonCell::Integer(t),
            Some(WireKind::BlobValue(b)) => r matches JsonCell::Text(t) && t@ == base64_of(b@),
            _ => r is Null,
        },
{
    match value.value {
        Some(WireKind::IntValue(i)) => JsonCell::Integer(i),
        Some(WireKind::RealValue(b)) => JsonCell::Real(b),
        Some(WireKind::TextValue(s)) => JsonCell::Text(s),
        Some(WireKind::BoolValue(b)) => JsonCell::Bool(b),
        Some(WireKind::TimestampValue(t)) => JsonCell::Integer(t),
        Some(WireKind::BlobValue(b)) => JsonCell::Text(base64_encode(&b)),
        _ => JsonCell::Null,
    }
}

/// A field of a JSON object given on the command line.
#[derive(Debug, Clone)]
pub enum JsonField {
    /// A number that fits an `i64`.
    Integer(i64),
    /// Any other finite number, as the bit pattern of its `f64`.
    Real(u64),
    /// A number with neither form.
    BadNumber,
    Text(String),
    Bool(bool),
    Null,
    /// An array or an object.
    Nested,
}

/// The wire value of a JSON field, or the reason it has none.
pub open spec fn field_value(f: JsonField) -> Result<WireKind, Seq<char>> {
    match f {
        JsonField::Integer(i) => Ok(WireKind::IntValue(i)),
        JsonField::Real(b) => Ok(WireKind::RealValue(b)),
        JsonField::BadNumber => Err("Invalid number"@),
        JsonField::Text(s) => Ok(WireKind::TextValue(s)),
        JsonField::Bool(b) => Ok(WireKind::BoolValue(b)),
        JsonField::Null => Ok(WireKind::NullValue(true)),
        JsonField::Nested => Err("Unsupported JSON value type"@),
    }
}

/// Converts the fields of a JSON object, whose keys are distinct, to wire
/// values, in order. The first field with no wire form fails the whole
/// object.
pub fn json_to_proto_values(fields: &Vec<(String, JsonField)>) -> (r: Result<
    FieldMap<WireValue>,
    String,
>)
    requires
        forall|i: int, j: int| 0 <= i < j < fields@.len() ==> fields@[i].0@ != fields@[j].0@,
    ensures
        r is Ok <==> forall|i: int|
            0 <= i < fields@.len() ==> field_value(#[trigger] fields@[i].1) is Ok,
        r matches Ok(m) ==> {
            &&& m.wf()
            &&& m.entries().len() == fields@.len()
            &&& forall|i: int|
                0 <= i < fields@.len() ==> (#[trigger] m.entries()[i]).0 == fields@[i].0@
                    && field_value(fields@[i].1) == Ok::<WireKind, Seq<char>>(
                    m.entries()[i].1.value->Some_0,
                ) && m.entries()[i].1.value is Some
        },
        r matches Err(e) ==> exists|i: int|
            0 <= i < fields@.len() && field_value(#[trigger] fields@[i].1) == Err::<
                WireKind,
                Seq<char>,
            >(e@) && forall|k: int| 0 <= k < i ==> field_value(#[trigger] fields@[k].1) is Ok,
{
    let mut values: FieldMap<WireValue> = FieldMap::new();
    let mut i: usize = 0;
    while i < fields.len()
        invariant
            values.wf(),
            i <= fields.len(),
            forall|a: int, b: int| 0 <= a < b < fields@.len() ==> fields@[a].0@ != fields@[b].0@,
            values.entries().len() == i,
            forall|k: int|
                0 <= k < i ==> (#[trigger] values.entries()[k]).0 == fields@[k].0@
                    && field_value(fields@[k].1) == Ok::<WireKind, Seq<char>>(
                    values.entries()[k].1.value->Some_0,
                ) && values.entries()[k].1.value is Some,
        decreases fields.len() - i,
    {
        let key = &fields[i].0;
        let kind = match &fields[i].1 {
            JsonField::Integer(v) => WireKind::IntValue(*v),
            JsonField::Real(b) => WireKind::RealValue(*b),
            JsonField::Text(s) => WireKind::TextValue(s.clone()),
            JsonField::Bool(b) => WireKind::BoolValue(*b),
            JsonField::Null => WireKind::NullValue(true),
            JsonField::BadNumber => {
                let e = String::from_str("Invalid number");
                proof {
                    assert forall|k: int| 0 <= k < i implies field_value(#[trigger] fields@[k].1) is Ok by {
                        let _ = values.entries()[k];
                    }
                    assert(field_value(fields@[i as int].1) == Err::<WireKind, Seq<char>>(e@));
                }
                return Err(e);
            },
            JsonField::Nested => {
                let e = String::from_str("Unsupported JSON value type");
                proof {
                    assert forall|k: int| 0 <= k < i implies field_value(#[trigger] fields@[k].1) is Ok by {
                        let _ = values.entries()[k];
                    }
                    assert(field_value(fields@[i as int].1) == Err::<WireKind, Seq<char>>(e@));
                }
                return Err(e);
            },
        };
        proof {
            assert(key_at(values.entries(), key@) is None) by {
                if exists|k: int| 0 <= k < values.entries().len() && values.entries()[k].0 == key@ {
                    let k = choose|k: int| 0 <= k < values.entries().len() && values.entries()[k].0 == key@;
                    assert(fields@[k].0@ == fields@[i as int].0@);
                }
            }
        }
        values.insert(key.clone(), WireValue { value: Some(kind) });
        i = i + 1;
    }
    proof {
        assert forall|k: int| 0 <= k < fields@.len() implies field_value(#[trigger] fields@[k].1) is Ok by {
            let _ = values.entries()[k];
        }
    }
    Ok(values)
}

/// What a client has gathered from a query stream.
pub struct QueryCollector {
    pub columns: Vec<Column>,
    pub rows: Vec<Vec<WireValue>>,
    pub error: Option<(String, String)>,
}

impl QueryCollector {
    pub fn new() -> (r: Self)
        ensures
            r.columns@.len() == 0,
            r.rows@.len() == 0,
            r.error is None,
    {
        QueryCollector { columns: Vec::new(), rows: Vec::new(), error: None }
    }

    /// Takes in one message: a message with columns replaces the columns,
    /// its rows are added in order, and an error is kept. Returns whether
    /// more messages are wanted: none after an error.
    pub fn accept(&mut self, message: QueryResponse) -> (more: bool)
        requires
            old(self).error is None,
        ensures
            more <==> final(self).error is None,
            match message {
                QueryResponse::ResultSet(rs) => {
                    &&& final(self).error is None
                    &&& final(self).rows@ == old(self).rows@ + rs.rows@.map_values(
                        |r: crate::stream::Row| r.values,
                    )
                    &&& final(self).columns@ == if rs.columns@.len() > 0 {
                        rs.columns@
                    } else {
                        old(self).columns@
                    }
                },
                QueryResponse::Error(e) => {
                    &&& final(self).error matches Some(pair) && pair.0@ == e.code@ && pair.1@
                        == e.message@
                    &&& final(self).rows@ == old(self).rows@
                    &&& final(self).columns@ == old(self).columns@
                },
            },
    {
        match message {
            QueryResponse::ResultSet(rs) => {
                let ghost given = rs.rows@;
                let total = rs.rows.len();
                if rs.columns.len() > 0 {
                    self.columns = rs.columns;
                }
                let ghost start = self.rows@;
                let ghost cols = self.columns@;
                let mut rest = rs.rows;
                let mut taken: usize = 0;
                while rest.len() > 0
                    invariant
                        taken <= given.len(),
                        given.len() == total,
                        self.columns@ == cols,
                        rest@ == given.subrange(taken as int, given.len() as int),
                        self.rows@ == start + given.take(taken as int).map_values(
                            |r: crate::stream::Row| r.values,
                        ),
                        self.error is None,
                    decreases rest.len(),
                {
                    let row = rest.remove(0);
                    self.rows.push(row.values);
                    proof {
                        assert(given.take(taken + 1).map_values(|r: crate::stream::Row| r.values)
                            =~= given.take(taken as int).map_values(
                            |r: crate::stream::Row| r.values,
                        ).push(row.values));
                    }
                    taken = taken + 1;
                }
                proof {
                    assert(given.take(taken as int) =~= given);
                }
                true
            },
            QueryResponse::Error(e) => {
                self.error = Some((e.code, e.message));
                false
            },
        }
    }
}

} // verus!
