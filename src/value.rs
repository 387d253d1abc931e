use vstd::prelude::*;

verus! {

/// The value of one cell, as the model sees it: one active variant.
pub enum Val {
    Integer(i64),
    Real(u64),
    Text(Seq<char>),
    Blob(Seq<u8>),
    Boolean(bool),
    Timestamp(i64),
    Null,
}

/// A cell value in storage form.
///
/// A real number is carried as its IEEE-754 binary64 bit pattern, so every
/// real, NaN payloads and infinities included, survives each conversion
/// bit for bit.
#[derive(Debug, Clone)]
pub enum DbValue {
    Integer(i64),
    Real(u64),
    Text(String),
    Blob(Vec<u8>),
    Boolean(bool),
    Timestamp(i64),
    Null,
}

/// The variant of a wire value that is set.
#[derive(Debug, Clone)]
pub enum WireKind {
    IntValue(i64),
    RealValue(u64),
    TextValue(String),
    BlobValue(Vec<u8>),
    BoolValue(bool),
    TimestampValue(i64),
    NullValue(bool),
}

/// A cell value in wire form; an unset value reads as null.
#[derive(Debug, Clone)]
pub struct WireValue {
    pub value: Option<WireKind>,
}

impl View for DbValue {
    type V = Val;

    open spec fn view(&self) -> Val {
        match self {
            DbValue::Integer(v) => Val::Integer(*v),
            DbValue::Real(v) => Val::Real(*v),
            DbValue::Text(s) => Val::Text(s@),
            DbValue::Blob(b) => Val::Blob(b@),
            DbValue::Boolean(b) => Val::Boolean(*b),
            DbValue::Timestamp(t) => Val::Timestamp(*t),
            DbValue::Null => Val::Null,
        }
    }
}

/// What a wire value denotes.
pub open spec fn wire_meaning(w: WireValue) -> Val {
    match w.value {
        Some(WireKind::IntValue(v)) => Val::Integer(v),
        Some(WireKind::RealValue(v)) => Val::Real(v),
        Some(WireKind::TextValue(s)) => Val::Text(s@),
        Some(WireKind::BlobValue(b)) => Val::Blob(b@),
        Some(WireKind::BoolValue(b)) => Val::Boolean(b),
        Some(WireKind::TimestampValue(t)) => Val::Timestamp(t),
        Some(WireKind::NullValue(_)) => Val::Null,
        None => Val::Null,
    }
}

/// The wire form is canonical when it is set, and a null is sent as `NullValue(true)`.
pub open spec fn wire_canonical(w: WireValue) -> bool {
    match w.value {
        Some(WireKind::NullValue(flag)) => flag,
        Some(_) => true,
        None => false,
    }
}

/// Two wire values that agree in kind and contents.
pub open spec fn wire_same(a: WireValue, b: WireValue) -> bool {
    &&& wire_canonical(a) <==> wire_canonical(b)
    &&& wire_meaning(a) == wire_meaning(b)
}

impl DbValue {
    /// A copy that keeps the contents.
    pub fn duplicate(&self) -> (r: DbValue)
        ensures
            r@ == self@,
    {
        match self {
            DbValue::Integer(v) => DbValue::Integer(*v),
            DbValue::Real(v) => DbValue::Real(*v),
            DbValue::Text(s) => DbValue::Text(s.clone()),
            DbValue::Blob(b) => {
                let c = b.clone();
                assert(c@ =~= b@);
                DbValue::Blob(c)
            },
            DbValue::Boolean(b) => DbValue::Boolean(*b),
            DbValue::Timestamp(t) => DbValue::Timestamp(*t),
            DbValue::Null => DbValue::Null,
        }
    }
}

/// Wire to storage form; an unset value becomes `Null`.
pub fn proto_to_db_value(value: WireValue) -> (r: DbValue)
    ensures
        r@ == wire_meaning(value),
{
    match value.value {
        Some(WireKind::IntValue(v)) => DbValue::Integer(v),
        Some(WireKind::RealValue(v)) => DbValue::Real(v),
        Some(WireKind::TextValue(v)) => DbValue::Text(v),
        Some(WireKind::BlobValue(v)) => DbValue::Blob(v),
        Some(WireKind::BoolValue(v)) => DbValue::Boolean(v),
        Some(WireKind::TimestampValue(v)) => DbValue::Timestamp(v),
        Some(WireKind::NullValue(_)) => DbValue::Null,
        None => DbValue::Null,
    }
}

/// Storage to wire form; the result is always set.
pub fn db_value_to_proto(value: DbValue) -> (r: WireValue)
    ensures
        wire_meaning(r) == value@,
        wire_canonical(r),
{
    let kind = match value {
        DbValue::Integer(v) => WireKind::IntValue(v),
        DbValue::Real(v) => WireKind::RealValue(v),
        DbValue::Text(v) => WireKind::TextValue(v),
        DbValue::Blob(v) => WireKind::BlobValue(v),
        DbValue::Boolean(v) => WireKind::BoolValue(v),
        DbValue::Timestamp(v) => WireKind::TimestampValue(v),
        DbValue::Null => WireKind::NullValue(true),
    };
    WireValue { value: Some(kind) }
}

/// Every storage value survives the trip to the wire and back.
pub proof fn lemma_storage_round_trip(d: DbValue, w: WireValue, back: DbValue)
    requires
        wire_meaning(w) == d@,
        back@ == wire_meaning(w),
    ensures
        back@ == d@,
{
}

/// Every canonical wire value survives the trip to storage and back: the
/// kind and the contents come out as they went in.
pub proof fn lemma_wire_round_trip(w: WireValue, d: DbValue, back: WireValue)
    requires
        wire_canonical(w),
        d@ == wire_meaning(w),
        wire_meaning(back) == d@,
        wire_canonical(back),
    ensures
        wire_same(back, w),
{
}

/// Converts a row of storage values to wire form, in order.
pub fn db_values_to_proto_values(values: Vec<DbValue>) -> (r: Vec<WireValue>)
    ensures
        r.len() == values.len(),
        forall|i: int|
            0 <= i < r.len() ==> wire_meaning(#[trigger] r[i]) == values[i]@ && wire_canonical(
                r[i],
            ),
{
    let mut out: Vec<WireValue> = Vec::new();
    let mut rest = values;
    let ghost orig = rest@;
    while rest.len() > 0
        invariant
            out.len() + rest.len() == orig.len(),
            rest@ =~= orig.subrange(out.len() as int, orig.len() as int),
            forall|i: int|
                0 <= i < out.len() ==> wire_meaning(#[trigger] out[i]) == orig[i]@
                    && wire_canonical(out[i]),
        decreases rest.len(),
    {
        let v = rest.remove(0);
        out.push(db_value_to_proto(v));
    }
    out
}

} // verus!
