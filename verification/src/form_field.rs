use vstd::prelude::*;

use crate::helpers::{Date, DateTime, Time, date_text, datetime_text, dec_str, int_str, time_text};

verus! {

/// The value types the registry knows: the scalar kinds, and an optional
/// wrapper around any of them.
#[derive(Debug)]
pub enum ValueKind {
    Text,
    Number,
    Flag,
    Day,
    Clock,
    Moment,
    Optional(Box<ValueKind>),
}

/// Which serializer a capability dispatches to, as a tag consulted at
/// materialization time.
#[derive(Clone, Copy, PartialEq, Eq, Structural, Debug)]
pub enum SerializerTag {
    /// Text is passed through unchanged.
    Identity,
    /// Integers become their decimal digits.
    Decimal,
    /// A flag becomes `true` or `false`.
    FlagText,
    /// A date becomes `YYYY-MM-DD`.
    DateYmd,
    /// A time becomes `HH:MM`.
    TimeHm,
    /// A date with time becomes `YYYY-MM-DDTHH:MM`.
    DateTimeLocal,
}

/// The view of a capability: the defaults a field of some value type
/// falls back to.
pub struct TypeCapabilityView {
    pub input_type: Seq<char>,
    pub required: bool,
    pub serializer: SerializerTag,
}

/// Per-value-type defaults: the rendered input kind, whether the field is
/// required, and which serializer turns a value into text.
pub struct TypeCapability {
    pub input_type: String,
    pub required: bool,
    pub serializer: SerializerTag,
}

impl View for TypeCapability {
    type V = TypeCapabilityView;

    open spec fn view(&self) -> TypeCapabilityView {
        TypeCapabilityView {
            input_type: self.input_type@,
            required: self.required,
            serializer: self.serializer,
        }
    }
}

/// The capability registered for each value kind. An optional kind
/// inherits the wrapped kind's capability but is never required. A flag
/// renders as a text input, a placeholder until checkboxes exist.
pub open spec fn spec_lookup(k: ValueKind) -> TypeCapabilityView
    decreases k,
{
    match k {
        ValueKind::Text => TypeCapabilityView {
            input_type: "text"@,
            required: true,
            serializer: SerializerTag::Identity,
        },
        ValueKind::Number => TypeCapabilityView {
            input_type: "number"@,
            required: true,
            serializer: SerializerTag::Decimal,
        },
        ValueKind::Flag => TypeCapabilityView {
            input_type: "text"@,
            required: true,
            serializer: SerializerTag::FlagText,
        },
        ValueKind::Day => TypeCapabilityView {
            input_type: "date"@,
            required: true,
            serializer: SerializerTag::DateYmd,
        },
        ValueKind::Clock => TypeCapabilityView {
            input_type: "time"@,
            required: true,
            serializer: SerializerTag::TimeHm,
        },
        ValueKind::Moment => TypeCapabilityView {
            input_type: "datetime-local"@,
            required: true,
            serializer: SerializerTag::DateTimeLocal,
        },
        ValueKind::Optional(inner) => TypeCapabilityView { required: false, ..spec_lookup(*inner) },
    }
}

/// Looks a value kind up in the registry; every kind is registered.
pub fn lookup(k: &ValueKind) -> (r: TypeCapability)
    ensures
        r@ == spec_lookup(*k),
    decreases *k,
{
    match k {
        ValueKind::Text => TypeCapability {
            input_type: String::from_str("text"),
            required: true,
            serializer: SerializerTag::Identity,
        },
        ValueKind::Number => TypeCapability {
            input_type: String::from_str("number"),
            required: true,
            serializer: SerializerTag::Decimal,
        },
        ValueKind::Flag => TypeCapability {
            input_type: String::from_str("text"),
            required: true,
            serializer: SerializerTag::FlagText,
        },
        ValueKind::Day => TypeCapability {
            input_type: String::from_str("date"),
            required: true,
            serializer: SerializerTag::DateYmd,
        },
        ValueKind::Clock => TypeCapability {
            input_type: String::from_str("time"),
            required: true,
            serializer: SerializerTag::TimeHm,
        },
        ValueKind::Moment => TypeCapability {
            input_type: String::from_str("datetime-local"),
            required: true,
            serializer: SerializerTag::DateTimeLocal,
        },
        ValueKind::Optional(inner) => {
            let c = lookup(&*inner);
            TypeCapability { required: false, ..c }
        },
    }
}

/// A record type whose fields can stand in a form: it names its value
/// kind, under which the registry holds its capability.
pub trait FormField {
    spec fn spec_kind() -> ValueKind;

    fn value_kind() -> (k: ValueKind)
        ensures
            k == Self::spec_kind(),
    ;
}

impl FormField for String {
    open spec fn spec_kind() -> ValueKind {
        ValueKind::Text
    }

    fn value_kind() -> (k: ValueKind)
        ensures
            k == Self::spec_kind(),
    {
        ValueKind::Text
    }
}

impl FormField for bool {
    open spec fn spec_kind() -> ValueKind {
        ValueKind::Flag
    }

    fn value_kind() -> (k: ValueKind)
        ensures
            k == Self::spec_kind(),
    {
        ValueKind::Flag
    }
}

impl FormField for u8 {
    open spec fn spec_kind() -> ValueKind {
        ValueKind::Number
    }

    fn value_kind() -> (k: ValueKind)
        ensures
            k == Self::spec_kind(),
    {
        ValueKind::Number
    }
}

impl FormField for u16 {
    open spec fn spec_kind() -> ValueKind {
        ValueKind::Number
    }

    fn value_kind() -> (k: ValueKind)
        ensures
            k == Self::spec_kind(),
    {
        ValueKind::Number
    }
}

impl FormField for u32 {
    open spec fn spec_kind() -> ValueKind {
        ValueKind::Number
    }

    fn value_kind() -> (k: ValueKind)
        ensures
            k == Self::spec_kind(),
    {
        ValueKind::Number
    }
}

impl FormField for u64 {
    open spec fn spec_kind() -> ValueKind {
        ValueKind::Number
    }

    fn value_kind() -> (k: ValueKind)
        ensures
            k == Self::spec_kind(),
    {
        ValueKind::Number
    }
}

impl FormField for usize {
    open spec fn spec_kind() -> ValueKind {
        ValueKind::Number
    }

    fn value_kind() -> (k: ValueKind)
        ensures
            k == Self::spec_kind(),
    {
        ValueKind::Number
    }
}

impl FormField for i8 {
    open spec fn spec_kind() -> ValueKind {
        ValueKind::Number
    }

    fn value_kind() -> (k: ValueKind)
        ensures
            k == Self::spec_kind(),
    {
        ValueKind::Number
    }
}

impl FormField for i16 {
    open spec fn spec_kind() -> ValueKind {
        ValueKind::Number
    }

    fn value_kind() -> (k: ValueKind)
        ensures
            k == Self::spec_kind(),
    {
        ValueKind::Number
    }
}

impl FormField for i32 {
    open spec fn spec_kind() -> ValueKind {
        ValueKind::Number
    }

    fn value_kind() -> (k: ValueKind)
        ensures
            k == Self::spec_kind(),
    {
        ValueKind::Number
    }
}

impl FormField for i64 {
    open spec fn spec_kind() -> ValueKind {
        ValueKind::Number
    }

    fn value_kind() -> (k: ValueKind)
        ensures
            k == Self::spec_kind(),
    {
        ValueKind::Number
    }
}

impl FormField for isize {
    open spec fn spec_kind() -> ValueKind {
        ValueKind::Number
    }

    fn value_kind() -> (k: ValueKind)
        ensures
            k == Self::spec_kind(),
    {
        ValueKind::Number
    }
}

impl FormField for Date {
    open spec fn spec_kind() -> ValueKind {
        ValueKind::Day
    }

    fn value_kind() -> (k: ValueKind)
        ensures
            k == Self::spec_kind(),
    {
        ValueKind::Day
    }
}

impl FormField for Time {
    open spec fn spec_kind() -> ValueKind {
        ValueKind::Clock
    }

    fn value_kind() -> (k: ValueKind)
        ensures
            k == Self::spec_kind(),
    {
        ValueKind::Clock
    }
}

impl FormField for DateTime {
    open spec fn spec_kind() -> ValueKind {
        ValueKind::Moment
    }

    fn value_kind() -> (k: ValueKind)
        ensures
            k == Self::spec_kind(),
    {
        ValueKind::Moment
    }
}

impl<T: FormField> FormField for Option<T> {
    open spec fn spec_kind() -> ValueKind {
        ValueKind::Optional(Box::new(T::spec_kind()))
    }

    fn value_kind() -> (k: ValueKind)
        ensures
            k == Self::spec_kind(),
    {
        ValueKind::Optional(Box::new(T::value_kind()))
    }
}

/// One field's value at materialization time, as a plain value of the
/// kind the field declared. `Nothing` is an absent optional value.
#[derive(Clone, Debug)]
pub enum FieldValue {
    Text(String),
    Number(i64),
    Unsigned(u64),
    Flag(bool),
    Day(Date),
    Clock(Time),
    Moment(DateTime),
    Nothing,
}

/// The textual form of a flag.
pub open spec fn bool_text(b: bool) -> Seq<char> {
    if b {
        "true"@
    } else {
        "false"@
    }
}

/// What serializing a value under a tag gives: the text, or `None` when
/// the tag does not fit the value or a date or time is not real. An
/// absent optional value serializes as `null` under every tag.
pub open spec fn spec_serialize(tag: SerializerTag, v: FieldValue) -> Option<Seq<char>> {
    match (tag, v) {
        (SerializerTag::Identity, FieldValue::Text(s)) => Some(s@),
        (SerializerTag::Decimal, FieldValue::Number(n)) => Some(int_str(n as int)),
        (SerializerTag::Decimal, FieldValue::Unsigned(n)) => Some(dec_str(n as nat)),
        (SerializerTag::FlagText, FieldValue::Flag(b)) => Some(bool_text(b)),
        (SerializerTag::DateYmd, FieldValue::Day(d)) => if d.wf() {
            Some(date_text(d))
        } else {
            None
        },
        (SerializerTag::TimeHm, FieldValue::Clock(t)) => if t.wf() {
            Some(time_text(t))
        } else {
            None
        },
        (SerializerTag::DateTimeLocal, FieldValue::Moment(m)) => if m.wf() {
            Some(datetime_text(m))
        } else {
            None
        },
        (_, FieldValue::Nothing) => Some("null"@),
        _ => None,
    }
}

/// Relies on serde_json::to_string: a `u64` serializes to its decimal
/// digits, and serializing an integer to a string cannot fail.
#[verifier::external_body]
fn json_u64(v: &u64) -> (r: Result<String, ()>)
    ensures
        r is Ok,
        r matches Ok(s) ==> s@ == dec_str(*v as nat),
{
    serde_json::to_string(v).map_err(|_| ())
}

/// Relies on serde_json::to_string: an `i64` serializes to its decimal
/// digits with a leading minus sign when negative, and serializing an
/// integer to a string cannot fail.
#[verifier::external_body]
fn json_i64(v: &i64) -> (r: Result<String, ()>)
    ensures
        r is Ok,
        r matches Ok(s) ==> s@ == int_str(*v as int),
{
    serde_json::to_string(v).map_err(|_| ())
}

/// Relies on serde_json::to_string: a `bool` serializes to `true` or
/// `false`, and serializing a `bool` to a string cannot fail.
#[verifier::external_body]
fn json_bool(v: &bool) -> (r: Result<String, ()>)
    ensures
        r is Ok,
        r matches Ok(s) ==> s@ == bool_text(*v),
{
    serde_json::to_string(v).map_err(|_| ())
}

/// Serializes one value under a serializer tag: exactly the text that
/// `spec_serialize` gives, failing exactly where it gives `None`.
pub fn serialize_value(tag: &SerializerTag, v: &FieldValue) -> (r: Result<String, ()>)
    ensures
        r is Ok <==> spec_serialize(*tag, *v) is Some,
        r matches Ok(s) ==> Some(s@) == spec_serialize(*tag, *v),
{
    match (tag, v) {
        (_, FieldValue::Nothing) => Ok(String::from_str("null")),
        (SerializerTag::Identity, FieldValue::Text(s)) => Ok(s.clone()),
        (SerializerTag::Decimal, FieldValue::Number(n)) => json_i64(n),
        (SerializerTag::Decimal, FieldValue::Unsigned(n)) => json_u64(n),
        (SerializerTag::FlagText, FieldValue::Flag(b)) => json_bool(b),
        (SerializerTag::DateYmd, FieldValue::Day(d)) => {
            if d.is_valid() {
                crate::helpers::date_ser(d)
            } else {
                Err(())
            }
        },
        (SerializerTag::TimeHm, FieldValue::Clock(t)) => {
            if t.is_valid() {
                crate::helpers::time_ser(t)
            } else {
                Err(())
            }
        },
        (SerializerTag::DateTimeLocal, FieldValue::Moment(m)) => {
            if m.is_valid() {
                crate::helpers::datetime_ser(m)
            } else {
                Err(())
            }
        },
        _ => Err(()),
    }
}

} // verus!
