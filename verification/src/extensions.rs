//! Extension values: the loosely-typed metadata that travels beside a request
//! and is echoed with its response.
//!
//! A floating-point number is held as its IEEE 754 binary64 bit pattern. The
//! library compares such patterns and never computes with them.
use vstd::prelude::*;
use vstd::string::*;
use crate::ordered_map::OrderedMap;

verus! {

/// A value as the caller's language hands it over, before any coercion.
pub enum DynamicValue {
    /// The caller's null.
    Nothing,
    Bool(bool),
    Int(i64),
    /// A floating-point number, as its bit pattern.
    Float(u64),
    Text(String),
    /// A value of any other type, as the text that the caller's language
    /// gives for it.
    Other(String),
}

/// An extension value: one of a closed set of scalars.
pub enum ExtensionValue {
    Null,
    Bool(bool),
    Int(i64),
    /// A finite floating-point number, as its bit pattern.
    Float(u64),
    Text(String),
}

/// The model of an [`ExtensionValue`].
pub enum Scalar {
    Null,
    Bool(bool),
    Int(i64),
    Float(u64),
    Text(Seq<char>),
}

impl View for ExtensionValue {
    type V = Scalar;

    open spec fn view(&self) -> Scalar {
        match self {
            ExtensionValue::Null => Scalar::Null,
            ExtensionValue::Bool(b) => Scalar::Bool(*b),
            ExtensionValue::Int(i) => Scalar::Int(*i),
            ExtensionValue::Float(bits) => Scalar::Float(*bits),
            ExtensionValue::Text(text) => Scalar::Text(text@),
        }
    }
}

/// The extensions of a request or a response: a map from key to scalar.
pub type Extensions = OrderedMap<ExtensionValue>;

/// The bit pattern is that of a finite number: its exponent is not all ones.
pub open spec fn float_is_finite(bits: u64) -> bool {
    (bits >> 52) & 0x7ff != 0x7ff
}

/// The bit pattern is that of a finite number greater than zero: the sign bit
/// is clear, some other bit is set, and the exponent is not all ones.
pub open spec fn float_is_positive(bits: u64) -> bool {
    0 < bits < 0x7ff0_0000_0000_0000
}

/// The scalar that a dynamic value is coerced to. A number that is not finite
/// becomes null; a value of another type becomes its text.
pub open spec fn coerced(value: DynamicValue) -> Scalar {
    match value {
        DynamicValue::Nothing => Scalar::Null,
        DynamicValue::Bool(b) => Scalar::Bool(b),
        DynamicValue::Int(i) => Scalar::Int(i),
        DynamicValue::Float(bits) => if float_is_finite(bits) {
            Scalar::Float(bits)
        } else {
            Scalar::Null
        },
        DynamicValue::Text(text) => Scalar::Text(text@),
        DynamicValue::Other(text) => Scalar::Text(text@),
    }
}

/// Coerces a dynamic value to an extension value.
pub fn coerce(value: &DynamicValue) -> (scalar: ExtensionValue)
    ensures
        scalar@ == coerced(*value),
{
    match value {
        DynamicValue::Nothing => ExtensionValue::Null,
        DynamicValue::Bool(b) => ExtensionValue::Bool(*b),
        DynamicValue::Int(i) => ExtensionValue::Int(*i),
        DynamicValue::Float(bits) => {
            if (*bits >> 52) & 0x7ff != 0x7ff {
                ExtensionValue::Float(*bits)
            } else {
                ExtensionValue::Null
            }
        },
        DynamicValue::Text(text) => ExtensionValue::Text(text.clone()),
        DynamicValue::Other(text) => ExtensionValue::Text(text.clone()),
    }
}

/// A per-request timeout, in seconds.
#[derive(Clone, Copy, Debug, PartialEq, Eq, Structural)]
pub enum TimeoutSetting {
    /// A whole number of seconds, greater than zero.
    Seconds(u64),
    /// The bit pattern of a finite number of seconds greater than zero.
    FloatSeconds(u64),
}

/// The timeout that a scalar asks for: a number does, where it is greater
/// than zero; nothing else does.
pub open spec fn timeout_of(value: Scalar) -> Option<TimeoutSetting> {
    match value {
        Scalar::Int(i) => if i > 0 {
            Some(TimeoutSetting::Seconds(i as u64))
        } else {
            None
        },
        Scalar::Float(bits) => if float_is_positive(bits) {
            Some(TimeoutSetting::FloatSeconds(bits))
        } else {
            None
        },
        _ => None,
    }
}

/// The timeout that an extension value asks for.
pub fn timeout_from_value(value: &ExtensionValue) -> (timeout: Option<TimeoutSetting>)
    ensures
        timeout == timeout_of(value@),
{
    match value {
        ExtensionValue::Int(i) => {
            if *i > 0 {
                Some(TimeoutSetting::Seconds(*i as u64))
            } else {
                None
            }
        },
        ExtensionValue::Float(bits) => {
            if 0 < *bits && *bits < 0x7ff0_0000_0000_0000 {
                Some(TimeoutSetting::FloatSeconds(*bits))
            } else {
                None
            }
        },
        _ => None,
    }
}

/// A number that is greater than zero is finite: coercion never turns a
/// timeout into null.
pub proof fn positive_is_finite(bits: u64)
    requires
        float_is_positive(bits),
    ensures
        float_is_finite(bits),
{
    assert(0 < bits < 0x7ff0_0000_0000_0000 ==> (bits >> 52) & 0x7ff != 0x7ff) by (bit_vector);
}

} // verus!
