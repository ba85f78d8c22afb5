//! The measured fields and the ways a run can fail.
use vstd::prelude::*;

verus! {

/// One of the two quantities read from the device.
#[derive(Clone, Copy, Debug, PartialEq, Eq, Structural)]
pub enum Field {
    Power,
    Voltage,
}

/// The element name under which a field's samples stand.
pub open spec fn field_name(f: Field) -> Seq<char> {
    match f {
        Field::Power => "POWER"@,
        Field::Voltage => "VOLTAGE"@,
    }
}

impl Field {
    /// The element name of this field: `POWER` or `VOLTAGE`.
    pub fn name(&self) -> (r: &'static str)
        ensures
            r@ == field_name(*self),
    {
        match self {
            Field::Power => "POWER",
            Field::Voltage => "VOLTAGE",
        }
    }
}

/// Why a run produced no record.
#[derive(Clone, Debug)]
pub enum PollError {
    /// The HTTP request to `url` failed.
    Fetch { url: String },
    /// `body` is not well-formed XML.
    Parse { body: String },
    /// The document holds no sample of `field`.
    MissingField { field: Field },
    /// The sample `text` of `field` is not a number.
    NumericParse { text: String, field: Field },
}

} // verus!
