//! Raw values of control codes, and how they are shown.

use vstd::prelude::*;
use crate::text::{decimal, decimal_list};

verus! {

/// What a display answers when a control code is read: the current value and
/// the largest one, each as a high and a low byte.
#[derive(Clone, Copy, Debug, PartialEq, Eq)]
pub struct Value {
    /// The kind of the value, as the display gives it.
    pub ty: u8,
    /// The high byte of the largest value.
    pub mh: u8,
    /// The low byte of the largest value.
    pub ml: u8,
    /// The high byte of the value.
    pub sh: u8,
    /// The low byte of the value.
    pub sl: u8,
}

impl Value {
    /// The value, its two bytes taken together.
    pub open spec fn value_spec(self) -> int {
        self.sh as int * 256 + self.sl as int
    }

    /// The largest value, its two bytes taken together.
    pub open spec fn maximum_spec(self) -> int {
        self.mh as int * 256 + self.ml as int
    }

    /// A value made of `v` alone: the kind and the largest value are zero.
    pub fn from_value(v: u16) -> (value: Value)
        ensures
            value.value_spec() == v,
            value.ty == 0,
            value.mh == 0,
            value.ml == 0,
    {
        Value { ty: 0, mh: 0, ml: 0, sh: (v / 256) as u8, sl: (v % 256) as u8 }
    }

    /// The value, its two bytes taken together.
    pub fn value(&self) -> (v: u16)
        ensures
            v == self.value_spec(),
    {
        self.sh as u16 * 256 + self.sl as u16
    }

    /// The largest value, its two bytes taken together.
    pub fn maximum(&self) -> (v: u16)
        ensures
            v == self.maximum_spec(),
    {
        self.mh as u16 * 256 + self.ml as u16
    }
}

/// A version of the control-command standard that a display follows.
#[derive(Clone, Copy, Debug, PartialEq, Eq)]
pub struct Version {
    /// The major number.
    pub major: u8,
    /// The minor number, the revision.
    pub minor: u8,
}

impl Version {
    /// The version as it is shown: both numbers in decimal, a dot between.
    pub open spec fn text(self) -> Seq<char> {
        decimal(self.major as nat) + "."@ + decimal(self.minor as nat)
    }

    /// The version as it is shown.
    pub fn format(&self) -> (text: String)
        ensures
            text@ == self.text(),
    {
        version_text(self.major, self.minor)
    }
}

/// `mccs::Version`'s `Display`, through `to_string`: the major number, a dot and
/// the minor number, each in decimal as `u8`'s own `Display` writes it.
#[verifier::external_body]
fn version_text(major: u8, minor: u8) -> (text: String)
    ensures
        text@ == (Version { major, minor }).text(),
{
    mccs::Version::new(major, minor).to_string()
}

/// How the number read from a control code is to be understood.
#[derive(Clone, Copy, Debug, PartialEq, Eq)]
pub enum ValueInterpretation {
    /// A position on a scale from zero to the largest value.
    Continuous,
    /// One of a set of values.
    NonContinuous,
    /// A trigger: anything but zero in the low byte means that it is set.
    NonZeroWrite,
    /// A version: the major number in the high byte, the minor in the low one.
    VcpVersion,
}

impl ValueInterpretation {
    /// What is shown for `value`.
    ///
    /// A continuous value is shown beside its maximum. A non-continuous value
    /// that exceeds its maximum is cut to its low byte: some displays repeat
    /// the low byte in the high one.
    pub open spec fn text(self, value: Value) -> Seq<char> {
        match self {
            ValueInterpretation::Continuous => decimal(value.value_spec() as nat) + " / "@
                + decimal(value.maximum_spec() as nat),
            ValueInterpretation::NonContinuous => if value.value_spec() > value.maximum_spec() {
                decimal(value.sl as nat)
            } else {
                decimal(value.value_spec() as nat)
            },
            ValueInterpretation::NonZeroWrite => if value.sl == 0 {
                "unset"@
            } else {
                "set"@
            },
            ValueInterpretation::VcpVersion => (Version { major: value.sh, minor: value.sl }).text(),
        }
    }

    /// Shows `value` under this interpretation.
    pub fn format(&self, value: &Value) -> (text: String)
        ensures
            text@ == self.text(*value),
    {
        value_text(*self, *value)
    }
}

/// `mccs_db::ValueInterpretation::format`, on the interpretation and the value
/// of the same names. `Continuous` gives the value, `" / "` and the maximum;
/// `NonContinuous` the value, or its low byte where it exceeds the maximum;
/// `NonZeroWrite` gives `unset` for a zero low byte and `set` otherwise;
/// `VcpVersion` the high and the low byte as a version. Numbers are decimal.
#[verifier::external_body]
fn value_text(interpretation: ValueInterpretation, value: Value) -> (text: String)
    ensures
        text@ == interpretation.text(value),
{
    let Value { ty, mh, ml, sh, sl } = value;
    match interpretation {
        ValueInterpretation::Continuous => mccs_db::ValueInterpretation::Continuous,
        ValueInterpretation::NonContinuous => mccs_db::ValueInterpretation::NonContinuous,
        ValueInterpretation::NonZeroWrite => mccs_db::ValueInterpretation::NonZeroWrite,
        ValueInterpretation::VcpVersion => mccs_db::ValueInterpretation::VcpVersion,
    }.format(&mccs::Value { ty, mh, ml, sh, sl })
}

/// How the bytes read from a table are to be understood.
#[derive(Clone, Copy, Debug, PartialEq, Eq)]
pub enum TableInterpretation {
    /// Bytes without a known meaning.
    Generic,
    /// The first byte is a code page.
    CodePage,
}

impl TableInterpretation {
    /// What is shown for `table`, or `None` where the table does not have the
    /// form that the interpretation asks for: a code page needs a first byte.
    pub open spec fn text(self, table: Seq<u8>) -> Option<Seq<char>> {
        match self {
            TableInterpretation::Generic => Some(decimal_list(table)),
            TableInterpretation::CodePage => if table.len() == 0 {
                None
            } else {
                Some(decimal(table[0] as nat))
            },
        }
    }

    /// Shows `table` under this interpretation, and fails where the table does
    /// not have the form that the interpretation asks for.
    pub fn format(&self, table: &[u8]) -> (text: Result<String, ()>)
        ensures
            match text {
                Ok(text) => self.text(table@) == Some(text@),
                Err(_) => self.text(table@) is None,
            },
    {
        table_text(*self, table)
    }
}

/// `mccs_db::TableInterpretation::format`, on the interpretation of the same
/// name. `Generic` gives the bytes as `Debug` writes a slice of `u8`: decimal
/// numbers in square brackets, separated by a comma and a space. `CodePage`
/// gives the first byte in decimal, and fails on an empty table.
#[verifier::external_body]
fn table_text(interpretation: TableInterpretation, table: &[u8]) -> (text: Result<String, ()>)
    ensures
        match text {
            Ok(text) => interpretation.text(table@) == Some(text@),
            Err(_) => interpretation.text(table@) is None,
        },
{
    match interpretation {
        TableInterpretation::Generic => mccs_db::TableInterpretation::Generic,
        TableInterpretation::CodePage => mccs_db::TableInterpretation::CodePage,
    }.format(table)
}

} // verus!
