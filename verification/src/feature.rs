//! What is known of the control codes of a display: one descriptor for each
//! code, and the database that holds them.

use vstd::prelude::*;
use crate::value::{TableInterpretation, ValueInterpretation};

verus! {

/// The code of one control of a display.
pub type FeatureCode = u8;

/// A value of a non-continuous control with its name, if it has one.
pub type ValueName = (u8, Option<String>);

/// Whether a control can be read, written, or both.
#[derive(Clone, Copy, Debug, PartialEq, Eq, Structural)]
pub enum Access {
    /// The value can only be read.
    ReadOnly,
    /// The value can only be written.
    WriteOnly,
    /// The value can be read and written.
    ReadWrite,
}

impl Access {
    /// The name under which the access is reported.
    pub open spec fn text(self) -> Seq<char> {
        match self {
            Access::ReadOnly => "ReadOnly"@,
            Access::WriteOnly => "WriteOnly"@,
            Access::ReadWrite => "ReadWrite"@,
        }
    }

    /// The name under which the access is reported.
    pub fn name(&self) -> (name: &'static str)
        ensures
            name@ == self.text(),
    {
        match self {
            Access::ReadOnly => "ReadOnly",
            Access::WriteOnly => "WriteOnly",
            Access::ReadWrite => "ReadWrite",
        }
    }
}

/// The kind of value behind a control, and how to understand it.
#[derive(Clone, Debug, PartialEq, Eq)]
pub enum ValueType {
    /// Nothing is known of the value.
    Unknown,
    /// A number on a scale.
    Continuous {
        /// How the number is understood.
        interpretation: ValueInterpretation,
    },
    /// A number that is one of a set.
    NonContinuous {
        /// The values that the display accepts, with their names.
        values: Vec<ValueName>,
        /// How the number is understood.
        interpretation: ValueInterpretation,
    },
    /// A sequence of bytes.
    Table {
        /// How the bytes are understood.
        interpretation: TableInterpretation,
    },
}

/// The name that `values` gives to `byte` from position `from` on: that of the
/// first entry for `byte`. An entry without a name gives none.
pub open spec fn name_from(values: Seq<ValueName>, byte: u8, from: int) -> Option<String>
    decreases values.len() - from,
{
    if from < 0 || from >= values.len() {
        None
    } else if values[from].0 == byte {
        values[from].1
    } else {
        name_from(values, byte, from + 1)
    }
}

/// The name that `values` gives to `byte`, if any.
pub open spec fn name_of(values: Seq<ValueName>, byte: u8) -> Option<String> {
    name_from(values, byte, 0)
}

/// Looks up the name that `values` gives to `byte`.
pub fn value_name(values: &Vec<ValueName>, byte: u8) -> (name: Option<&String>)
    ensures
        match name {
            Some(name) => name_of(values@, byte) == Some(*name),
            None => name_of(values@, byte) is None,
        },
{
    let mut i: usize = 0;
    while i < values.len()
        invariant
            i <= values@.len(),
            name_of(values@, byte) == name_from(values@, byte, i as int),
        decreases values@.len() - i,
    {
        if values[i].0 == byte {
            return match &values[i].1 {
                Some(name) => Some(name),
                None => None,
            };
        }
        i += 1;
    }
    None
}

/// What is known of one control code.
#[derive(Clone, Debug, PartialEq, Eq)]
pub struct Descriptor {
    /// The name of the control.
    pub name: Option<String>,
    /// What the control does, in words.
    pub description: Option<String>,
    /// The group of controls that this one belongs to.
    pub group: Option<String>,
    /// The code of the control.
    pub code: FeatureCode,
    /// The kind of value behind the control.
    pub ty: ValueType,
    /// Whether the control can be read, written, or both.
    pub access: Access,
    /// Whether the standard asks every display to have this control.
    pub mandatory: bool,
    /// The codes of the controls that change when this one is set.
    pub interacts_with: Vec<FeatureCode>,
}

/// The descriptors of the controls of one display. That a code has no
/// descriptor is no fault: the control is then unknown.
#[derive(Clone, Debug, PartialEq, Eq)]
pub struct Database {
    /// The descriptors. Where two carry one code, the first counts.
    pub entries: Vec<Descriptor>,
}

impl Database {
    /// The position of the first descriptor for `code` from position `from`
    /// on, if there is one.
    pub open spec fn position_from(self, code: FeatureCode, from: int) -> Option<int>
        decreases self.entries@.len() - from,
    {
        if from < 0 || from >= self.entries@.len() {
            None
        } else if self.entries@[from].code == code {
            Some(from)
        } else {
            self.position_from(code, from + 1)
        }
    }

    /// The descriptor of `code`, if the database has one.
    pub open spec fn lookup(self, code: FeatureCode) -> Option<Descriptor> {
        match self.position_from(code, 0) {
            Some(i) => Some(self.entries@[i]),
            None => None,
        }
    }

    /// Whether the database has a descriptor for `code`.
    pub open spec fn has(self, code: FeatureCode) -> bool {
        self.lookup(code) is Some
    }

    /// A database without descriptors.
    pub fn new() -> (database: Database)
        ensures
            database.entries@.len() == 0,
            forall|code: FeatureCode| !database.has(code),
    {
        Database { entries: Vec::new() }
    }

    /// The descriptor of `code`, if the database has one.
    pub fn get(&self, code: FeatureCode) -> (found: Option<&Descriptor>)
        ensures
            match found {
                Some(descriptor) => self.lookup(code) == Some(*descriptor),
                None => self.lookup(code) is None,
            },
            found matches Some(descriptor) ==> descriptor.code == code,
    {
        let mut i: usize = 0;
        while i < self.entries.len()
            invariant
                i <= self.entries@.len(),
                self.position_from(code, 0) == self.position_from(code, i as int),
            decreases self.entries@.len() - i,
        {
            if self.entries[i].code == code {
                return Some(&self.entries[i]);
            }
            i += 1;
        }
        None
    }
}

/// A descriptor that the database returns for a code carries that code.
pub proof fn lemma_lookup_code(database: Database, code: FeatureCode)
    ensures
        database.lookup(code) matches Some(descriptor) ==> descriptor.code == code,
{
    lemma_position(database, code, 0);
}

/// The position found from `from` on lies in the database, not before `from`,
/// and holds a descriptor of `code`.
proof fn lemma_position(database: Database, code: FeatureCode, from: int)
    ensures
        database.position_from(code, from) matches Some(i) ==> from <= i
            < database.entries@.len() && database.entries@[i].code == code,
    decreases database.entries@.len() - from,
{
    if 0 <= from < database.entries@.len() && database.entries@[from].code != code {
        lemma_position(database, code, from + 1);
    }
}

} // verus!
