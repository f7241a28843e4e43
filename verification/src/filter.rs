//! What the command line says about which displays are meant, and the
//! settings of a run that follow from it.

use vstd::prelude::*;
use crate::display::{Backend, DisplayInfo};
use crate::query::{lemma_all_any, reads, Query};

verus! {

/// The filters of the command line. A filter that is not given admits every
/// display.
#[derive(Clone, Debug, PartialEq, Eq)]
pub struct Filter {
    /// The drivers that may be used; none given means any.
    pub backend: Vec<Backend>,
    /// The identifier that the display must have.
    pub id: Option<String>,
    /// The manufacturer that the display must be of.
    pub manufacturer: Option<String>,
    /// The model that the display must be of.
    pub model_name: Option<String>,
    /// The serial number that the display must have.
    pub serial: Option<String>,
}

/// The switches of the command line that hold for every command.
#[derive(Clone, Copy, Debug, PartialEq, Eq)]
pub struct GlobalArgs {
    /// Whether the displays are asked for all that they can do.
    pub capabilities: bool,
}

/// The settings of one run.
#[derive(Debug, PartialEq, Eq)]
pub struct Config {
    /// The condition that a display must meet.
    pub query: Query,
    /// Whether the condition can be decided only once a display has been
    /// asked what it can do.
    pub needs_caps: bool,
    /// Whether the condition asks for what only a display's own
    /// identification data holds.
    pub needs_edid: bool,
    /// Whether commands ask the displays for all that they can do.
    pub request_caps: bool,
}

/// Whether `wanted`, if given, is what `field` reads.
pub open spec fn admits_text(wanted: Option<String>, field: Option<String>) -> bool {
    wanted matches Some(text) ==> reads(field, text)
}

impl Filter {
    /// Whether a display of which `info` is known passes every filter.
    pub open spec fn admits(self, info: DisplayInfo) -> bool {
        &&& self.backend@.len() == 0 || self.backend@.contains(info.backend)
        &&& self.id matches Some(id) ==> info.id@ == id@
        &&& admits_text(self.manufacturer, info.manufacturer_id)
        &&& admits_text(self.model_name, info.model_name)
        &&& admits_text(self.serial, info.serial_number)
    }

    /// The condition that stands for the filters: it holds of exactly the
    /// displays that pass every filter.
    pub fn query(&self) -> (query: Query)
        ensures
            forall|info: DisplayInfo| #[trigger] query.accepts(info) == self.admits(info),
    {
        let mut query = Query::Any;
        if self.backend.len() > 0 {
            query = both(query, any_backend(&self.backend));
        }
        if let Some(id) = &self.id {
            query = both(query, Query::Id(id.clone()));
        }
        if let Some(manufacturer) = &self.manufacturer {
            query = both(query, Query::ManufacturerId(manufacturer.clone()));
        }
        if let Some(model) = &self.model_name {
            query = both(query, Query::ModelName(model.clone()));
        }
        if let Some(serial) = &self.serial {
            query = both(query, Query::SerialNumber(serial.clone()));
        }
        query
    }

    /// Whether the filters can be decided only once a display has been asked
    /// what it can do: the name of the model is learnt that way.
    pub fn needs_caps(&self) -> (needed: bool)
        ensures
            needed == self.model_name is Some,
    {
        self.model_name.is_some()
    }

    /// Whether the filters ask for what only a display's own identification
    /// data holds: the manufacturer and the serial number.
    pub fn needs_edid(&self) -> (needed: bool)
        ensures
            needed == (self.manufacturer is Some || self.serial is Some),
    {
        self.manufacturer.is_some() || self.serial.is_some()
    }

    /// The settings of a run under these filters and switches.
    pub fn config(&self, args: &GlobalArgs) -> (config: Config)
        ensures
            forall|info: DisplayInfo| #[trigger] config.query.accepts(info) == self.admits(info),
            config.needs_caps == self.model_name is Some,
            config.needs_edid == (self.manufacturer is Some || self.serial is Some),
            config.request_caps == args.capabilities,
    {
        Config {
            query: self.query(),
            needs_caps: self.needs_caps(),
            needs_edid: self.needs_edid(),
            request_caps: args.capabilities,
        }
    }
}

/// The condition that holds where `left` and `right` both hold.
fn both(left: Query, right: Query) -> (query: Query)
    ensures
        forall|info: DisplayInfo| #[trigger]
            query.accepts(info) == (left.accepts(info) && right.accepts(info)),
{
    let queries = vec![left, right];
    proof {
        assert forall|info: DisplayInfo| #[trigger]
            Query::And(queries).accepts(info) == (left.accepts(info) && right.accepts(
                info,
            )) by {
            lemma_all_any(queries, info);
            assert(queries@[0] == left);
            assert(queries@[1] == right);
        }
    }
    Query::And(queries)
}

/// The condition that holds of the displays reached through one of
/// `backends`.
fn any_backend(backends: &Vec<Backend>) -> (query: Query)
    ensures
        forall|info: DisplayInfo| #[trigger]
            query.accepts(info) == backends@.contains(info.backend),
{
    let mut queries: Vec<Query> = Vec::new();
    let mut i: usize = 0;
    while i < backends.len()
        invariant
            i <= backends@.len(),
            queries@.len() == i,
            forall|j: int| 0 <= j < i ==> #[trigger] queries@[j] == Query::Backend(backends@[j]),
        decreases backends@.len() - i,
    {
        queries.push(Query::Backend(backends[i]));
        i += 1;
    }
    proof {
        assert forall|info: DisplayInfo| #[trigger]
            Query::Or(queries).accepts(info) == backends@.contains(info.backend) by {
            lemma_all_any(queries, info);
            if Query::Or(queries).accepts(info) {
                let j = choose|j: int|
                    0 <= j < queries@.len() && (#[trigger] queries@[j]).accepts(info);
                assert(backends@[j] == info.backend);
            }
            if backends@.contains(info.backend) {
                let j = choose|j: int| 0 <= j < backends@.len() && backends@[j] == info.backend;
                assert(queries@[j].accepts(info));
            }
        }
    }
    Query::Or(queries)
}

} // verus!
