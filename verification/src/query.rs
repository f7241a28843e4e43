//! Which displays a command is meant for: a tree of conditions on what a
//! display says of itself.

use vstd::prelude::*;
use crate::display::{Backend, DisplayInfo};

verus! {

/// A condition on a display. Texts are compared whole and letter for letter.
#[derive(Debug, PartialEq, Eq)]
pub enum Query {
    /// Holds of every display.
    Any,
    /// The display is reached through this driver.
    Backend(Backend),
    /// The display has this identifier.
    Id(String),
    /// The display is of this manufacturer.
    ManufacturerId(String),
    /// The display is of this model.
    ModelName(String),
    /// The display has this serial number.
    SerialNumber(String),
    /// At least one of the conditions holds.
    Or(Vec<Query>),
    /// All of the conditions hold.
    And(Vec<Query>),
}

/// Whether `field` is there and reads `wanted`.
pub open spec fn reads(field: Option<String>, wanted: String) -> bool {
    field matches Some(text) && text@ == wanted@
}

/// Whether every condition in `queries` holds of `info`: the conjunction,
/// taken one condition after the other.
pub open spec fn conjunction(queries: Seq<Query>, info: DisplayInfo) -> bool
    decreases queries.len(),
{
    if queries.len() == 0 {
        true
    } else {
        conjunction(queries.drop_last(), info) && queries.last().accepts(info)
    }
}

/// Whether some condition in `queries` holds of `info`: the disjunction,
/// taken one condition after the other.
pub open spec fn disjunction(queries: Seq<Query>, info: DisplayInfo) -> bool
    decreases queries.len(),
{
    if queries.len() == 0 {
        false
    } else {
        disjunction(queries.drop_last(), info) || queries.last().accepts(info)
    }
}

impl Query {
    /// Whether the condition holds of a display of which `info` is known.
    pub open spec fn accepts(self, info: DisplayInfo) -> bool
        decreases self,
    {
        match self {
            Query::Any => true,
            Query::Backend(backend) => info.backend == backend,
            Query::Id(id) => info.id@ == id@,
            Query::ManufacturerId(id) => reads(info.manufacturer_id, id),
            Query::ModelName(model) => reads(info.model_name, model),
            Query::SerialNumber(serial) => reads(info.serial_number, serial),
            Query::Or(queries) => exists|i: int|
                0 <= i < queries@.len() && (#[trigger] queries@[i]).accepts(info),
            Query::And(queries) => forall|i: int|
                0 <= i < queries@.len() ==> (#[trigger] queries@[i]).accepts(info),
        }
    }

    /// Whether the condition holds of a display of which `info` is known.
    /// Nothing is read but `info`, and a list of conditions is left as soon as
    /// one of them decides.
    pub fn matches(&self, info: &DisplayInfo) -> (held: bool)
        ensures
            held == self.accepts(*info),
        decreases self,
    {
        match self {
            Query::Any => true,
            Query::Backend(backend) => info.backend == *backend,
            Query::Id(id) => info.id == *id,
            Query::ManufacturerId(id) => field_reads(&info.manufacturer_id, id),
            Query::ModelName(model) => field_reads(&info.model_name, model),
            Query::SerialNumber(serial) => field_reads(&info.serial_number, serial),
            Query::Or(queries) => {
                let mut i: usize = 0;
                while i < queries.len()
                    invariant
                        i <= queries@.len(),
                        *self == Query::Or(*queries),
                        forall|j: int| 0 <= j < i ==> !(#[trigger] queries@[j]).accepts(*info),
                    decreases queries@.len() - i,
                {
                    assert(decreases_to!(*queries => queries[i as int]));
                    assert(decreases_to!(*self => self->Or_0));
                    if queries[i].matches(info) {
                        return true;
                    }
                    i += 1;
                }
                false
            },
            Query::And(queries) => {
                let mut i: usize = 0;
                while i < queries.len()
                    invariant
                        i <= queries@.len(),
                        *self == Query::And(*queries),
                        forall|j: int| 0 <= j < i ==> (#[trigger] queries@[j]).accepts(*info),
                    decreases queries@.len() - i,
                {
                    assert(decreases_to!(*queries => queries[i as int]));
                    assert(decreases_to!(*self => self->And_0));
                    if !queries[i].matches(info) {
                        return false;
                    }
                    i += 1;
                }
                true
            },
        }
    }
}

fn field_reads(field: &Option<String>, wanted: &String) -> (held: bool)
    ensures
        held == reads(*field, *wanted),
{
    match field {
        Some(text) => *text == *wanted,
        None => false,
    }
}

/// A conjunction holds where each of its conditions holds, a disjunction
/// where one of them does.
pub proof fn lemma_all_any(queries: Vec<Query>, info: DisplayInfo)
    ensures
        Query::And(queries).accepts(info) == (forall|i: int|
            0 <= i < queries@.len() ==> (#[trigger] queries@[i]).accepts(info)),
        Query::Or(queries).accepts(info) == (exists|i: int|
            0 <= i < queries@.len() && (#[trigger] queries@[i]).accepts(info)),
{
    assert(Query::And(queries)->And_0 == queries);
    assert(Query::Or(queries)->Or_0 == queries);
}

/// A conjunction without conditions holds of every display, and a
/// disjunction without alternatives of none.
pub proof fn lemma_empty(queries: Vec<Query>, info: DisplayInfo)
    requires
        queries@.len() == 0,
    ensures
        Query::And(queries).accepts(info),
        !Query::Or(queries).accepts(info),
{
    lemma_all_any(queries, info);
}

/// A conjunction holds exactly where the logical "and" of its conditions,
/// taken one after the other, holds; a disjunction exactly where their
/// logical "or" does. To stop at the first condition that decides changes
/// nothing.
pub proof fn lemma_connectives(queries: Vec<Query>, info: DisplayInfo)
    ensures
        Query::And(queries).accepts(info) == conjunction(queries@, info),
        Query::Or(queries).accepts(info) == disjunction(queries@, info),
{
    lemma_all_any(queries, info);
    lemma_fold(queries@, info);
}

/// The conjunction and the disjunction, taken one condition after the other,
/// are the "for all" and the "exists" over the list.
pub proof fn lemma_fold(queries: Seq<Query>, info: DisplayInfo)
    ensures
        conjunction(queries, info) == (forall|i: int|
            0 <= i < queries.len() ==> (#[trigger] queries[i]).accepts(info)),
        disjunction(queries, info) == (exists|i: int|
            0 <= i < queries.len() && (#[trigger] queries[i]).accepts(info)),
    decreases queries.len(),
{
    if queries.len() > 0 {
        let front = queries.drop_last();
        lemma_fold(front, info);
        assert forall|i: int| 0 <= i < front.len() implies front[i] == queries[i] by {}
        if conjunction(queries, info) {
            assert forall|i: int| 0 <= i < queries.len() implies (#[trigger] queries[i]).accepts(
                info,
            ) by {
                if i < front.len() {
                    assert(front[i].accepts(info));
                }
            }
        } else if conjunction(front, info) {
            assert(!queries[queries.len() - 1].accepts(info));
        } else {
            let i = choose|i: int| 0 <= i < front.len() && !(#[trigger] front[i]).accepts(info);
            assert(!queries[i].accepts(info));
        }
        if disjunction(queries, info) {
            if disjunction(front, info) {
                let i = choose|i: int| 0 <= i < front.len() && (#[trigger] front[i]).accepts(info);
                assert(queries[i].accepts(info));
            } else {
                assert(queries[queries.len() - 1].accepts(info));
            }
        } else {
            assert forall|i: int| 0 <= i < queries.len() implies !(#[trigger] queries[i]).accepts(
                info,
            ) by {
                if i < front.len() {
                    assert(!front[i].accepts(info));
                }
            }
        }
    }
}

/// Conjunction and disjunction are associative: a list of conditions may be
/// cut in two anywhere, and the two parts nested, without changing which
/// displays are accepted.
pub proof fn lemma_associative(
    left: Vec<Query>,
    right: Vec<Query>,
    flat: Vec<Query>,
    nested_and: Vec<Query>,
    nested_or: Vec<Query>,
    info: DisplayInfo,
)
    requires
        flat@ == left@ + right@,
        nested_and@ == seq![Query::And(left), Query::And(right)],
        nested_or@ == seq![Query::Or(left), Query::Or(right)],
    ensures
        Query::And(flat).accepts(info) == (Query::And(left).accepts(info) && Query::And(
            right,
        ).accepts(info)),
        Query::And(flat).accepts(info) == Query::And(nested_and).accepts(info),
        Query::Or(flat).accepts(info) == (Query::Or(left).accepts(info) || Query::Or(
            right,
        ).accepts(info)),
        Query::Or(flat).accepts(info) == Query::Or(nested_or).accepts(info),
{
    lemma_all_any(left, info);
    lemma_all_any(right, info);
    lemma_all_any(flat, info);
    lemma_all_any(nested_and, info);
    lemma_all_any(nested_or, info);
    let n = left@.len() as int;
    assert forall|i: int| 0 <= i < left@.len() implies flat@[i] == left@[i] by {}
    assert forall|i: int| 0 <= i < right@.len() implies flat@[n + i] == right@[i] by {}
    // conjunction
    if Query::And(flat).accepts(info) {
        assert forall|i: int| 0 <= i < left@.len() implies (#[trigger] left@[i]).accepts(info) by {
            assert(flat@[i].accepts(info));
        }
        assert forall|i: int| 0 <= i < right@.len() implies (#[trigger] right@[i]).accepts(
            info,
        ) by {
            assert(flat@[n + i].accepts(info));
        }
    }
    if Query::And(left).accepts(info) && Query::And(right).accepts(info) {
        assert forall|i: int| 0 <= i < flat@.len() implies (#[trigger] flat@[i]).accepts(info) by {
            if i < n {
                assert(left@[i].accepts(info));
            } else {
                assert(right@[i - n].accepts(info));
                assert(flat@[n + (i - n)] == right@[i - n]);
            }
        }
    }
    assert(nested_and@[0] == Query::And(left));
    assert(nested_and@[1] == Query::And(right));
    if Query::And(nested_and).accepts(info) {
        assert(nested_and@[0].accepts(info));
        assert(nested_and@[1].accepts(info));
    }
    // disjunction
    if Query::Or(flat).accepts(info) {
        let i = choose|i: int| 0 <= i < flat@.len() && (#[trigger] flat@[i]).accepts(info);
        if i < n {
            assert(left@[i].accepts(info));
        } else {
            assert(flat@[n + (i - n)] == right@[i - n]);
            assert(right@[i - n].accepts(info));
        }
    }
    if Query::Or(left).accepts(info) {
        let i = choose|i: int| 0 <= i < left@.len() && (#[trigger] left@[i]).accepts(info);
        assert(flat@[i].accepts(info));
    }
    if Query::Or(right).accepts(info) {
        let i = choose|i: int| 0 <= i < right@.len() && (#[trigger] right@[i]).accepts(info);
        assert(flat@[n + i].accepts(info));
    }
    assert(nested_or@[0] == Query::Or(left));
    assert(nested_or@[1] == Query::Or(right));
    if Query::Or(left).accepts(info) {
        assert(nested_or@[0].accepts(info));
    }
    if Query::Or(right).accepts(info) {
        assert(nested_or@[1].accepts(info));
    }
}

} // verus!
