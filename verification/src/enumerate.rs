//! Which of the displays that the drivers list are handed on to a command.
//!
//! The listing is taken in one piece at a time. A display that the filters
//! admit is handed on as soon as it is seen; whether the listing as a whole
//! has failed is decided only at its end, and it has failed only if nothing
//! was handed on.

use vstd::prelude::*;
use crate::display::DisplayInfo;
use crate::error::Error;
use crate::filter::Config;

verus! {

/// One piece of the drivers' listing.
#[derive(Debug, PartialEq, Eq)]
pub enum Sighting<E> {
    /// A driver could not list its displays.
    Failed(E),
    /// A display, with what is known of it without asking it.
    Found(DisplayInfo),
    /// The display seen last, with what is known of it after the refresh that
    /// was asked for. A refresh that failed leaves what was known before.
    Refreshed(DisplayInfo),
    /// The listing is at its end.
    Exhausted,
}

/// What is to be done after one piece of the listing.
#[derive(Debug, PartialEq, Eq)]
pub enum Verdict<E> {
    /// Nothing: go on with the next piece.
    Next,
    /// Ask the display seen last for what it is, and also for what it can do
    /// if the flag is set; then report it as refreshed.
    Refresh(bool),
    /// The display seen last is one of those meant: hand it to the command.
    Keep(DisplayInfo),
    /// The listing is over. It has failed if an error comes with this.
    Done(Option<Error<E>>),
}

/// What has to be remembered from one piece of the listing to the next.
#[derive(Debug, PartialEq, Eq)]
pub struct Enumeration<E> {
    /// The failure of a driver that was reported first, if any was.
    pub first_error: Option<E>,
    /// How many displays were handed on. The count stops at the largest
    /// number that it can hold.
    pub kept: usize,
}

/// Whether a piece of the listing is a display that is handed on: one that
/// the filters admit, seen either after a refresh or where none is needed.
pub open spec fn yields<E>(args: Config, sighting: Sighting<E>) -> bool {
    match sighting {
        Sighting::Found(info) => !args.needs_caps && args.query.accepts(info),
        Sighting::Refreshed(info) => args.query.accepts(info),
        _ => false,
    }
}

impl<E> Enumeration<E> {
    /// The error that ends a listing in this state, if it has failed: the
    /// driver's failure that was reported first or, where no driver failed,
    /// that no display matched. A listing that handed on a display has not
    /// failed, whatever the drivers reported.
    pub open spec fn terminal(self) -> Option<Error<E>> {
        if self.kept > 0 {
            None
        } else {
            match self.first_error {
                Some(e) => Some(Error::Enumeration(e)),
                None => Some(Error::NoMatch),
            }
        }
    }

    /// What is to be done after `sighting`.
    pub open spec fn verdict(self, args: Config, sighting: Sighting<E>) -> Verdict<E> {
        match sighting {
            Sighting::Failed(_) => Verdict::Next,
            Sighting::Found(info) => if yields(args, sighting) {
                Verdict::Keep(info)
            } else {
                Verdict::Refresh(args.needs_caps)
            },
            Sighting::Refreshed(info) => if yields(args, sighting) {
                Verdict::Keep(info)
            } else {
                Verdict::Next
            },
            Sighting::Exhausted => Verdict::Done(self.terminal()),
        }
    }

    /// What is remembered after `sighting`.
    pub open spec fn after(self, args: Config, sighting: Sighting<E>) -> Enumeration<E> {
        match sighting {
            Sighting::Failed(e) => Enumeration {
                first_error: if self.first_error is Some {
                    self.first_error
                } else {
                    Some(e)
                },
                kept: self.kept,
            },
            Sighting::Exhausted => Enumeration {
                first_error: if self.kept > 0 {
                    self.first_error
                } else {
                    None
                },
                kept: self.kept,
            },
            _ => Enumeration {
                first_error: self.first_error,
                kept: if yields(args, sighting) && self.kept < usize::MAX {
                    (self.kept + 1) as usize
                } else {
                    self.kept
                },
            },
        }
    }

    /// The state in which a listing begins.
    pub fn new() -> (state: Enumeration<E>)
        ensures
            state.first_error is None,
            state.kept == 0,
    {
        Enumeration { first_error: None, kept: 0 }
    }
}

/// Takes one piece of the drivers' listing and says what is to be done.
///
/// A driver's failure is remembered and passed over. A display that the
/// filters admit by what is known of it already is kept without asking it
/// anything, unless the filters can be decided only after a refresh. Every
/// other display is to be refreshed first, and is kept if the filters admit
/// it afterwards. At the end of the listing the error is given that
/// [`Enumeration::terminal`] describes.
pub fn query_displays<E>(args: &Config, state: &mut Enumeration<E>, sighting: Sighting<E>) -> (verdict:
    Verdict<E>)
    ensures
        verdict == old(state).verdict(*args, sighting),
        *final(state) == old(state).after(*args, sighting),
{
    match sighting {
        Sighting::Failed(e) => {
            if state.first_error.is_none() {
                state.first_error = Some(e);
            }
            Verdict::Next
        },
        Sighting::Found(info) => {
            if !args.needs_caps && args.query.matches(&info) {
                count(state);
                Verdict::Keep(info)
            } else {
                Verdict::Refresh(args.needs_caps)
            }
        },
        Sighting::Refreshed(info) => {
            if args.query.matches(&info) {
                count(state);
                Verdict::Keep(info)
            } else {
                Verdict::Next
            }
        },
        Sighting::Exhausted => {
            if state.kept > 0 {
                Verdict::Done(None)
            } else {
                match state.first_error.take() {
                    Some(e) => Verdict::Done(Some(Error::Enumeration(e))),
                    None => Verdict::Done(Some(Error::NoMatch)),
                }
            }
        },
    }
}

fn count<E>(state: &mut Enumeration<E>)
    ensures
        final(state).first_error == old(state).first_error,
        final(state).kept == if old(state).kept < usize::MAX {
            (old(state).kept + 1) as usize
        } else {
            old(state).kept
        },
{
    if state.kept < usize::MAX {
        state.kept = state.kept + 1;
    }
}

/// The state of a listing of which `sightings` have been taken.
pub open spec fn replay<E>(args: Config, sightings: Seq<Sighting<E>>) -> Enumeration<E>
    decreases sightings.len(),
{
    if sightings.len() == 0 {
        Enumeration { first_error: None, kept: 0 }
    } else {
        replay(args, sightings.drop_last()).after(args, sightings.last())
    }
}

/// The failure of a driver that comes first in `sightings`, if there is one.
pub open spec fn first_failure<E>(sightings: Seq<Sighting<E>>) -> Option<E>
    decreases sightings.len(),
{
    if sightings.len() == 0 {
        None
    } else {
        match first_failure(sightings.drop_last()) {
            Some(e) => Some(e),
            None => match sightings.last() {
                Sighting::Failed(e) => Some(e),
                _ => None,
            },
        }
    }
}

/// Whether the listing has not come to its end within `sightings`.
pub open spec fn open_ended<E>(sightings: Seq<Sighting<E>>) -> bool {
    forall|i: int| 0 <= i < sightings.len() ==> !(#[trigger] sightings[i] is Exhausted)
}

/// A listing remembers the driver's failure that came first, and has counted
/// a display exactly if it handed one on.
pub proof fn lemma_replay<E>(args: Config, sightings: Seq<Sighting<E>>)
    requires
        open_ended(sightings),
    ensures
        replay(args, sightings).first_error == first_failure(sightings),
        replay(args, sightings).kept > 0 <==> exists|i: int|
            0 <= i < sightings.len() && yields(args, #[trigger] sightings[i]),
    decreases sightings.len(),
{
    if sightings.len() > 0 {
        let front = sightings.drop_last();
        let last = sightings.last();
        assert forall|i: int| 0 <= i < front.len() implies front[i] == sightings[i] by {}
        assert(open_ended(front)) by {
            assert forall|i: int| 0 <= i < front.len() implies !(#[trigger] front[i]
                is Exhausted) by {
                assert(!(sightings[i] is Exhausted));
            }
        }
        lemma_replay(args, front);
        assert(!(sightings[sightings.len() - 1] is Exhausted));
        if replay(args, sightings).kept > 0 {
            if replay(args, front).kept > 0 {
                let i = choose|i: int| 0 <= i < front.len() && yields(args, #[trigger] front[i]);
                assert(yields(args, sightings[i]));
            } else {
                assert(yields(args, sightings[sightings.len() - 1]));
            }
        }
        if exists|i: int| 0 <= i < sightings.len() && yields(args, #[trigger] sightings[i]) {
            let i = choose|i: int| 0 <= i < sightings.len() && yields(args, #[trigger] sightings[i]);
            if i < front.len() {
                assert(yields(args, front[i]));
            }
        }
    }
}

/// Partial success is success: once a display has been handed on, the end of
/// the listing brings no error, however many drivers have failed.
pub proof fn lemma_kept_means_success<E>(args: Config, sightings: Seq<Sighting<E>>, i: int)
    requires
        open_ended(sightings),
        0 <= i < sightings.len(),
        yields(args, sightings[i]),
    ensures
        replay(args, sightings).verdict(args, Sighting::Exhausted) == Verdict::<E>::Done(None),
{
    lemma_replay(args, sightings);
}

/// A listing that hands on no display ends with exactly one error: the
/// failure of a driver that came first or, where no driver failed, that no
/// display matched.
pub proof fn lemma_nothing_kept_means_failure<E>(args: Config, sightings: Seq<Sighting<E>>)
    requires
        open_ended(sightings),
        forall|i: int| 0 <= i < sightings.len() ==> !yields(args, #[trigger] sightings[i]),
    ensures
        replay(args, sightings).verdict(args, Sighting::Exhausted) == Verdict::Done(
            Some(
                match first_failure(sightings) {
                    Some(e) => Error::Enumeration(e),
                    None => Error::NoMatch,
                },
            ),
        ),
        forall|i: int|
            0 <= i < sightings.len() ==> !(#[trigger] replay(
                args,
                sightings.take(i),
            ).verdict(args, sightings[i]) is Keep),
{
    lemma_replay(args, sightings);
}

} // verus!
