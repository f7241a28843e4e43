//! One run of a command over the displays that the filters admit.
//!
//! The run takes the drivers' listing piece by piece. Each display that is
//! kept is handed to the command, worked on until the command has finished
//! with it, and then put aside for the pause that it is owed before the
//! program ends. A failure on one display is reported and does not stop the
//! run; it only makes the run a failed one.

use vstd::prelude::*;
use crate::command::{
    refresh_error, refreshed, DisplayCommand, Next, NextView, Reply, Request, RequestView, Step,
    StepView,
};
use crate::display::DisplayInfo;
use crate::enumerate::{query_displays, Enumeration, Sighting, Verdict};
use crate::error::Error;
use crate::filter::Config;
use crate::text::{no_lines, texts};

verus! {

/// The displays that a run has worked on. Each of them is owed a pause
/// before the program ends, so that what was sent to it last can take
/// effect; the program makes that pause for every display in here, however
/// the run has ended.
#[derive(Debug, PartialEq, Eq)]
pub struct DisplaySleep<D>(pub Vec<D>);

impl<D> View for DisplaySleep<D> {
    type V = Seq<D>;

    open spec fn view(&self) -> Seq<D> {
        self.0@
    }
}

impl<D> DisplaySleep<D> {
    /// No displays yet.
    pub fn new() -> (sleep: Self)
        ensures
            sleep@ == Seq::<D>::empty(),
    {
        DisplaySleep(Vec::new())
    }

    /// Puts a display aside, behind those that are there already.
    pub fn add(&mut self, display: D)
        ensures
            final(self)@ == old(self)@.push(display),
    {
        self.0.push(display)
    }

    /// Hands out the displays, in the order in which they were put aside.
    pub fn drain(self) -> (displays: Vec<D>)
        ensures
            displays@ == self@,
    {
        self.0
    }
}

/// What the program around a run reports to it. `D` is whatever the program
/// knows a display by.
#[derive(Debug, PartialEq, Eq)]
pub enum Event<D, E> {
    /// A driver could not list its displays.
    Failed(E),
    /// The listing has brought a display, with what is known of it without
    /// asking it.
    Found(D, DisplayInfo),
    /// The listing is at its end.
    Exhausted,
    /// The display in hand has answered.
    Reply(Reply<E>),
}

/// What a run asks of the program around it.
#[derive(Clone, Debug, PartialEq, Eq)]
pub enum Order {
    /// Take the next piece of the drivers' listing. The display that was in
    /// hand, if one still was, is let go.
    Enumerate,
    /// Ask this of the display in hand: the one that the listing brought
    /// last.
    Display(Request),
}

/// [`Order`] as a plain value.
pub ghost enum OrderView {
    Enumerate,
    Display(RequestView),
}

impl View for Order {
    type V = OrderView;

    open spec fn view(&self) -> OrderView {
        match *self {
            Order::Enumerate => OrderView::Enumerate,
            Order::Display(request) => OrderView::Display(request@),
        }
    }
}

/// What a run is doing.
#[derive(Debug, PartialEq, Eq)]
pub enum Phase<S, D> {
    /// It waits for the next piece of the listing.
    Listing,
    /// It has asked the display in hand about itself, to decide whether the
    /// filters admit it.
    Probing(D),
    /// The command works on the display in hand and stands at the given
    /// stage.
    Working(D, S),
}

/// What a run remembers from one event to the next.
#[derive(Debug, PartialEq, Eq)]
pub struct Progress<S, D, E> {
    /// The state of the listing.
    pub enumeration: Enumeration<E>,
    /// Whether anything has failed so far. Once set, this stays set.
    pub failed: bool,
    /// What the run is doing.
    pub phase: Phase<S, D>,
}

/// How a run goes on.
#[derive(Debug, PartialEq, Eq)]
pub enum Outcome<S, D, E> {
    /// With this order; the run then waits for the event that it brings.
    Ask(Order, Progress<S, D, E>),
    /// Not at all: the run is over, with this result.
    Exit(Result<i32, Error<E>>),
}

/// [`Outcome`] as a plain value.
pub ghost enum OutcomeView<S, D, E> {
    Ask(OrderView, Progress<S, D, E>),
    Exit(Result<i32, Error<E>>),
}

impl<S, D, E> View for Outcome<S, D, E> {
    type V = OutcomeView<S, D, E>;

    open spec fn view(&self) -> OutcomeView<S, D, E> {
        match *self {
            Outcome::Ask(order, progress) => OutcomeView::Ask(order@, progress),
            Outcome::Exit(result) => OutcomeView::Exit(result),
        }
    }
}

/// What a run says to one event.
#[derive(Debug, PartialEq, Eq)]
pub struct Turn<S, D, E> {
    /// The lines to be printed, in their order.
    pub lines: Vec<String>,
    /// Failures that are to be reported and change nothing else.
    pub warnings: Vec<Error<E>>,
    /// Failures that are to be reported and have made the run a failed one.
    pub failures: Vec<Error<E>>,
    /// How the run goes on.
    pub next: Outcome<S, D, E>,
}

/// [`Turn`] as a plain value.
pub ghost struct TurnView<S, D, E> {
    pub lines: Seq<Seq<char>>,
    pub warnings: Seq<Error<E>>,
    pub failures: Seq<Error<E>>,
    pub next: OutcomeView<S, D, E>,
}

impl<S, D, E> View for Turn<S, D, E> {
    type V = TurnView<S, D, E>;

    open spec fn view(&self) -> TurnView<S, D, E> {
        TurnView {
            lines: texts(self.lines@),
            warnings: self.warnings@,
            failures: self.failures@,
            next: self.next@,
        }
    }
}

impl<S, D, E> TurnView<S, D, E> {
    /// A turn that says nothing but how the run goes on.
    pub open spec fn silent(next: OutcomeView<S, D, E>) -> Self {
        TurnView { lines: seq![], warnings: seq![], failures: seq![], next }
    }

    /// This turn with `error`, if there is one, reported as a warning before
    /// everything else.
    pub open spec fn warned(self, error: Option<Error<E>>) -> Self {
        match error {
            Some(error) => TurnView { warnings: seq![error] + self.warnings, ..self },
            None => self,
        }
    }

    /// The turn in which the command took `step` on the display `display`.
    /// What the command says is passed on. A failure makes the run a failed
    /// one. Where the command asks something of the display, the run asks
    /// it; where the command has finished, the run goes on with the
    /// listing.
    pub open spec fn follow(
        step: StepView<S, E>,
        display: D,
        enumeration: Enumeration<E>,
        failed: bool,
    ) -> Self {
        let failed = failed || step.failures.len() > 0;
        TurnView {
            lines: step.lines,
            warnings: step.warnings,
            failures: step.failures,
            next: match step.next {
                NextView::Ask(request, stage) => OutcomeView::Ask(
                    OrderView::Display(request),
                    Progress { enumeration, failed, phase: Phase::Working(display, stage) },
                ),
                NextView::Finish => OutcomeView::Ask(
                    OrderView::Enumerate,
                    Progress { enumeration, failed, phase: Phase::Listing },
                ),
            },
        }
    }
}

/// The exit status of a run: `0` where nothing has failed, `1` where
/// something has.
pub open spec fn status(failed: bool) -> i32 {
    if failed {
        1
    } else {
        0
    }
}

/// The exit status of the program after a run with this result: that of the
/// run where it came to its end, and `1` where it did not.
pub open spec fn exit_status<E>(result: Result<i32, Error<E>>) -> i32 {
    match result {
        Ok(code) => code,
        Err(_) => 1,
    }
}

/// The exit status of the program after a run with this result.
pub fn exit_code<E>(result: &Result<i32, Error<E>>) -> (code: i32)
    ensures
        code == exit_status(*result),
{
    match result {
        Ok(code) => *code,
        Err(_) => 1,
    }
}

impl<S, D, E> Progress<S, D, E> {
    /// The state in which a run begins: it waits for the first piece of the
    /// listing, and nothing has failed.
    pub fn new() -> (progress: Self)
        ensures
            progress == (Progress::<S, D, E> {
                enumeration: Enumeration { first_error: None, kept: 0 },
                failed: false,
                phase: Phase::Listing,
            }),
    {
        Progress { enumeration: Enumeration::new(), failed: false, phase: Phase::Listing }
    }
}

/// The logic of one command over a whole run.
pub trait CliCommand<D, E>: Sized {
    /// How far the command has come on a display.
    type Stage;

    /// Whether the command can be carried out as it is given.
    spec fn usable(&self) -> bool;

    /// Whether `event` is what a run in this state waits for.
    spec fn awaits(&self, progress: Progress<Self::Stage, D, E>, event: Event<D, E>) -> bool;

    /// What the run says to `event`.
    spec fn turn(&self, args: Config, progress: Progress<Self::Stage, D, E>, event: Event<D, E>)
        -> TurnView<Self::Stage, D, E>;

    /// The display with which the command finishes at `event`, if it does
    /// with one.
    spec fn retires(&self, args: Config, progress: Progress<Self::Stage, D, E>, event: Event<D, E>)
        -> Option<D>;

    /// Says whether `event` is what a run in this state waits for.
    fn ready(&self, progress: &Progress<Self::Stage, D, E>, event: &Event<D, E>) -> (awaited: bool)
        ensures
            awaited == self.awaits(*progress, *event),
    ;

    /// Takes the run one event further. A display with which the command
    /// has finished, whether it failed there or not, is put into `sleep`.
    fn run(
        &self,
        sleep: &mut DisplaySleep<D>,
        args: &Config,
        progress: Progress<Self::Stage, D, E>,
        event: Event<D, E>,
    ) -> (turn: Turn<Self::Stage, D, E>)
        requires
            self.usable(),
            self.awaits(progress, event),
        ensures
            turn@ == self.turn(*args, progress, event),
            final(sleep)@ == match self.retires(*args, progress, event) {
                Some(display) => old(sleep)@.push(display),
                None => old(sleep)@,
            },
    ;
}

/// What the command says when the listing brings `sighting`: nothing where
/// the display is passed over or has to be asked first, and what it says
/// when it is handed the display where the display is kept.
pub open spec fn taken_up<E, T: DisplayCommand<E>>(
    command: T,
    args: Config,
    enumeration: Enumeration<E>,
    sighting: Sighting<E>,
) -> Option<StepView<T::Stage, E>> {
    match enumeration.verdict(args, sighting) {
        Verdict::Keep(info) => Some(command.opens(args, info)),
        _ => None,
    }
}

/// The turn that a run takes when the listing brings `sighting` of the
/// display `display`.
pub open spec fn sighted<D, E, T: DisplayCommand<E>>(
    command: T,
    args: Config,
    progress: Progress<T::Stage, D, E>,
    display: D,
    sighting: Sighting<E>,
) -> TurnView<T::Stage, D, E> {
    let enumeration = progress.enumeration.after(args, sighting);
    match progress.enumeration.verdict(args, sighting) {
        Verdict::Keep(info) => TurnView::follow(
            command.opens(args, info),
            display,
            enumeration,
            progress.failed,
        ),
        Verdict::Refresh(caps) => TurnView::silent(
            OutcomeView::Ask(
                OrderView::Display(RequestView::UpdateFast(caps)),
                Progress { enumeration, failed: progress.failed, phase: Phase::Probing(display) },
            ),
        ),
        _ => TurnView::silent(
            OutcomeView::Ask(
                OrderView::Enumerate,
                Progress { enumeration, failed: progress.failed, phase: Phase::Listing },
            ),
        ),
    }
}

impl<D, E, T: DisplayCommand<E>> CliCommand<D, E> for T {
    type Stage = T::Stage;

    open spec fn usable(&self) -> bool {
        self.valid()
    }

    /// While it waits for the listing, a run takes what the listing brings.
    /// While a display is in hand, it takes the display's reply: to a
    /// refresh while it decides on the display, and to what the command
    /// asked while the command works.
    open spec fn awaits(&self, progress: Progress<T::Stage, D, E>, event: Event<D, E>) -> bool {
        match progress.phase {
            Phase::Listing => !(event is Reply),
            Phase::Probing(_) => event matches Event::Reply(Reply::Updated(_, _)),
            Phase::Working(_, stage) => event matches Event::Reply(reply) && self.expects(
                stage,
                reply,
            ),
        }
    }

    /// A driver's failure is remembered and the listing goes on. A display
    /// that the listing brings is kept, asked about itself first, or passed
    /// over, as [`query_displays`] says; a refresh that fails on the way is
    /// a warning. A display that is kept is handed to the command at once.
    /// At the end of the listing the run ends: with the listing's error
    /// where nothing was kept, and else with status `0` or, if anything has
    /// failed, `1`.
    open spec fn turn(&self, args: Config, progress: Progress<T::Stage, D, E>, event: Event<D, E>)
        -> TurnView<T::Stage, D, E> {
        match (progress.phase, event) {
            (Phase::Listing, Event::Failed(e)) => TurnView::silent(
                OutcomeView::Ask(
                    OrderView::Enumerate,
                    Progress {
                        enumeration: progress.enumeration.after(args, Sighting::Failed(e)),
                        failed: progress.failed,
                        phase: Phase::Listing,
                    },
                ),
            ),
            (Phase::Listing, Event::Found(display, info)) => sighted(
                *self,
                args,
                progress,
                display,
                Sighting::Found(info),
            ),
            (Phase::Listing, _) => TurnView::silent(
                OutcomeView::Exit(
                    match progress.enumeration.terminal() {
                        Some(error) => Err(error),
                        None => Ok(status(progress.failed)),
                    },
                ),
            ),
            (Phase::Probing(display), Event::Reply(Reply::Updated(result, info))) => sighted(
                *self,
                args,
                progress,
                display,
                Sighting::Refreshed(info),
            ).warned(refresh_error(result)),
            (Phase::Working(display, stage), Event::Reply(reply)) => TurnView::follow(
                self.proceeds(args, stage, reply),
                display,
                progress.enumeration,
                progress.failed,
            ),
            _ => TurnView::silent(OutcomeView::Exit(Ok(status(progress.failed)))),
        }
    }

    /// The command finishes with the display in hand where its step is the
    /// last on that display.
    open spec fn retires(&self, args: Config, progress: Progress<T::Stage, D, E>, event: Event<D, E>)
        -> Option<D> {
        match (progress.phase, event) {
            (Phase::Listing, Event::Found(display, info)) => match taken_up(
                *self,
                args,
                progress.enumeration,
                Sighting::Found(info),
            ) {
                Some(step) if step.next is Finish => Some(display),
                _ => None,
            },
            (Phase::Probing(display), Event::Reply(Reply::Updated(_, info))) => match taken_up(
                *self,
                args,
                progress.enumeration,
                Sighting::Refreshed(info),
            ) {
                Some(step) if step.next is Finish => Some(display),
                _ => None,
            },
            (Phase::Working(display, stage), Event::Reply(reply)) => if self.proceeds(
                args,
                stage,
                reply,
            ).next is Finish {
                Some(display)
            } else {
                None
            },
            _ => None,
        }
    }

    fn ready(&self, progress: &Progress<T::Stage, D, E>, event: &Event<D, E>) -> (awaited: bool) {
        match (&progress.phase, event) {
            (Phase::Listing, Event::Reply(_)) => false,
            (Phase::Listing, _) => true,
            (Phase::Probing(_), Event::Reply(reply)) => reply.is_updated(),
            (Phase::Working(_, stage), Event::Reply(reply)) => self.accepts(stage, reply),
            _ => false,
        }
    }

    fn run(
        &self,
        sleep: &mut DisplaySleep<D>,
        args: &Config,
        progress: Progress<T::Stage, D, E>,
        event: Event<D, E>,
    ) -> (turn: Turn<T::Stage, D, E>) {
        let Progress { enumeration, failed, phase } = progress;
        let mut enumeration = enumeration;
        match (phase, event) {
            (Phase::Listing, Event::Failed(e)) => {
                let _ = query_displays(args, &mut enumeration, Sighting::Failed(e));
                silent(Outcome::Ask(Order::Enumerate, Progress { enumeration, failed, phase: Phase::Listing }))
            },
            (Phase::Listing, Event::Found(display, info)) => sight(
                self,
                sleep,
                args,
                enumeration,
                failed,
                display,
                Sighting::Found(info),
                None,
            ),
            (Phase::Listing, event) => {
                let result = match query_displays(args, &mut enumeration, Sighting::Exhausted) {
                    Verdict::Done(Some(error)) => Err(error),
                    _ => Ok(if failed { 1 } else { 0 }),
                };
                silent(Outcome::Exit(result))
            },
            (Phase::Probing(display), Event::Reply(Reply::Updated(result, info))) => sight(
                self,
                sleep,
                args,
                enumeration,
                failed,
                display,
                Sighting::Refreshed(info),
                refreshed(result),
            ),
            (Phase::Working(display, stage), Event::Reply(reply)) => {
                let step = self.process(args, stage, reply);
                follow(sleep, step, display, enumeration, failed)
            },
            _ => silent(Outcome::Exit(Ok(if failed { 1 } else { 0 }))),
        }
    }
}

/// The progress with which a run goes on after a turn, if it goes on.
pub open spec fn goes_on<S, D, E>(turn: TurnView<S, D, E>) -> Option<Progress<S, D, E>> {
    match turn.next {
        OutcomeView::Ask(_, progress) => Some(progress),
        OutcomeView::Exit(_) => None,
    }
}

/// A run that has failed stays failed, and a turn that reports a failure
/// makes the run a failed one.
pub proof fn lemma_failure_is_kept<D, E, T: DisplayCommand<E>>(
    command: T,
    args: Config,
    progress: Progress<T::Stage, D, E>,
    event: Event<D, E>,
)
    ensures
        goes_on(CliCommand::<D, E>::turn(&command, args, progress, event)) matches Some(next)
            ==> (next.failed <==> progress.failed || CliCommand::<D, E>::turn(
            &command,
            args,
            progress,
            event,
        ).failures.len() > 0),
{
}

/// A run ends at the end of the listing and nowhere else. It ends with an
/// error only where no display was kept; where one was kept it ends with
/// status `1` if anything has failed and with status `0` if nothing has.
pub proof fn lemma_exit<D, E, T: DisplayCommand<E>>(
    command: T,
    args: Config,
    progress: Progress<T::Stage, D, E>,
    event: Event<D, E>,
)
    requires
        CliCommand::<D, E>::awaits(&command, progress, event),
    ensures
        match CliCommand::<D, E>::turn(&command, args, progress, event).next {
            OutcomeView::Exit(result) => {
                &&& event is Exhausted
                &&& progress.phase is Listing
                &&& result is Err <==> progress.enumeration.kept == 0
                &&& result matches Ok(code) ==> code == status(progress.failed)
            },
            OutcomeView::Ask(_, _) => !(event is Exhausted),
        },
        CliCommand::<D, E>::turn(&command, args, progress, event).next is Exit ==> CliCommand::<
            D,
            E,
        >::turn(&command, args, progress, event).lines.len() == 0,
{
}

/// Nothing is printed for a display that is not kept: as long as the
/// listing brings only failures and displays that the filters do not admit,
/// no turn prints a line.
pub proof fn lemma_nothing_printed_unless_kept<D, E, T: DisplayCommand<E>>(
    command: T,
    args: Config,
    progress: Progress<T::Stage, D, E>,
    event: Event<D, E>,
)
    requires
        CliCommand::<D, E>::awaits(&command, progress, event),
        !(progress.phase is Working),
        match event {
            Event::Found(_, info) => !args.query.accepts(info),
            Event::Reply(Reply::Updated(_, info)) => !args.query.accepts(info),
            _ => true,
        },
    ensures
        CliCommand::<D, E>::turn(&command, args, progress, event).lines.len() == 0,
        CliCommand::<D, E>::turn(&command, args, progress, event).failures.len() == 0,
        CliCommand::<D, E>::retires(&command, args, progress, event) is None,
        goes_on(CliCommand::<D, E>::turn(&command, args, progress, event)) matches Some(next)
            ==> !(next.phase is Working) && next.enumeration.kept == progress.enumeration.kept
            && next.failed == progress.failed,
{
}

/// A turn that says nothing but how the run goes on.
fn silent<S, D, E>(next: Outcome<S, D, E>) -> (turn: Turn<S, D, E>)
    ensures
        turn@ == TurnView::silent(next@),
{
    Turn { lines: no_lines(), warnings: Vec::new(), failures: Vec::new(), next }
}

/// Passes on what the command said in `step` on the display `display`, and
/// puts the display into `sleep` if the command has finished with it.
fn follow<S, D, E>(
    sleep: &mut DisplaySleep<D>,
    step: Step<S, E>,
    display: D,
    enumeration: Enumeration<E>,
    failed: bool,
) -> (turn: Turn<S, D, E>)
    ensures
        turn@ == TurnView::follow(step@, display, enumeration, failed),
        final(sleep)@ == if step@.next is Finish {
            old(sleep)@.push(display)
        } else {
            old(sleep)@
        },
{
    let Step { lines, warnings, failures, next } = step;
    let failed = failed || failures.len() > 0;
    let next = match next {
        Next::Ask(request, stage) => Outcome::Ask(
            Order::Display(request),
            Progress { enumeration, failed, phase: Phase::Working(display, stage) },
        ),
        Next::Finish => {
            sleep.add(display);
            Outcome::Ask(Order::Enumerate, Progress { enumeration, failed, phase: Phase::Listing })
        },
    };
    Turn { lines, warnings, failures, next }
}

/// Takes `sighting` of the display `display` from the listing, after a
/// refresh that left `warning`, if there was one.
fn sight<D, E, T: DisplayCommand<E>>(
    command: &T,
    sleep: &mut DisplaySleep<D>,
    args: &Config,
    enumeration: Enumeration<E>,
    failed: bool,
    display: D,
    sighting: Sighting<E>,
    warning: Option<Error<E>>,
) -> (turn: Turn<T::Stage, D, E>)
    requires
        command.valid(),
        sighting is Found || sighting is Refreshed,
    ensures
        turn@ == sighted(
            *command,
            *args,
            Progress { enumeration, failed, phase: Phase::Listing },
            display,
            sighting,
        ).warned(warning),
        final(sleep)@ == match taken_up(*command, *args, enumeration, sighting) {
            Some(step) if step.next is Finish => old(sleep)@.push(display),
            _ => old(sleep)@,
        },
{
    let mut enumeration = enumeration;
    let turn = match query_displays(args, &mut enumeration, sighting) {
        Verdict::Keep(info) => {
            let step = command.begin(args, info);
            follow(sleep, step, display, enumeration, failed)
        },
        Verdict::Refresh(caps) => silent(
            Outcome::Ask(
                Order::Display(Request::UpdateFast(caps)),
                Progress { enumeration, failed, phase: Phase::Probing(display) },
            ),
        ),
        _ => silent(
            Outcome::Ask(Order::Enumerate, Progress { enumeration, failed, phase: Phase::Listing }),
        ),
    };
    match warning {
        Some(error) => {
            let Turn { lines, warnings, failures, next } = turn;
            let mut all = Vec::new();
            all.push(error);
            let mut warnings = warnings;
            all.append(&mut warnings);
            assert(all@ =~= seq![error] + turn.warnings@);
            Turn { lines, warnings: all, failures, next }
        },
        None => turn,
    }
}

} // verus!
