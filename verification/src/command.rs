//! What a command and the program around it say to each other.
//!
//! A command never touches a display. It is handed what is known of a
//! display and says what is to be printed and what the display is to be
//! asked; it is then handed the answer and says the same again, until it has
//! finished with that display.

use vstd::prelude::*;
use crate::display::DisplayInfo;
use crate::error::Error;
use crate::feature::FeatureCode;
use crate::filter::Config;
use crate::text::{no_lines, texts};
use crate::value::Value;

verus! {

/// What a command asks of the display that it works on.
#[derive(Clone, Debug, PartialEq, Eq)]
pub enum Request {
    /// Ask the display, at little cost, for what it is; also for what it can
    /// do if the flag is set.
    UpdateFast(bool),
    /// Ask the display for all that it can do.
    UpdateCapabilities,
    /// Ask the display for everything that can be known of it.
    UpdateAll,
    /// Ask the display for the version of the standard that it follows.
    UpdateVersion,
    /// Read the value of a control.
    GetVcpFeature(FeatureCode),
    /// Set a control to a value.
    SetVcpFeature(FeatureCode, u16),
    /// Read the table behind a control.
    TableRead(FeatureCode),
    /// Write bytes into the table behind a control, from an offset on.
    TableWrite(FeatureCode, u16, Vec<u8>),
    /// Have the display keep its settings as they are now.
    SaveCurrentSettings,
}

/// A request as a plain value.
pub ghost enum RequestView {
    UpdateFast(bool),
    UpdateCapabilities,
    UpdateAll,
    UpdateVersion,
    GetVcpFeature(FeatureCode),
    SetVcpFeature(FeatureCode, u16),
    TableRead(FeatureCode),
    TableWrite(FeatureCode, u16, Seq<u8>),
    SaveCurrentSettings,
}

impl View for Request {
    type V = RequestView;

    open spec fn view(&self) -> RequestView {
        match *self {
            Request::UpdateFast(caps) => RequestView::UpdateFast(caps),
            Request::UpdateCapabilities => RequestView::UpdateCapabilities,
            Request::UpdateAll => RequestView::UpdateAll,
            Request::UpdateVersion => RequestView::UpdateVersion,
            Request::GetVcpFeature(code) => RequestView::GetVcpFeature(code),
            Request::SetVcpFeature(code, value) => RequestView::SetVcpFeature(code, value),
            Request::TableRead(code) => RequestView::TableRead(code),
            Request::TableWrite(code, offset, bytes) => RequestView::TableWrite(
                code,
                offset,
                bytes@,
            ),
            Request::SaveCurrentSettings => RequestView::SaveCurrentSettings,
        }
    }
}

/// What came of a request. `E` is the error of a display that failed.
#[derive(Debug, PartialEq, Eq)]
pub enum Reply<E> {
    /// The display was asked about itself: how that went, and what is known
    /// of the display now.
    Updated(Result<(), E>, DisplayInfo),
    /// The value of a control was read.
    Value(Result<Value, E>),
    /// The table behind a control was read.
    Table(Result<Vec<u8>, E>),
    /// A control was set, a table written or the settings were saved.
    Done(Result<(), E>),
}

impl<E> Reply<E> {
    /// Says whether the reply is the outcome of a refresh.
    pub fn is_updated(&self) -> (updated: bool)
        ensures
            updated == (*self is Updated),
    {
        match self {
            Reply::Updated(_, _) => true,
            _ => false,
        }
    }

    /// Says whether the reply is the outcome of the reading of a number.
    pub fn is_value(&self) -> (value: bool)
        ensures
            value == (*self is Value),
    {
        match self {
            Reply::Value(_) => true,
            _ => false,
        }
    }

    /// Says whether the reply is the outcome of the reading of a table.
    pub fn is_table(&self) -> (table: bool)
        ensures
            table == (*self is Table),
    {
        match self {
            Reply::Table(_) => true,
            _ => false,
        }
    }

    /// Says whether the reply is the outcome of a write.
    pub fn is_done(&self) -> (done: bool)
        ensures
            done == (*self is Done),
    {
        match self {
            Reply::Done(_) => true,
            _ => false,
        }
    }

    /// Whether this is the kind of reply that `request` brings.
    pub open spec fn answers(self, request: RequestView) -> bool {
        match request {
            RequestView::UpdateFast(_) => self is Updated,
            RequestView::UpdateCapabilities => self is Updated,
            RequestView::UpdateAll => self is Updated,
            RequestView::UpdateVersion => self is Updated,
            RequestView::GetVcpFeature(_) => self is Value,
            RequestView::TableRead(_) => self is Table,
            RequestView::SetVcpFeature(_, _) => self is Done,
            RequestView::TableWrite(_, _, _) => self is Done,
            RequestView::SaveCurrentSettings => self is Done,
        }
    }
}

/// How a command goes on with a display.
#[derive(Debug, PartialEq, Eq)]
pub enum Next<S> {
    /// The display is to be asked this; the command then stands at the given
    /// stage and waits for the reply.
    Ask(Request, S),
    /// The command has finished with the display.
    Finish,
}

/// [`Next`] as a plain value.
pub ghost enum NextView<S> {
    Ask(RequestView, S),
    Finish,
}

impl<S> View for Next<S> {
    type V = NextView<S>;

    open spec fn view(&self) -> NextView<S> {
        match *self {
            Next::Ask(request, stage) => NextView::Ask(request@, stage),
            Next::Finish => NextView::Finish,
        }
    }
}

/// What a command says after it has been handed a display or a reply.
#[derive(Debug, PartialEq, Eq)]
pub struct Step<S, E> {
    /// The lines to be printed, in their order.
    pub lines: Vec<String>,
    /// Failures that are to be reported and change nothing else.
    pub warnings: Vec<Error<E>>,
    /// Failures that are to be reported and make the run a failed one.
    pub failures: Vec<Error<E>>,
    /// How the command goes on.
    pub next: Next<S>,
}

/// [`Step`] as a plain value.
pub ghost struct StepView<S, E> {
    pub lines: Seq<Seq<char>>,
    pub warnings: Seq<Error<E>>,
    pub failures: Seq<Error<E>>,
    pub next: NextView<S>,
}

impl<S, E> View for Step<S, E> {
    type V = StepView<S, E>;

    open spec fn view(&self) -> StepView<S, E> {
        StepView {
            lines: texts(self.lines@),
            warnings: self.warnings@,
            failures: self.failures@,
            next: self.next@,
        }
    }
}

impl<S, E> StepView<S, E> {
    /// A step that prints `lines` and asks `request`.
    pub open spec fn ask(lines: Seq<Seq<char>>, request: RequestView, stage: S) -> Self {
        StepView { lines, warnings: seq![], failures: seq![], next: NextView::Ask(request, stage) }
    }

    /// A step that prints `lines` and finishes.
    pub open spec fn finish(lines: Seq<Seq<char>>) -> Self {
        StepView { lines, warnings: seq![], failures: seq![], next: NextView::Finish }
    }

    /// A step that reports `error` as a failure and finishes.
    pub open spec fn fail(error: Error<E>) -> Self {
        StepView { lines: seq![], warnings: seq![], failures: seq![error], next: NextView::Finish }
    }

    /// What is said in all where `lines` were printed and `failures` reported
    /// before this step was taken.
    pub open spec fn resumed(self, lines: Seq<Seq<char>>, failures: Seq<Error<E>>) -> Self {
        StepView {
            lines: lines + self.lines,
            warnings: self.warnings,
            failures: failures + self.failures,
            next: self.next,
        }
    }

    /// This step with `error`, if there is one, added to its warnings.
    pub open spec fn warned(self, error: Option<Error<E>>) -> Self {
        match error {
            Some(error) => StepView { warnings: self.warnings.push(error), ..self },
            None => self,
        }
    }
}

impl<S, E> Step<S, E> {
    /// A step that prints `lines` and asks `request`.
    pub fn ask(lines: Vec<String>, request: Request, stage: S) -> (step: Self)
        ensures
            step@ == StepView::<S, E>::ask(texts(lines@), request@, stage),
    {
        Step { lines, warnings: Vec::new(), failures: Vec::new(), next: Next::Ask(request, stage) }
    }

    /// A step that prints `lines` and finishes.
    pub fn finish(lines: Vec<String>) -> (step: Self)
        ensures
            step@ == StepView::<S, E>::finish(texts(lines@)),
    {
        Step { lines, warnings: Vec::new(), failures: Vec::new(), next: Next::Finish }
    }

    /// This step with `error`, if there is one, added to its warnings.
    pub fn warned(self, error: Option<Error<E>>) -> (step: Self)
        ensures
            step@ == self@.warned(error),
    {
        match error {
            Some(error) => {
                let mut step = self;
                step.warnings.push(error);
                step
            },
            None => self,
        }
    }

    /// A step that reports `error` as a failure and finishes.
    pub fn fail(error: Error<E>) -> (step: Self)
        ensures
            step@ == StepView::<S, E>::fail(error),
    {
        let mut failures = Vec::new();
        failures.push(error);
        assert(failures@ =~= seq![error]);
        Step { lines: no_lines(), warnings: Vec::new(), failures, next: Next::Finish }
    }
}

/// The logic of one command on one display.
///
/// The command is told of a display with [`begin`](DisplayCommand::begin) and
/// of each reply with [`process`](DisplayCommand::process). A reply is always
/// the answer to the request of the step before it: what
/// [`proceeds`](DisplayCommand::proceeds) says of a reply that
/// [`expects`](DisplayCommand::expects) rules out means nothing.
pub trait DisplayCommand<E>: Sized {
    /// How far the command has come on a display.
    type Stage;

    /// Whether the command can be carried out as it is given.
    spec fn valid(&self) -> bool;

    /// What the command says when it is handed a display.
    spec fn opens(&self, args: Config, info: DisplayInfo) -> StepView<Self::Stage, E>;

    /// Whether `reply` is of the kind that the command waits for at `stage`.
    spec fn expects(&self, stage: Self::Stage, reply: Reply<E>) -> bool;

    /// What the command says to `reply` at `stage`.
    spec fn proceeds(&self, args: Config, stage: Self::Stage, reply: Reply<E>) -> StepView<
        Self::Stage,
        E,
    >;

    /// The name of the command, as it is written on the command line.
    spec fn title(&self) -> Seq<char>;

    /// The name of the command, as it is written on the command line.
    fn name(&self) -> (name: &'static str)
        ensures
            name@ == self.title(),
    ;

    /// Says whether `reply` is of the kind that the command waits for at
    /// `stage`.
    fn accepts(&self, stage: &Self::Stage, reply: &Reply<E>) -> (expected: bool)
        ensures
            expected == self.expects(*stage, *reply),
    ;

    /// Begins the work on a display of which `info` is known.
    fn begin(&self, args: &Config, info: DisplayInfo) -> (step: Step<Self::Stage, E>)
        requires
            self.valid(),
        ensures
            step@ == self.opens(*args, info),
    ;

    /// Goes on after `reply`, the answer to what the step before asked.
    fn process(&self, args: &Config, stage: Self::Stage, reply: Reply<E>) -> (step: Step<
        Self::Stage,
        E,
    >)
        requires
            self.valid(),
            self.expects(stage, reply),
        ensures
            step@ == self.proceeds(*args, stage, reply),
    ;
}

/// What is to be reported of a refresh that went as `result` says.
pub open spec fn refresh_error<E>(result: Result<(), E>) -> Option<Error<E>> {
    match result {
        Ok(_) => None,
        Err(e) => Some(Error::Refresh(e)),
    }
}

/// What is to be reported of a refresh that went as `result` says.
pub fn refreshed<E>(result: Result<(), E>) -> (error: Option<Error<E>>)
    ensures
        error == refresh_error(result),
{
    match result {
        Ok(_) => None,
        Err(e) => Some(Error::Refresh(e)),
    }
}

/// The two lines that open the report on a display.
pub fn header(info: &DisplayInfo) -> (lines: Vec<String>)
    ensures
        texts(lines@) == info.header(),
{
    let mut first = String::from_str("Display on ");
    first.append(info.backend.name());
    first.append(":");
    let mut second = String::from_str("\tID: ");
    second.append(info.id.as_str());
    let mut lines = Vec::new();
    lines.push(first);
    lines.push(second);
    assert(texts(lines@) =~= info.header());
    lines
}

} // verus!
