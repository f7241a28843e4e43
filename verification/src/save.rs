//! The command that has a display keep its settings.

use vstd::prelude::*;
use crate::command::{header, DisplayCommand, Reply, Request, RequestView, Step, StepView};
use crate::display::DisplayInfo;
use crate::error::Error;
use crate::filter::Config;
use crate::text::no_lines;

verus! {

/// Asks each display to keep its current settings for good.
#[derive(Clone, Copy, Debug, PartialEq, Eq)]
pub struct SaveCurrentSettings {}

/// How far the command has come on a display.
#[derive(Clone, Copy, Debug, PartialEq, Eq)]
pub enum SaveStage {
    /// The display has been asked to save; the outcome is awaited.
    Saving,
}

impl<E> DisplayCommand<E> for SaveCurrentSettings {
    type Stage = SaveStage;

    open spec fn valid(&self) -> bool {
        true
    }

    /// The header is printed, and the display asked to save.
    open spec fn opens(&self, args: Config, info: DisplayInfo) -> StepView<SaveStage, E> {
        StepView::ask(info.header(), RequestView::SaveCurrentSettings, SaveStage::Saving)
    }

    open spec fn expects(&self, stage: SaveStage, reply: Reply<E>) -> bool {
        reply is Done
    }

    /// The command has finished; it has failed if the display did not save.
    open spec fn proceeds(&self, args: Config, stage: SaveStage, reply: Reply<E>) -> StepView<
        SaveStage,
        E,
    > {
        match reply {
            Reply::Done(Err(e)) => StepView::fail(Error::Transport(e)),
            _ => StepView::finish(seq![]),
        }
    }

    open spec fn title(&self) -> Seq<char> {
        "save-current-settings"@
    }

    fn name(&self) -> (name: &'static str) {
        "save-current-settings"
    }

    fn accepts(&self, stage: &SaveStage, reply: &Reply<E>) -> (expected: bool) {
        reply.is_done()
    }

    fn begin(&self, args: &Config, info: DisplayInfo) -> (step: Step<SaveStage, E>) {
        Step::ask(header(&info), Request::SaveCurrentSettings, SaveStage::Saving)
    }

    fn process(&self, args: &Config, stage: SaveStage, reply: Reply<E>) -> (step: Step<
        SaveStage,
        E,
    >) {
        match reply {
            Reply::Done(Err(e)) => Step::fail(Error::Transport(e)),
            _ => Step::finish(no_lines()),
        }
    }
}

} // verus!
