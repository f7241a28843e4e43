//! The command that lists the displays and says what each of them is.

use vstd::prelude::*;
use crate::command::{
    header, refresh_error, refreshed, DisplayCommand, Reply, Request, RequestView, Step, StepView,
};
use crate::display::DisplayInfo;
use crate::error::Error;
use crate::filter::Config;
use crate::text::{no_lines, push_line, texts};

verus! {

/// Lists the displays that the filters admit.
#[derive(Clone, Copy, Debug, PartialEq, Eq)]
pub struct Detect {}

/// How far the command has come on a display.
#[derive(Debug, PartialEq, Eq)]
pub enum DetectStage {
    /// The display has been asked, at little cost, what it is.
    Refreshing,
    /// What is reported of the display is settled; the display has been
    /// asked for more all the same.
    Inspecting(DisplayInfo),
}

/// The line `label` and `field`, where `field` is there; no line where it is
/// not.
pub open spec fn field_line(label: Seq<char>, field: Option<String>) -> Seq<Seq<char>> {
    match field {
        Some(text) => seq![label + text@],
        None => seq![],
    }
}

/// What is reported of a display: manufacturer, model and serial number as far
/// as they are known, and the version of the standard, which is said to be
/// unavailable where it is not known.
pub open spec fn report(info: DisplayInfo) -> Seq<Seq<char>> {
    field_line("\tManufacturer ID: "@, info.manufacturer_id) + field_line(
        "\tModel: "@,
        info.model_name,
    ) + field_line("\tSerial: "@, info.serial_number) + seq![
        "\tMCCS: "@ + match info.mccs_version {
            Some(version) => version.text(),
            None => "Unavailable"@,
        },
    ]
}

/// The request that follows the first refresh: for everything where the run
/// asks displays for all that they can do, else for the version alone.
pub open spec fn inspection(args: Config) -> RequestView {
    if args.request_caps {
        RequestView::UpdateAll
    } else {
        RequestView::UpdateVersion
    }
}

impl<E> DisplayCommand<E> for Detect {
    type Stage = DetectStage;

    open spec fn valid(&self) -> bool {
        true
    }

    /// The header is printed, and the display asked what it is.
    open spec fn opens(&self, args: Config, info: DisplayInfo) -> StepView<DetectStage, E> {
        StepView::ask(info.header(), RequestView::UpdateFast(false), DetectStage::Refreshing)
    }

    open spec fn expects(&self, stage: DetectStage, reply: Reply<E>) -> bool {
        reply is Updated
    }

    /// No failure of a display stops the command. After the first refresh the
    /// display is asked for more, and what is known of it by then is what
    /// the command prints once the answer is there. A refresh that failed is
    /// a warning, except that nothing is said where only the version was
    /// asked for.
    open spec fn proceeds(&self, args: Config, stage: DetectStage, reply: Reply<E>) -> StepView<
        DetectStage,
        E,
    > {
        match (stage, reply) {
            (DetectStage::Refreshing, Reply::Updated(result, info)) => StepView::ask(
                seq![],
                inspection(args),
                DetectStage::Inspecting(info),
            ).warned(refresh_error(result)),
            (DetectStage::Inspecting(info), Reply::Updated(result, _)) => StepView::finish(
                report(info),
            ).warned(
                if args.request_caps {
                    refresh_error(result)
                } else {
                    None
                },
            ),
            _ => StepView::finish(seq![]),
        }
    }

    open spec fn title(&self) -> Seq<char> {
        "detect"@
    }

    fn name(&self) -> (name: &'static str) {
        "detect"
    }

    fn accepts(&self, stage: &DetectStage, reply: &Reply<E>) -> (expected: bool) {
        reply.is_updated()
    }

    fn begin(&self, args: &Config, info: DisplayInfo) -> (step: Step<DetectStage, E>) {
        Step::ask(header(&info), Request::UpdateFast(false), DetectStage::Refreshing)
    }

    fn process(&self, args: &Config, stage: DetectStage, reply: Reply<E>) -> (step: Step<
        DetectStage,
        E,
    >) {
        match (stage, reply) {
            (DetectStage::Refreshing, Reply::Updated(result, info)) => {
                let request = if args.request_caps {
                    Request::UpdateAll
                } else {
                    Request::UpdateVersion
                };
                Step::ask(no_lines(), request, DetectStage::Inspecting(info)).warned(
                    refreshed(result),
                )
            },
            (DetectStage::Inspecting(info), Reply::Updated(result, _)) => {
                let warning = if args.request_caps {
                    refreshed(result)
                } else {
                    None
                };
                Step::finish(describe(&info)).warned(warning)
            },
            _ => Step::finish(no_lines()),
        }
    }
}

fn push_field(lines: &mut Vec<String>, label: &str, field: &Option<String>)
    ensures
        texts(final(lines)@) == texts(old(lines)@) + field_line(label@, *field),
{
    match field {
        Some(text) => {
            let mut line = String::from_str(label);
            line.append(text.as_str());
            push_line(lines, line);
            assert(texts(final(lines)@) =~= texts(old(lines)@) + field_line(label@, *field));
        },
        None => {
            assert(texts(final(lines)@) =~= texts(old(lines)@) + field_line(label@, *field));
        },
    }
}

/// The lines that say what a display is.
pub fn describe(info: &DisplayInfo) -> (lines: Vec<String>)
    ensures
        texts(lines@) == report(*info),
{
    let mut lines = no_lines();
    push_field(&mut lines, "\tManufacturer ID: ", &info.manufacturer_id);
    push_field(&mut lines, "\tModel: ", &info.model_name);
    push_field(&mut lines, "\tSerial: ", &info.serial_number);
    let mut line = String::from_str("\tMCCS: ");
    match &info.mccs_version {
        Some(version) => {
            let text = version.format();
            line.append(text.as_str());
        },
        None => {
            line.append("Unavailable");
        },
    }
    push_line(&mut lines, line);
    assert(texts(lines@) =~= report(*info));
    lines
}

} // verus!
