//! The command that says what the controls of a display are.

use vstd::prelude::*;
use crate::command::{header, DisplayCommand, Reply, Request, RequestView, Step, StepView};
use crate::display::DisplayInfo;
use crate::error::Error;
use crate::feature::{Database, Descriptor, FeatureCode, ValueName, ValueType};
use crate::filter::Config;
use crate::text::{hex_byte, join, no_lines, push_hex_byte, push_line, texts};

verus! {

/// Reports the controls that each display has.
#[derive(Clone, Copy, Debug, PartialEq, Eq)]
pub struct Capabilities {}

/// How far the command has come on a display.
#[derive(Clone, Copy, Debug, PartialEq, Eq)]
pub enum CapabilitiesStage {
    /// The display has been asked what it can do.
    Refreshing,
}

/// A name, or `Unknown` where there is none.
pub open spec fn name_or_unknown(name: Option<String>) -> Seq<char> {
    match name {
        Some(name) => name@,
        None => "Unknown"@,
    }
}

/// One line for each code in `codes`: the code as two hexadecimal digits.
pub open spec fn interaction_lines(codes: Seq<FeatureCode>) -> Seq<Seq<char>> {
    Seq::new(codes.len(), |i: int| "\t\t\t"@ + hex_byte(codes[i]))
}

/// One line for each of `values`: the value, and its name or `Unknown`.
pub open spec fn value_lines(values: Seq<ValueName>) -> Seq<Seq<char>> {
    Seq::new(
        values.len(),
        |i: int| "\t\t\t0x"@ + hex_byte(values[i].0) + ": "@ + name_or_unknown(values[i].1),
    )
}

/// The line that names the kind of value; none where the kind is unknown.
pub open spec fn type_line(ty: ValueType) -> Seq<Seq<char>> {
    match ty {
        ValueType::Unknown => seq![],
        ValueType::Continuous { .. } => seq!["\t\tType: Continuous"@],
        ValueType::NonContinuous { .. } => seq!["\t\tType: Non-Continuous"@],
        ValueType::Table { .. } => seq!["\t\tType: Table"@],
    }
}

/// The two lines that every control has: its code and name, and its access.
pub open spec fn head_lines(feature: Descriptor) -> Seq<Seq<char>> {
    seq![
        "\tFeature 0x"@ + hex_byte(feature.code) + ": "@ + name_or_unknown(feature.name),
        "\t\tAccess: "@ + feature.access.text(),
    ]
}

/// The lines on a control's standing: that it is required, if it is, and its
/// group, if it has one.
pub open spec fn standing_lines(feature: Descriptor) -> Seq<Seq<char>> {
    (if feature.mandatory {
        seq!["\t\tRequired"@]
    } else {
        seq![]
    }) + (match feature.group {
        Some(group) => seq!["\t\tGroup: "@ + group@],
        None => seq![],
    })
}

/// The controls that a control interacts with, under a line that announces
/// them; nothing where there are none.
pub open spec fn interacts_lines(feature: Descriptor) -> Seq<Seq<char>> {
    if feature.interacts_with@.len() > 0 {
        seq!["\t\tInteracts:"@] + interaction_lines(feature.interacts_with@)
    } else {
        seq![]
    }
}

/// The description of a control, if it has one.
pub open spec fn description_lines(feature: Descriptor) -> Seq<Seq<char>> {
    match feature.description {
        Some(description) => seq!["\t\t"@ + description@],
        None => seq![],
    }
}

/// The values of a non-continuous control, in the order of the descriptor;
/// nothing for a control of another kind.
pub open spec fn choice_lines(feature: Descriptor) -> Seq<Seq<char>> {
    match feature.ty {
        ValueType::NonContinuous { values, .. } => value_lines(values@),
        _ => seq![],
    }
}

/// What is reported of one control: code and name, access, whether it is
/// required, its group, the controls it interacts with, the kind of value,
/// the description and, for a non-continuous control, its values.
pub open spec fn feature_lines(feature: Descriptor) -> Seq<Seq<char>> {
    head_lines(feature) + standing_lines(feature) + interacts_lines(feature) + type_line(
        feature.ty,
    ) + description_lines(feature) + choice_lines(feature)
}

/// What is reported of the controls with a code below `end`, in the order of
/// their codes.
pub open spec fn report_below(database: Database, end: int) -> Seq<Seq<char>>
    decreases end,
{
    if end <= 0 {
        seq![]
    } else {
        report_below(database, end - 1) + match database.lookup((end - 1) as u8) {
            Some(feature) => feature_lines(feature),
            None => seq![],
        }
    }
}

/// What is reported of a display's controls: every control that has a
/// descriptor, in the order of the codes from 0 to 255.
pub open spec fn report(database: Database) -> Seq<Seq<char>> {
    report_below(database, 256)
}

impl<E> DisplayCommand<E> for Capabilities {
    type Stage = CapabilitiesStage;

    open spec fn valid(&self) -> bool {
        true
    }

    /// The header is printed, and the display asked what it can do.
    open spec fn opens(&self, args: Config, info: DisplayInfo) -> StepView<CapabilitiesStage, E> {
        StepView::ask(info.header(), RequestView::UpdateFast(true), CapabilitiesStage::Refreshing)
    }

    open spec fn expects(&self, stage: CapabilitiesStage, reply: Reply<E>) -> bool {
        reply is Updated
    }

    /// A display that could not be asked is a failure, and nothing is
    /// reported of its controls. Otherwise the controls are reported as the
    /// display's database has them now; a display without a database has
    /// none.
    open spec fn proceeds(&self, args: Config, stage: CapabilitiesStage, reply: Reply<E>) -> StepView<
        CapabilitiesStage,
        E,
    > {
        match reply {
            Reply::Updated(Err(e), _) => StepView::fail(Error::Refresh(e)),
            Reply::Updated(Ok(_), info) => StepView::finish(
                match info.mccs_database {
                    Some(database) => report(database),
                    None => seq![],
                },
            ),
            _ => StepView::finish(seq![]),
        }
    }

    open spec fn title(&self) -> Seq<char> {
        "capabilities"@
    }

    fn name(&self) -> (name: &'static str) {
        "capabilities"
    }

    fn accepts(&self, stage: &CapabilitiesStage, reply: &Reply<E>) -> (expected: bool) {
        reply.is_updated()
    }

    fn begin(&self, args: &Config, info: DisplayInfo) -> (step: Step<CapabilitiesStage, E>) {
        Step::ask(header(&info), Request::UpdateFast(true), CapabilitiesStage::Refreshing)
    }

    fn process(&self, args: &Config, stage: CapabilitiesStage, reply: Reply<E>) -> (step: Step<
        CapabilitiesStage,
        E,
    >) {
        match reply {
            Reply::Updated(Err(e), _) => Step::fail(Error::Refresh(e)),
            Reply::Updated(Ok(_), info) => match &info.mccs_database {
                Some(database) => Step::finish(describe(database)),
                None => Step::finish(no_lines()),
            },
            _ => Step::finish(no_lines()),
        }
    }
}

fn push_name(line: &mut String, name: &Option<String>)
    ensures
        final(line)@ == old(line)@ + name_or_unknown(*name),
{
    match name {
        Some(name) => line.append(name.as_str()),
        None => line.append("Unknown"),
    }
}

fn push_interactions(lines: &mut Vec<String>, codes: &Vec<FeatureCode>)
    ensures
        texts(final(lines)@) == texts(old(lines)@) + interaction_lines(codes@),
{
    let mut i: usize = 0;
    while i < codes.len()
        invariant
            i <= codes@.len(),
            texts(lines@) == texts(old(lines)@) + interaction_lines(codes@).take(i as int),
        decreases codes@.len() - i,
    {
        let mut line = String::from_str("\t\t\t");
        push_hex_byte(&mut line, codes[i]);
        let ghost before = texts(lines@);
        push_line(lines, line);
        assert(texts(lines@) =~= texts(old(lines)@) + interaction_lines(codes@).take(i + 1)) by {
            assert(interaction_lines(codes@).take(i + 1) =~= interaction_lines(codes@).take(
                i as int,
            ).push(line@));
        }
        i += 1;
    }
    assert(interaction_lines(codes@).take(i as int) =~= interaction_lines(codes@));
}

fn push_values(lines: &mut Vec<String>, values: &Vec<ValueName>)
    ensures
        texts(final(lines)@) == texts(old(lines)@) + value_lines(values@),
{
    let mut i: usize = 0;
    while i < values.len()
        invariant
            i <= values@.len(),
            texts(lines@) == texts(old(lines)@) + value_lines(values@).take(i as int),
        decreases values@.len() - i,
    {
        let mut line = String::from_str("\t\t\t0x");
        push_hex_byte(&mut line, values[i].0);
        line.append(": ");
        push_name(&mut line, &values[i].1);
        push_line(lines, line);
        assert(texts(lines@) =~= texts(old(lines)@) + value_lines(values@).take(i + 1)) by {
            assert(value_lines(values@).take(i + 1) =~= value_lines(values@).take(i as int).push(
                line@,
            ));
        }
        i += 1;
    }
    assert(value_lines(values@).take(i as int) =~= value_lines(values@));
}

fn push_head(lines: &mut Vec<String>, feature: &Descriptor)
    ensures
        texts(final(lines)@) == texts(old(lines)@) + head_lines(*feature),
{
    let mut line = String::from_str("\tFeature 0x");
    push_hex_byte(&mut line, feature.code);
    line.append(": ");
    push_name(&mut line, &feature.name);
    push_line(lines, line);
    push_line(lines, join("\t\tAccess: ", feature.access.name()));
    assert(texts(lines@) =~= texts(old(lines)@) + head_lines(*feature));
}

fn push_standing(lines: &mut Vec<String>, feature: &Descriptor)
    ensures
        texts(final(lines)@) == texts(old(lines)@) + standing_lines(*feature),
{
    if feature.mandatory {
        push_line(lines, String::from_str("\t\tRequired"));
    }
    if let Some(group) = &feature.group {
        push_line(lines, join("\t\tGroup: ", group.as_str()));
    }
    assert(texts(lines@) =~= texts(old(lines)@) + standing_lines(*feature));
}

fn push_interacts(lines: &mut Vec<String>, feature: &Descriptor)
    ensures
        texts(final(lines)@) == texts(old(lines)@) + interacts_lines(*feature),
{
    if feature.interacts_with.len() > 0 {
        push_line(lines, String::from_str("\t\tInteracts:"));
        push_interactions(lines, &feature.interacts_with);
    }
    assert(texts(lines@) =~= texts(old(lines)@) + interacts_lines(*feature));
}

fn push_type(lines: &mut Vec<String>, ty: &ValueType)
    ensures
        texts(final(lines)@) == texts(old(lines)@) + type_line(*ty),
{
    match ty {
        ValueType::Unknown => {},
        ValueType::Continuous { .. } => push_line(lines, String::from_str("\t\tType: Continuous")),
        ValueType::NonContinuous { .. } => push_line(
            lines,
            String::from_str("\t\tType: Non-Continuous"),
        ),
        ValueType::Table { .. } => push_line(lines, String::from_str("\t\tType: Table")),
    }
    assert(texts(lines@) =~= texts(old(lines)@) + type_line(*ty));
}

fn push_description(lines: &mut Vec<String>, feature: &Descriptor)
    ensures
        texts(final(lines)@) == texts(old(lines)@) + description_lines(*feature),
{
    if let Some(description) = &feature.description {
        push_line(lines, join("\t\t", description.as_str()));
    }
    assert(texts(lines@) =~= texts(old(lines)@) + description_lines(*feature));
}

fn push_choices(lines: &mut Vec<String>, feature: &Descriptor)
    ensures
        texts(final(lines)@) == texts(old(lines)@) + choice_lines(*feature),
{
    if let ValueType::NonContinuous { values, .. } = &feature.ty {
        push_values(lines, values);
    }
    assert(texts(lines@) =~= texts(old(lines)@) + choice_lines(*feature));
}

/// Adds what is reported of one control to a report.
pub fn push_feature(lines: &mut Vec<String>, feature: &Descriptor)
    ensures
        texts(final(lines)@) == texts(old(lines)@) + feature_lines(*feature),
{
    push_head(lines, feature);
    push_standing(lines, feature);
    push_interacts(lines, feature);
    push_type(lines, &feature.ty);
    push_description(lines, feature);
    push_choices(lines, feature);
    assert(texts(lines@) =~= texts(old(lines)@) + feature_lines(*feature));
}

/// The lines that say what the controls of a display are.
pub fn describe(database: &Database) -> (lines: Vec<String>)
    ensures
        texts(lines@) == report(*database),
{
    let mut lines = no_lines();
    let mut code: usize = 0;
    while code < 256
        invariant
            code <= 256,
            texts(lines@) == report_below(*database, code as int),
        decreases 256 - code,
    {
        if let Some(feature) = database.get(code as u8) {
            push_feature(&mut lines, feature);
        }
        code += 1;
    }
    lines
}

} // verus!
