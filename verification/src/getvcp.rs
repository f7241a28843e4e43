//! The command that reads controls of a display and shows their values.

use vstd::prelude::*;
use crate::command::{
    header, DisplayCommand, Next, NextView, Reply, Request, RequestView, Step, StepView,
};
use crate::display::DisplayInfo;
use crate::error::Error;
use crate::feature::{name_of, value_name, Access, Database, Descriptor, FeatureCode, ValueType};
use crate::filter::Config;
use crate::text::{hex_byte, no_lines, push_hex_byte, push_line, texts};
use crate::value::{TableInterpretation, Value, ValueInterpretation};

verus! {

/// Reads controls of each display: those that are named or, where none is,
/// those of which the display's database knows, or all of them.
#[derive(Clone, Debug, PartialEq, Eq)]
pub struct GetVCP {
    /// The codes of the controls to read, in the order in which they are
    /// read.
    pub feature_code: Vec<FeatureCode>,
    /// Whether every value is shown as the display gave it, whatever is
    /// known of its meaning.
    pub raw: bool,
    /// Whether a control of which nothing is known is read as a table.
    pub table: bool,
    /// Whether, where no control is named, all 256 codes are read.
    pub scan: bool,
}

/// How a control is read and shown.
#[derive(Clone, Copy, Debug, PartialEq, Eq)]
pub enum Reading {
    /// Not at all: the control can only be written.
    WriteOnly,
    /// As a number, shown under this interpretation.
    Value(ValueInterpretation),
    /// As a table, shown under this interpretation.
    Table(TableInterpretation),
}

/// How far the command has come on a display.
#[derive(Debug, PartialEq, Eq)]
pub enum GetStage {
    /// The display has been asked about itself. The database is the one it
    /// had before.
    Refreshing(Option<Database>),
    /// The control at the given position has been asked for. The database is
    /// the one under which the controls are read.
    Reading(Option<Database>, usize),
}

/// The descriptor that `database` has for `code`; none where there is no
/// database.
pub open spec fn find(database: Option<Database>, code: FeatureCode) -> Option<Descriptor> {
    match database {
        Some(database) => database.lookup(code),
        None => None,
    }
}

/// The descriptor behind a reference to it.
pub open spec fn owned(feature: Option<&Descriptor>) -> Option<Descriptor> {
    match feature {
        Some(feature) => Some(*feature),
        None => None,
    }
}

/// The name that a descriptor of a non-continuous control gives to the low
/// byte of `value`.
pub open spec fn label(feature: Option<Descriptor>, value: Value) -> Option<String> {
    match feature {
        Some(Descriptor { ty: ValueType::NonContinuous { values, .. }, .. }) => name_of(
            values@,
            value.sl,
        ),
        _ => None,
    }
}

/// The line that says that a control can only be written.
pub open spec fn notice(code: FeatureCode) -> Seq<char> {
    "\tFeature 0x"@ + hex_byte(code) + " is write-only"@
}

/// The line that shows the number read from a control: the code, the number
/// under `interpretation` and, where the descriptor names the value, its
/// name.
pub open spec fn value_line(
    code: FeatureCode,
    feature: Option<Descriptor>,
    interpretation: ValueInterpretation,
    value: Value,
) -> Seq<char> {
    "\tFeature 0x"@ + hex_byte(code) + " = "@ + interpretation.text(value) + match label(
        feature,
        value,
    ) {
        Some(name) => ": "@ + name@,
        None => Seq::<char>::empty(),
    }
}

/// The line that shows the table read from a control, or `None` where the
/// bytes are not what `interpretation` asks for.
pub open spec fn table_line(
    code: FeatureCode,
    interpretation: TableInterpretation,
    table: Seq<u8>,
) -> Option<Seq<char>> {
    match interpretation.text(table) {
        Some(text) => Some("\tFeature 0x"@ + hex_byte(code) + " = "@ + text),
        None => None,
    }
}

impl GetVCP {
    /// Whether the controls to read are named.
    pub open spec fn explicit(self) -> bool {
        self.feature_code@.len() > 0
    }

    /// How many positions the command goes through: one for each control
    /// that is named or, where none is, one for each of the 256 codes.
    pub open spec fn limit(self) -> int {
        if self.explicit() {
            self.feature_code@.len() as int
        } else {
            256
        }
    }

    /// The code at a position: the control named there or, where none is
    /// named, the position itself.
    pub open spec fn code_at(self, position: int) -> FeatureCode {
        if self.explicit() {
            self.feature_code@[position]
        } else {
            position as u8
        }
    }

    /// Whether the code at a position is read at all. Where no control is
    /// named and not all are asked for, only those are read of which the
    /// database knows.
    pub open spec fn selected(self, database: Option<Database>, position: int) -> bool {
        self.explicit() || self.scan || find(database, self.code_at(position)) is Some
    }

    /// How a control with the descriptor `feature` is read and shown.
    ///
    /// A control that can only be written is not read, whatever its kind. A
    /// control without a descriptor is read as a table if that was asked
    /// for, and as a number otherwise, and shown as it comes. A control of
    /// unknown kind is read as a number and shown as it comes. Every other
    /// control is read as its kind says, and shown under the descriptor's
    /// interpretation, or as it comes where raw values were asked for.
    pub open spec fn reading(self, feature: Option<Descriptor>) -> Reading {
        match feature {
            None => if self.table {
                Reading::Table(TableInterpretation::Generic)
            } else {
                Reading::Value(ValueInterpretation::Continuous)
            },
            Some(feature) => if feature.access == Access::WriteOnly {
                Reading::WriteOnly
            } else {
                match feature.ty {
                    ValueType::Unknown => Reading::Value(ValueInterpretation::Continuous),
                    ValueType::Continuous { interpretation } => Reading::Value(
                        if self.raw {
                            ValueInterpretation::Continuous
                        } else {
                            interpretation
                        },
                    ),
                    ValueType::NonContinuous { interpretation, .. } => Reading::Value(
                        if self.raw {
                            ValueInterpretation::Continuous
                        } else {
                            interpretation
                        },
                    ),
                    ValueType::Table { interpretation } => Reading::Table(
                        if self.raw {
                            TableInterpretation::Generic
                        } else {
                            interpretation
                        },
                    ),
                }
            },
        }
    }

    /// What the command says when it comes to `position`: it passes over the
    /// codes that are not read, prints the notice for each control that can
    /// only be written, and asks for the first control that can be read, or
    /// finishes if there is none left.
    pub open spec fn advance<E>(self, database: Option<Database>, position: int) -> StepView<
        GetStage,
        E,
    >
        decreases self.limit() - position,
    {
        if position < 0 || position >= self.limit() {
            StepView::finish(seq![])
        } else if !self.selected(database, position) {
            self.advance(database, position + 1)
        } else {
            let code = self.code_at(position);
            match self.reading(find(database, code)) {
                Reading::WriteOnly => self.advance::<E>(database, position + 1).resumed(
                    seq![notice(code)],
                    seq![],
                ),
                Reading::Value(_) => StepView::ask(
                    seq![],
                    RequestView::GetVcpFeature(code),
                    GetStage::Reading(database, position as usize),
                ),
                Reading::Table(_) => StepView::ask(
                    seq![],
                    RequestView::TableRead(code),
                    GetStage::Reading(database, position as usize),
                ),
            }
        }
    }

    /// What comes of the reply to the reading of `code`: the line that shows
    /// what was read, or the failure.
    pub open spec fn outcome<E>(self, code: FeatureCode, feature: Option<Descriptor>, reply: Reply<E>)
        -> Result<Seq<char>, Error<E>> {
        match (self.reading(feature), reply) {
            (_, Reply::Value(Err(e))) => Err(Error::Transport(e)),
            (_, Reply::Table(Err(e))) => Err(Error::Transport(e)),
            (Reading::Value(interpretation), Reply::Value(Ok(value))) => Ok(
                value_line(code, feature, interpretation, value),
            ),
            (Reading::Table(interpretation), Reply::Table(Ok(table))) => match table_line(
                code,
                interpretation,
                table@,
            ) {
                Some(line) => Ok(line),
                None => Err(Error::Interpretation),
            },
            _ => Err(Error::Interpretation),
        }
    }

    /// Says how a control with the descriptor `feature` is read and shown.
    pub fn get_code(&self, feature: Option<&Descriptor>) -> (reading: Reading)
        ensures
            reading == self.reading(owned(feature)),
            feature matches Some(feature) && feature.access == Access::WriteOnly ==> reading
                == Reading::WriteOnly,
            self.raw ==> reading == Reading::WriteOnly || reading == Reading::Value(
                ValueInterpretation::Continuous,
            ) || reading == Reading::Table(TableInterpretation::Generic),
    {
        match feature {
            None => if self.table {
                Reading::Table(TableInterpretation::Generic)
            } else {
                Reading::Value(ValueInterpretation::Continuous)
            },
            Some(feature) => if feature.access == Access::WriteOnly {
                Reading::WriteOnly
            } else {
                match &feature.ty {
                    ValueType::Unknown => Reading::Value(ValueInterpretation::Continuous),
                    ValueType::Continuous { interpretation } => Reading::Value(
                        if self.raw {
                            ValueInterpretation::Continuous
                        } else {
                            *interpretation
                        },
                    ),
                    ValueType::NonContinuous { interpretation, .. } => Reading::Value(
                        if self.raw {
                            ValueInterpretation::Continuous
                        } else {
                            *interpretation
                        },
                    ),
                    ValueType::Table { interpretation } => Reading::Table(
                        if self.raw {
                            TableInterpretation::Generic
                        } else {
                            *interpretation
                        },
                    ),
                }
            },
        }
    }
    /// The line that says that the control `code` can only be written.
    pub fn write_only(code: FeatureCode) -> (line: String)
        ensures
            line@ == notice(code),
    {
        let mut line = String::from_str("\tFeature 0x");
        push_hex_byte(&mut line, code);
        line.append(" is write-only");
        line
    }

    /// The line that shows the number read from the control `code`.
    pub fn show_value(
        code: FeatureCode,
        feature: Option<&Descriptor>,
        interpretation: ValueInterpretation,
        value: &Value,
    ) -> (line: String)
        ensures
            line@ == value_line(code, owned(feature), interpretation, *value),
    {
        let mut line = String::from_str("\tFeature 0x");
        push_hex_byte(&mut line, code);
        line.append(" = ");
        let text = interpretation.format(value);
        line.append(text.as_str());
        let name = match feature {
            Some(feature) => match &feature.ty {
                ValueType::NonContinuous { values, .. } => value_name(values, value.sl),
                _ => None,
            },
            None => None,
        };
        match name {
            Some(name) => {
                line.append(": ");
                line.append(name.as_str());
            },
            None => {},
        }
        assert(line@ =~= value_line(code, owned(feature), interpretation, *value));
        line
    }

    /// The line that shows the table read from the control `code`. It fails
    /// where the bytes are not what the interpretation asks for.
    pub fn show_table(code: FeatureCode, interpretation: TableInterpretation, table: &Vec<u8>) -> (line:
        Result<String, ()>)
        ensures
            match line {
                Ok(line) => table_line(code, interpretation, table@) == Some(line@),
                Err(_) => table_line(code, interpretation, table@) is None,
            },
    {
        match interpretation.format(table.as_slice()) {
            Ok(text) => {
                let mut line = String::from_str("\tFeature 0x");
                push_hex_byte(&mut line, code);
                line.append(" = ");
                line.append(text.as_str());
                Ok(line)
            },
            Err(_) => Err(()),
        }
    }

    /// The code at a position.
    fn code(&self, position: usize) -> (code: FeatureCode)
        requires
            position < self.limit(),
        ensures
            code == self.code_at(position as int),
    {
        if self.feature_code.len() > 0 {
            self.feature_code[position]
        } else {
            position as u8
        }
    }

    /// How many positions the command goes through.
    fn positions(&self) -> (limit: usize)
        ensures
            limit == self.limit(),
    {
        if self.feature_code.len() > 0 {
            self.feature_code.len()
        } else {
            256
        }
    }

    /// Goes on from `position`, after `lines` were printed and `failures`
    /// reported.
    fn resume<E>(
        &self,
        lines: Vec<String>,
        failures: Vec<Error<E>>,
        database: Option<Database>,
        position: usize,
    ) -> (step: Step<GetStage, E>)
        requires
            position <= self.limit(),
        ensures
            step@ == self.advance::<E>(database, position as int).resumed(
                texts(lines@),
                failures@,
            ),
    {
        let ghost goal = self.advance::<E>(database, position as int).resumed(
            texts(lines@),
            failures@,
        );
        let limit = self.positions();
        let mut printed = lines;
        let mut at = position;
        while at < limit
            invariant
                at <= limit,
                limit == self.limit(),
                goal == self.advance::<E>(database, position as int).resumed(
                    texts(lines@),
                    failures@,
                ),
                self.advance::<E>(database, at as int).resumed(texts(printed@), failures@) == goal,
            decreases limit - at,
        {
            let code = self.code(at);
            let feature = lookup(&database, code);
            let ghost rest = self.advance::<E>(database, at + 1);
            if self.feature_code.len() > 0 || self.scan || feature.is_some() {
                match self.get_code(feature) {
                    Reading::WriteOnly => {
                        let line = Self::write_only(code);
                        proof {
                            let now = rest.resumed(seq![notice(code)], seq![]);
                            assert(now.resumed(texts(printed@), failures@).lines =~= rest.resumed(
                                texts(printed@).push(line@),
                                failures@,
                            ).lines);
                            assert(now.resumed(texts(printed@), failures@).failures
                                =~= rest.resumed(texts(printed@).push(line@), failures@).failures);
                        }
                        push_line(&mut printed, line);
                    },
                    Reading::Value(_) => {
                        let step = Step {
                            lines: printed,
                            warnings: Vec::new(),
                            failures,
                            next: Next::Ask(
                                Request::GetVcpFeature(code),
                                GetStage::Reading(database, at),
                            ),
                        };
                        assert(step@.lines =~= goal.lines);
                        assert(step@.failures =~= goal.failures);
                        assert(step@.warnings =~= goal.warnings);
                        return step;
                    },
                    Reading::Table(_) => {
                        let step = Step {
                            lines: printed,
                            warnings: Vec::new(),
                            failures,
                            next: Next::Ask(
                                Request::TableRead(code),
                                GetStage::Reading(database, at),
                            ),
                        };
                        assert(step@.lines =~= goal.lines);
                        assert(step@.failures =~= goal.failures);
                        assert(step@.warnings =~= goal.warnings);
                        return step;
                    },
                }
            }
            at += 1;
        }
        let step = Step { lines: printed, warnings: Vec::new(), failures, next: Next::Finish };
        assert(step@.lines =~= goal.lines);
        assert(step@.failures =~= goal.failures);
        assert(step@.warnings =~= goal.warnings);
        step
    }
}

/// The database under which controls are read after a refresh: the one that
/// the display has now or, where it has none, the one that it had before.
pub open spec fn latest(now: Option<Database>, before: Option<Database>) -> Option<Database> {
    if now is Some {
        now
    } else {
        before
    }
}

impl<E> DisplayCommand<E> for GetVCP {
    type Stage = GetStage;

    open spec fn valid(&self) -> bool {
        true
    }

    /// The header is printed. Where controls are named, the display is
    /// first asked, at little cost, what it is. Where none is named and not
    /// all codes are to be read, it is asked for all that it can do. Where
    /// all codes are to be read, the reading begins at once.
    open spec fn opens(&self, args: Config, info: DisplayInfo) -> StepView<GetStage, E> {
        if self.explicit() {
            StepView::ask(
                info.header(),
                RequestView::UpdateFast(args.request_caps),
                GetStage::Refreshing(info.mccs_database),
            )
        } else if !self.scan {
            StepView::ask(
                info.header(),
                RequestView::UpdateCapabilities,
                GetStage::Refreshing(info.mccs_database),
            )
        } else {
            self.advance::<E>(info.mccs_database, 0).resumed(info.header(), seq![])
        }
    }

    /// After a refresh its outcome is awaited; after the reading of a
    /// control a number or a table, as the control is read.
    open spec fn expects(&self, stage: GetStage, reply: Reply<E>) -> bool {
        match stage {
            GetStage::Refreshing(_) => reply is Updated,
            GetStage::Reading(database, position) => position < self.limit() && match self.reading(
                find(database, self.code_at(position as int)),
            ) {
                Reading::WriteOnly => false,
                Reading::Value(_) => reply is Value,
                Reading::Table(_) => reply is Table,
            },
        }
    }

    /// A refresh that failed ends the command with a failure where the
    /// controls to read were to be learnt from it, and is passed over in
    /// silence where they are named. Then the controls are read one by one.
    /// A control that could not be read, or whose table could not be shown,
    /// is a failure that is reported, and the reading goes on with the next.
    open spec fn proceeds(&self, args: Config, stage: GetStage, reply: Reply<E>) -> StepView<
        GetStage,
        E,
    > {
        match (stage, reply) {
            (GetStage::Refreshing(before), Reply::Updated(result, info)) => match result {
                Err(e) if !self.explicit() => StepView::fail(Error::Refresh(e)),
                _ => self.advance(latest(info.mccs_database, before), 0),
            },
            (GetStage::Reading(database, position), reply) => {
                let code = self.code_at(position as int);
                let rest = self.advance::<E>(database, position + 1);
                match self.outcome(code, find(database, code), reply) {
                    Ok(line) => rest.resumed(seq![line], seq![]),
                    Err(error) => rest.resumed(seq![], seq![error]),
                }
            },
            _ => StepView::finish(seq![]),
        }
    }

    open spec fn title(&self) -> Seq<char> {
        "get-vcp"@
    }

    fn name(&self) -> (name: &'static str) {
        "get-vcp"
    }

    fn accepts(&self, stage: &GetStage, reply: &Reply<E>) -> (expected: bool) {
        match stage {
            GetStage::Refreshing(_) => reply.is_updated(),
            GetStage::Reading(database, position) => {
                if *position < self.positions() {
                    let code = self.code(*position);
                    match self.get_code(lookup(database, code)) {
                        Reading::WriteOnly => false,
                        Reading::Value(_) => reply.is_value(),
                        Reading::Table(_) => reply.is_table(),
                    }
                } else {
                    false
                }
            },
        }
    }

    fn begin(&self, args: &Config, info: DisplayInfo) -> (step: Step<GetStage, E>) {
        let lines = header(&info);
        if self.feature_code.len() > 0 {
            Step::ask(
                lines,
                Request::UpdateFast(args.request_caps),
                GetStage::Refreshing(info.mccs_database),
            )
        } else if !self.scan {
            Step::ask(lines, Request::UpdateCapabilities, GetStage::Refreshing(info.mccs_database))
        } else {
            self.resume(lines, Vec::new(), info.mccs_database, 0)
        }
    }

    fn process(&self, args: &Config, stage: GetStage, reply: Reply<E>) -> (step: Step<GetStage, E>) {
        match (stage, reply) {
            (GetStage::Refreshing(before), Reply::Updated(result, info)) => {
                if self.feature_code.len() == 0 {
                    if let Err(e) = result {
                        return Step::fail(Error::Refresh(e));
                    }
                }
                let database = if info.mccs_database.is_some() {
                    info.mccs_database
                } else {
                    before
                };
                let step = self.resume(no_lines(), Vec::new(), database, 0);
                assert(step@.lines =~= self.advance::<E>(database, 0).lines);
                assert(step@.failures =~= self.advance::<E>(database, 0).failures);
                step
            },
            (GetStage::Reading(database, position), reply) => {
                let limit = self.positions();
                assert(position < limit);
                let code = self.code(position);
                let shown = self.show(code, lookup(&database, code), reply);
                let mut lines = no_lines();
                let mut failures = Vec::new();
                match shown {
                    Ok(line) => {
                        push_line(&mut lines, line);
                        assert(texts(lines@) =~= seq![line@]);
                    },
                    Err(error) => {
                        failures.push(error);
                        assert(failures@ =~= seq![error]);
                    },
                }
                self.resume(lines, failures, database, position + 1)
            },
            _ => Step::finish(no_lines()),
        }
    }
}

impl GetVCP {
    /// Shows what came of the reading of the control `code`.
    fn show<E>(&self, code: FeatureCode, feature: Option<&Descriptor>, reply: Reply<E>) -> (shown:
        Result<String, Error<E>>)
        ensures
            match shown {
                Ok(line) => self.outcome(code, owned(feature), reply) == Ok::<
                    Seq<char>,
                    Error<E>,
                >(line@),
                Err(error) => self.outcome(code, owned(feature), reply) == Err::<
                    Seq<char>,
                    Error<E>,
                >(error),
            },
    {
        match (self.get_code(feature), reply) {
            (_, Reply::Value(Err(e))) => Err(Error::Transport(e)),
            (_, Reply::Table(Err(e))) => Err(Error::Transport(e)),
            (Reading::Value(interpretation), Reply::Value(Ok(value))) => Ok(
                Self::show_value(code, feature, interpretation, &value),
            ),
            (Reading::Table(interpretation), Reply::Table(Ok(table))) => match Self::show_table(
                code,
                interpretation,
                &table,
            ) {
                Ok(line) => Ok(line),
                Err(_) => Err(Error::Interpretation),
            },
            _ => Err(Error::Interpretation),
        }
    }
}

/// A control that can only be written is never read: whatever the command
/// asks for at or after `position`, it asks of a control that can be read,
/// and it asks for a number or a table as that control is to be read.
pub proof fn lemma_write_only_is_never_read<E>(
    command: GetVCP,
    database: Option<Database>,
    position: int,
)
    requires
        0 <= position,
    ensures
        match command.advance::<E>(database, position).next {
            NextView::Ask(request, stage) => {
                &&& stage matches GetStage::Reading(under, at)
                &&& under == database
                &&& position <= at < command.limit()
                &&& match command.reading(find(database, command.code_at(at as int))) {
                    Reading::WriteOnly => false,
                    Reading::Value(_) => request == RequestView::GetVcpFeature(
                        command.code_at(at as int),
                    ),
                    Reading::Table(_) => request == RequestView::TableRead(
                        command.code_at(at as int),
                    ),
                }
            },
            NextView::Finish => true,
        },
        command.advance::<E>(database, position).failures.len() == 0,
        command.advance::<E>(database, position).warnings.len() == 0,
    decreases command.limit() - position,
{
    assert(command.feature_code.len() == command.feature_code@.len());
    if position < command.limit() {
        lemma_write_only_is_never_read::<E>(command, database, position + 1);
    }
}

/// Where raw values are asked for, every control that is read is shown as
/// it comes: a number beside its maximum, a table as its bytes, whatever
/// interpretation its descriptor declares.
pub proof fn lemma_raw_overrides(command: GetVCP, feature: Option<Descriptor>)
    requires
        command.raw,
    ensures
        match command.reading(feature) {
            Reading::WriteOnly => feature matches Some(feature) && feature.access
                == Access::WriteOnly,
            Reading::Value(interpretation) => interpretation == ValueInterpretation::Continuous,
            Reading::Table(interpretation) => interpretation == TableInterpretation::Generic,
        },
{
}

/// The descriptor that `database` has for `code`.
pub fn lookup(database: &Option<Database>, code: FeatureCode) -> (feature: Option<&Descriptor>)
    ensures
        owned(feature) == find(*database, code),
{
    match database {
        Some(database) => database.get(code),
        None => None,
    }
}

} // verus!
