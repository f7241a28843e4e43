//! The command that sets a control of a display.

use vstd::prelude::*;
use vstd::slice::slice_to_vec;
use crate::command::{header, DisplayCommand, Reply, Request, RequestView, Step, StepView};
use crate::display::DisplayInfo;
use crate::error::Error;
use crate::feature::FeatureCode;
use crate::filter::Config;
use crate::text::no_lines;

verus! {

/// Sets one control of each display, to a number or to the bytes of a table,
/// and reads it back if that is asked for.
#[derive(Clone, Debug, PartialEq, Eq)]
pub struct SetVCP {
    /// The code of the control.
    pub feature_code: FeatureCode,
    /// The number to set.
    pub value: Option<u16>,
    /// Whether what was written is read back and compared.
    pub verify: bool,
    /// The bytes to write into the table.
    pub table: Option<Vec<u8>>,
    /// Where in the table the bytes go; the beginning if nothing is given.
    pub offset: Option<u16>,
}

/// How far the command has come on a display.
#[derive(Clone, Copy, Debug, PartialEq, Eq)]
pub enum SetStage {
    /// The write has been asked for.
    Writing,
    /// The write is done; what was written is being read back.
    Verifying,
}

impl SetVCP {
    /// Whether exactly one of a number and a table is given.
    pub open spec fn wf(self) -> bool {
        self.value is Some != self.table is Some
    }

    /// The request that writes what the command is given.
    pub open spec fn write_request(self) -> RequestView {
        match (self.value, self.table) {
            (Some(value), _) => RequestView::SetVcpFeature(self.feature_code, value),
            (None, Some(table)) => RequestView::TableWrite(
                self.feature_code,
                match self.offset {
                    Some(offset) => offset,
                    None => 0,
                },
                table@,
            ),
            (None, None) => RequestView::SetVcpFeature(self.feature_code, 0),
        }
    }

    /// The request that reads back what was written.
    pub open spec fn read_request(self) -> RequestView {
        if self.value is Some {
            RequestView::GetVcpFeature(self.feature_code)
        } else {
            RequestView::TableRead(self.feature_code)
        }
    }

    /// Whether what was read back is what was written: the same number, or
    /// the same bytes.
    pub open spec fn confirmed<E>(self, reply: Reply<E>) -> bool {
        match (reply, self.value, self.table) {
            (Reply::Value(Ok(read)), Some(value), _) => read.value_spec() == value,
            (Reply::Table(Ok(read)), None, Some(table)) => read@ == table@,
            _ => false,
        }
    }

    /// The failure of a display that did not read back, if that is what
    /// `reply` says.
    pub open spec fn unread<E>(reply: Reply<E>) -> Option<E> {
        match reply {
            Reply::Value(Err(e)) => Some(e),
            Reply::Table(Err(e)) => Some(e),
            _ => None,
        }
    }

    /// Whether exactly one of a number and a table is given.
    pub fn is_valid(&self) -> (valid: bool)
        ensures
            valid == self.wf(),
    {
        self.value.is_some() != self.table.is_some()
    }
}

impl<E> DisplayCommand<E> for SetVCP {
    type Stage = SetStage;

    /// Exactly one of a number and a table is given.
    open spec fn valid(&self) -> bool {
        self.wf()
    }

    /// The header is printed, and the write asked for.
    open spec fn opens(&self, args: Config, info: DisplayInfo) -> StepView<SetStage, E> {
        StepView::ask(info.header(), self.write_request(), SetStage::Writing)
    }

    /// After the write its outcome is awaited; after the reading back a
    /// number where a number was written, and a table where a table was.
    open spec fn expects(&self, stage: SetStage, reply: Reply<E>) -> bool {
        match stage {
            SetStage::Writing => reply is Done,
            SetStage::Verifying => reply.answers(self.read_request()),
        }
    }

    /// A write that failed is a failure. A write that went well ends the
    /// command, unless what was written is to be read back. A reading back
    /// that failed is a failure, and so is one that brings something else
    /// than was written.
    open spec fn proceeds(&self, args: Config, stage: SetStage, reply: Reply<E>) -> StepView<
        SetStage,
        E,
    > {
        match stage {
            SetStage::Writing => match reply {
                Reply::Done(Err(e)) => StepView::fail(Error::Transport(e)),
                _ => if self.verify {
                    StepView::ask(seq![], self.read_request(), SetStage::Verifying)
                } else {
                    StepView::finish(seq![])
                },
            },
            SetStage::Verifying => match Self::unread(reply) {
                Some(e) => StepView::fail(Error::Transport(e)),
                None => if self.confirmed(reply) {
                    StepView::finish(seq![])
                } else {
                    StepView::fail(Error::Verification)
                },
            },
        }
    }

    open spec fn title(&self) -> Seq<char> {
        "set-vcp"@
    }

    fn name(&self) -> (name: &'static str) {
        "set-vcp"
    }

    fn accepts(&self, stage: &SetStage, reply: &Reply<E>) -> (expected: bool) {
        match stage {
            SetStage::Writing => reply.is_done(),
            SetStage::Verifying => if self.value.is_some() {
                reply.is_value()
            } else {
                reply.is_table()
            },
        }
    }

    fn begin(&self, args: &Config, info: DisplayInfo) -> (step: Step<SetStage, E>) {
        let request = match (&self.value, &self.table) {
            (Some(value), _) => Request::SetVcpFeature(self.feature_code, *value),
            (None, Some(table)) => {
                let offset = match self.offset {
                    Some(offset) => offset,
                    None => 0,
                };
                Request::TableWrite(self.feature_code, offset, slice_to_vec(table.as_slice()))
            },
            (None, None) => Request::SetVcpFeature(self.feature_code, 0),
        };
        Step::ask(header(&info), request, SetStage::Writing)
    }

    fn process(&self, args: &Config, stage: SetStage, reply: Reply<E>) -> (step: Step<SetStage, E>) {
        match stage {
            SetStage::Writing => match reply {
                Reply::Done(Err(e)) => Step::fail(Error::Transport(e)),
                _ => if self.verify {
                    let request = if self.value.is_some() {
                        Request::GetVcpFeature(self.feature_code)
                    } else {
                        Request::TableRead(self.feature_code)
                    };
                    Step::ask(no_lines(), request, SetStage::Verifying)
                } else {
                    Step::finish(no_lines())
                },
            },
            SetStage::Verifying => {
                let confirmed = match (reply, &self.value, &self.table) {
                    (Reply::Value(Err(e)), _, _) => {
                        return Step::fail(Error::Transport(e));
                    },
                    (Reply::Table(Err(e)), _, _) => {
                        return Step::fail(Error::Transport(e));
                    },
                    (Reply::Value(Ok(read)), Some(value), _) => read.value() == *value,
                    (Reply::Table(Ok(read)), None, Some(table)) => same_bytes(&read, table),
                    _ => false,
                };
                if confirmed {
                    Step::finish(no_lines())
                } else {
                    Step::fail(Error::Verification)
                }
            },
        }
    }
}

/// Reading back decides by what was read alone: the command finishes in
/// silence where the display returns what was written, and fails with
/// [`Error::Verification`] where it returns anything else.
pub proof fn lemma_read_back<E>(command: SetVCP, args: Config, reply: Reply<E>)
    requires
        command.wf(),
        reply.answers(command.read_request()),
        SetVCP::unread(reply) is None,
    ensures
        command.confirmed(reply) ==> DisplayCommand::<E>::proceeds(
            &command,
            args,
            SetStage::Verifying,
            reply,
        ) == StepView::<SetStage, E>::finish(seq![]),
        !command.confirmed(reply) ==> DisplayCommand::<E>::proceeds(
            &command,
            args,
            SetStage::Verifying,
            reply,
        ) == StepView::<SetStage, E>::fail(Error::Verification),
        command.confirmed(reply) <==> match reply {
            Reply::Value(Ok(read)) => command.value == Some(read.value_spec() as u16),
            Reply::Table(Ok(read)) => command.table matches Some(table) && table@ == read@,
            _ => false,
        },
{
}

/// Whether `left` and `right` hold the same bytes.
pub fn same_bytes(left: &Vec<u8>, right: &Vec<u8>) -> (same: bool)
    ensures
        same == (left@ == right@),
{
    if left.len() != right.len() {
        return false;
    }
    let mut i: usize = 0;
    while i < left.len()
        invariant
            i <= left@.len(),
            left@.len() == right@.len(),
            forall|j: int| 0 <= j < i ==> left@[j] == right@[j],
        decreases left@.len() - i,
    {
        if left[i] != right[i] {
            return false;
        }
        i += 1;
    }
    assert(left@ =~= right@);
    true
}

} // verus!
