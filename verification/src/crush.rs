//! Crushing a file, one file operation at a time. The library touches no
//! file itself: its caller performs each [`Action`] and reports what
//! happened as an [`Event`], and [`crush`] decides what comes next. The
//! event last reported is all the state that a run has.

use crate::config::Config;
use crate::error::{CrushError, Failure, IoStep};
use crate::pipeline::{crush_png, crushed_png};
use vstd::prelude::*;

verus! {

/// Why a file was not read or written in full. Both carry what the system
/// said of the failure.
#[derive(Debug, PartialEq, Eq)]
pub enum FileError {
    /// The file could not be opened, or could not be created.
    Open(String),
    /// The file was opened or created, but its data could not be read or
    /// written through to the end.
    Data(String),
}

/// What the caller reports. A file operation that failed carries what the
/// system said of the failure.
#[derive(Debug, PartialEq, Eq)]
pub enum Event {
    /// Nothing has been done yet.
    Started,
    /// The input file was opened and read to its end, or could not be.
    InputRead(Result<Vec<u8>, FileError>),
    /// The output file was created, written and closed, or could not be.
    OutputWritten(Result<(), FileError>),
    /// The input file was deleted, or could not be.
    InputRemoved(Result<(), String>),
    /// The output file was moved to the input path, or could not be.
    OutputRenamed(Result<(), String>),
}

/// What the caller is to do next.
#[derive(Debug, PartialEq, Eq)]
pub enum Action {
    /// Read the whole file at `path`.
    ReadInput { path: String },
    /// Create the file at `path`, write `data` to it and close it.
    WriteOutput { path: String, data: Vec<u8> },
    /// Delete the file at `path`.
    RemoveInput { path: String },
    /// Move the file at `from` to `to`.
    RenameOutput { from: String, to: String },
    /// Stop: the run has ended with `result`.
    Finish { result: Result<(), CrushError> },
}

/// The mathematical content of an [`Action`].
pub enum ActionView {
    ReadInput { path: Seq<char> },
    WriteOutput { path: Seq<char>, data: Seq<u8> },
    RemoveInput { path: Seq<char> },
    RenameOutput { from: Seq<char>, to: Seq<char> },
    Finish { result: Result<(), Failure> },
}

impl View for Action {
    type V = ActionView;

    open spec fn view(&self) -> ActionView {
        match *self {
            Action::ReadInput { path } => ActionView::ReadInput { path: path@ },
            Action::WriteOutput { path, data } => ActionView::WriteOutput {
                path: path@,
                data: data@,
            },
            Action::RemoveInput { path } => ActionView::RemoveInput { path: path@ },
            Action::RenameOutput { from, to } => ActionView::RenameOutput { from: from@, to: to@ },
            Action::Finish { result: Ok(_) } => ActionView::Finish { result: Ok(()) },
            Action::Finish { result: Err(e) } => ActionView::Finish { result: Err(e@) },
        }
    }
}

/// The end of a run on a failed file operation.
pub open spec fn io_failure(step: IoStep, detail: Seq<char>) -> ActionView {
    ActionView::Finish { result: Err(Failure::Io { step, detail }) }
}

/// The action that follows an event.
///
/// A run reads the input, crushes it, and writes the output only once a
/// whole crushed stream is at hand. In in-place mode it then deletes the
/// input and moves the output to the input path, in this order. The first
/// failure ends the run; nothing is retried and nothing is undone.
///
/// A file that cannot be opened, created, deleted or moved is an I/O error.
/// An input that was opened but cannot be read through has failed to decode,
/// and an output that was created but cannot be written through has failed
/// to encode.
pub open spec fn planned(config: &Config, event: &Event) -> ActionView {
    match *event {
        Event::Started => ActionView::ReadInput { path: config.infile@ },
        Event::InputRead(Err(FileError::Open(detail))) => io_failure(IoStep::OpenInput, detail@),
        Event::InputRead(Err(FileError::Data(_))) => ActionView::Finish {
            result: Err(Failure::Decode),
        },
        Event::InputRead(Ok(bytes)) => match crushed_png(bytes@) {
            Ok(out) => ActionView::WriteOutput { path: config.output_target(), data: out },
            Err(failure) => ActionView::Finish { result: Err(failure) },
        },
        Event::OutputWritten(Err(FileError::Open(detail))) => io_failure(
            IoStep::CreateOutput,
            detail@,
        ),
        Event::OutputWritten(Err(FileError::Data(_))) => ActionView::Finish {
            result: Err(Failure::Encode),
        },
        Event::OutputWritten(Ok(_)) => if config.inplace {
            ActionView::RemoveInput { path: config.infile@ }
        } else {
            ActionView::Finish { result: Ok(()) }
        },
        Event::InputRemoved(Err(detail)) => io_failure(IoStep::RemoveInput, detail@),
        Event::InputRemoved(Ok(_)) => ActionView::RenameOutput {
            from: config.output_target(),
            to: config.infile@,
        },
        Event::OutputRenamed(Err(detail)) => io_failure(IoStep::RenameOutput, detail@),
        Event::OutputRenamed(Ok(_)) => ActionView::Finish { result: Ok(()) },
    }
}

/// The words that an event carries of a failure after the file was opened
/// or created, if it reports one.
pub open spec fn data_failure(event: &Event) -> Option<Seq<char>> {
    match *event {
        Event::InputRead(Err(FileError::Data(detail))) => Some(detail@),
        Event::OutputWritten(Err(FileError::Data(detail))) => Some(detail@),
        _ => None,
    }
}

/// The detail of the failure to decode or to encode that an action ends the
/// run with, if it does so.
pub open spec fn codec_detail(action: &Action) -> Option<Seq<char>> {
    match *action {
        Action::Finish { result: Err(CrushError::Decode { detail }) } => Some(detail@),
        Action::Finish { result: Err(CrushError::Encode { detail }) } => Some(detail@),
        _ => None,
    }
}

/// Takes the crushing of a file one step further: decides what the caller
/// is to do after `event`. A run starts with [`Event::Started`] and ends
/// with [`Action::Finish`]. Where the event reports that the data of a file
/// could not be read or written, the failure carries the words of the
/// event.
pub fn crush(config: &Config, event: Event) -> (action: Action)
    ensures
        action@ == planned(config, &event),
        data_failure(&event) is Some ==> codec_detail(&action) == data_failure(&event),
{
    match event {
        Event::Started => Action::ReadInput { path: config.infile.clone() },
        Event::InputRead(Err(FileError::Open(detail))) => fail(IoStep::OpenInput, detail),
        Event::InputRead(Err(FileError::Data(detail))) => Action::Finish {
            result: Err(CrushError::Decode { detail }),
        },
        Event::InputRead(Ok(bytes)) => match crush_png(bytes.as_slice()) {
            Ok(data) => Action::WriteOutput { path: config.output_path(), data },
            Err(e) => Action::Finish { result: Err(e) },
        },
        Event::OutputWritten(Err(FileError::Open(detail))) => fail(IoStep::CreateOutput, detail),
        Event::OutputWritten(Err(FileError::Data(detail))) => Action::Finish {
            result: Err(CrushError::Encode { detail }),
        },
        Event::OutputWritten(Ok(_)) => if config.inplace {
            Action::RemoveInput { path: config.infile.clone() }
        } else {
            Action::Finish { result: Ok(()) }
        },
        Event::InputRemoved(Err(detail)) => fail(IoStep::RemoveInput, detail),
        Event::InputRemoved(Ok(_)) => Action::RenameOutput {
            from: config.output_path(),
            to: config.infile.clone(),
        },
        Event::OutputRenamed(Err(detail)) => fail(IoStep::RenameOutput, detail),
        Event::OutputRenamed(Ok(_)) => Action::Finish { result: Ok(()) },
    }
}

fn fail(step: IoStep, detail: String) -> (action: Action)
    ensures
        action@ == io_failure(step, detail@),
{
    Action::Finish { result: Err(CrushError::Io { step, detail }) }
}

/// Whether `event` reports on the file operation that `action` asks for.
pub open spec fn answers(event: &Event, action: ActionView) -> bool {
    match action {
        ActionView::ReadInput { .. } => *event is InputRead,
        ActionView::WriteOutput { .. } => *event is OutputWritten,
        ActionView::RemoveInput { .. } => *event is InputRemoved,
        ActionView::RenameOutput { .. } => *event is OutputRenamed,
        ActionView::Finish { .. } => false,
    }
}

/// Whether `events` is what the caller reports in the course of one run: it
/// begins with [`Event::Started`], and each later event answers the action
/// that was planned after the event before it.
pub open spec fn is_run(config: &Config, events: Seq<Event>) -> bool {
    &&& events.len() > 0
    &&& events[0] is Started
    &&& forall|i: int|
        #![trigger events[i]]
        0 < i < events.len() ==> answers(&events[i], planned(config, &events[i - 1]))
}

/// What an event that answers the action planned after `before` tells of
/// `before`: an operation is only asked for after the one before it has
/// succeeded.
pub proof fn lemma_answer_follows_success(config: &Config, before: &Event, after: &Event)
    ensures
        answers(after, planned(config, before)) ==> match *before {
            Event::Started => *after is InputRead,
            Event::InputRead(read) => {
                &&& *after is OutputWritten
                &&& read is Ok
                &&& crushed_png(read->Ok_0@) is Ok
            },
            Event::OutputWritten(written) => {
                &&& *after is InputRemoved
                &&& written is Ok
                &&& config.inplace
            },
            Event::InputRemoved(removed) => *after is OutputRenamed && removed is Ok,
            Event::OutputRenamed(_) => false,
        },
{
}

/// A run is at most four file operations long and keeps their order: the
/// input is read; the output is written only if a crushed stream came of
/// the input; the input is deleted only in in-place mode and only after the
/// output was written; the output is moved only after the input was
/// deleted. No operation is tried a second time.
pub proof fn lemma_run_order(config: &Config, events: Seq<Event>)
    ensures
        is_run(config, events) ==> {
            &&& events.len() <= 5
            &&& events.len() > 1 ==> events[1] is InputRead
            &&& events.len() > 2 ==> {
                &&& events[2] is OutputWritten
                &&& events[1]->InputRead_0 is Ok
                &&& crushed_png(events[1]->InputRead_0->Ok_0@) is Ok
            }
            &&& events.len() > 3 ==> {
                &&& events[3] is InputRemoved
                &&& events[2]->OutputWritten_0 is Ok
                &&& config.inplace
            }
            &&& events.len() > 4 ==> {
                &&& events[4] is OutputRenamed
                &&& events[3]->InputRemoved_0 is Ok
            }
        },
{
    if is_run(config, events) {
        if events.len() > 1 {
            lemma_answer_follows_success(config, &events[0], &events[1]);
        }
        if events.len() > 2 {
            lemma_answer_follows_success(config, &events[1], &events[2]);
        }
        if events.len() > 3 {
            lemma_answer_follows_success(config, &events[2], &events[3]);
        }
        if events.len() > 4 {
            lemma_answer_follows_success(config, &events[3], &events[4]);
        }
        if events.len() > 5 {
            lemma_answer_follows_success(config, &events[4], &events[5]);
        }
    }
}

/// No output is written unless the input was read and a whole crushed
/// stream came of it, and it is written to the output path.
pub proof fn lemma_write_needs_crushed_stream(config: &Config, event: &Event)
    ensures
        planned(config, event) matches ActionView::WriteOutput { path, data } ==> path
            == config.output_target() && (event matches Event::InputRead(Ok(bytes)) && crushed_png(
            bytes@,
        ) == Ok::<Seq<u8>, Failure>(data)),
{
}

/// An input that cannot be crushed ends the run with the failure of the
/// pipeline; no file operation follows.
pub proof fn lemma_failure_is_not_written(config: &Config, bytes: Vec<u8>)
    ensures
        crushed_png(bytes@) matches Err(failure) ==> planned(config, &Event::InputRead(Ok(bytes)))
            == (ActionView::Finish { result: Err(failure) }),
{
}

/// The input file is deleted in in-place mode only, and only once the
/// output file has been written in full.
pub proof fn lemma_remove_needs_written_output(config: &Config, event: &Event)
    ensures
        planned(config, event) is RemoveInput <==> config.inplace
            && event matches Event::OutputWritten(Ok(_)),
        planned(config, event) is RemoveInput ==> planned(config, event)->RemoveInput_path
            == config.infile@,
{
}

/// In in-place mode a written output is followed by the deletion of the
/// input, then by the move of the output to the input path, then by the
/// end of the run; without it a written output ends the run.
pub proof fn lemma_replacement_order(config: &Config)
    ensures
        config.inplace ==> planned(config, &Event::OutputWritten(Ok(())))
            == (ActionView::RemoveInput { path: config.infile@ }),
        !config.inplace ==> planned(config, &Event::OutputWritten(Ok(())))
            == (ActionView::Finish { result: Ok(()) }),
        planned(config, &Event::InputRemoved(Ok(()))) == (ActionView::RenameOutput {
            from: config.output_target(),
            to: config.infile@,
        }),
        planned(config, &Event::OutputRenamed(Ok(()))) == (ActionView::Finish { result: Ok(()) }),
{
}

/// A failed file operation ends the run at once. A file that cannot be
/// opened, created, deleted or moved gives an I/O error that names the
/// operation and carries what the system said; an input that cannot be read
/// through gives a failure to decode, an output that cannot be written
/// through a failure to encode.
pub proof fn lemma_io_failure_is_final(config: &Config, detail: String)
    ensures
        planned(config, &Event::InputRead(Err(FileError::Open(detail)))) == io_failure(
            IoStep::OpenInput,
            detail@,
        ),
        planned(config, &Event::InputRead(Err(FileError::Data(detail)))) == (ActionView::Finish {
            result: Err(Failure::Decode),
        }),
        planned(config, &Event::OutputWritten(Err(FileError::Open(detail)))) == io_failure(
            IoStep::CreateOutput,
            detail@,
        ),
        planned(config, &Event::OutputWritten(Err(FileError::Data(detail))))
            == (ActionView::Finish { result: Err(Failure::Encode) }),
        planned(config, &Event::InputRemoved(Err(detail))) == io_failure(
            IoStep::RemoveInput,
            detail@,
        ),
        planned(config, &Event::OutputRenamed(Err(detail))) == io_failure(
            IoStep::RenameOutput,
            detail@,
        ),
{
}

/// Neither the verbosity nor the chunk size has any bearing on a run: two
/// configurations with the same paths and the same mode plan the same
/// action after every event.
pub proof fn lemma_hints_have_no_bearing(first: &Config, second: &Config, event: &Event)
    requires
        first.infile@ == second.infile@,
        first.output_target() == second.output_target(),
        first.inplace == second.inplace,
    ensures
        planned(first, event) == planned(second, event),
{
}

} // verus!
