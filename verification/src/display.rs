//! What the display does with each progress event.
//!
//! The display owns four bars, one for each `Stage`. It turns every event it
//! receives into commands for its bars and carries them out in order; this
//! module decides the commands, and the drawing is left to the caller.

use vstd::prelude::*;
use vstd::string::StringExecFns;
use crate::progress::{EventView, ProgressEvent, Stage};

verus! {

/// One thing to do to a bar, or to the display as a whole.
#[derive(Debug, PartialEq, Eq)]
pub enum BarCommand {
    /// Give the bar a new total.
    SetLength(Stage, u64),
    /// Set the bar back to the start.
    Reset(Stage),
    /// Move the bar forward by one.
    Step(Stage),
    /// Move the bar of the `Read` stage forward by one, then show what
    /// `after_read_step` says for this label.
    StepRead(Option<String>),
    /// Move the bar to a position.
    SetPosition(Stage, u64),
    /// Mark the bar as finished and show a last text beside it.
    Finish(Stage, String),
    /// Show another text beside the bar.
    Relabel(Stage, String),
    /// Print a line above the bars.
    Print(String),
    /// Take the bar off the display.
    Remove(Stage),
}

/// A `BarCommand` with its texts as sequences of characters.
pub enum CommandView {
    SetLength(Stage, u64),
    Reset(Stage),
    Step(Stage),
    StepRead(Option<Seq<char>>),
    SetPosition(Stage, u64),
    Finish(Stage, Seq<char>),
    Relabel(Stage, Seq<char>),
    Print(Seq<char>),
    Remove(Stage),
}

impl View for BarCommand {
    type V = CommandView;

    open spec fn view(&self) -> CommandView {
        match *self {
            BarCommand::SetLength(stage, total) => CommandView::SetLength(stage, total),
            BarCommand::Reset(stage) => CommandView::Reset(stage),
            BarCommand::Step(stage) => CommandView::Step(stage),
            BarCommand::StepRead(None) => CommandView::StepRead(None),
            BarCommand::StepRead(Some(label)) => CommandView::StepRead(Some(label@)),
            BarCommand::SetPosition(stage, position) => CommandView::SetPosition(stage, position),
            BarCommand::Finish(stage, text) => CommandView::Finish(stage, text@),
            BarCommand::Relabel(stage, text) => CommandView::Relabel(stage, text@),
            BarCommand::Print(text) => CommandView::Print(text@),
            BarCommand::Remove(stage) => CommandView::Remove(stage),
        }
    }
}

/// The views of a list of commands.
pub open spec fn command_views(commands: Seq<BarCommand>) -> Seq<CommandView> {
    Seq::new(commands.len(), |i: int| commands[i]@)
}

/// The text beside the bar of a stage when the display starts.
pub open spec fn title(stage: Stage) -> Seq<char> {
    match stage {
        Stage::Output => "输出"@,
        Stage::Read => "读取图片"@,
        Stage::Normalize => "处理图片"@,
        Stage::Compose => "排版图片"@,
    }
}

/// The commands that answer an event.
///
/// A new total sets the bar back to the start, except for the `Compose`
/// stage, whose bar is moved by the `SetPosition` that follows. `Stop` takes
/// the three bars of the batch off the display and leaves the page count.
pub open spec fn reaction(event: EventView) -> Seq<CommandView> {
    match event {
        EventView::NewStage(Stage::Compose, total) => seq![
            CommandView::SetLength(Stage::Compose, total),
        ],
        EventView::NewStage(stage, total) => seq![
            CommandView::SetLength(stage, total),
            CommandView::Reset(stage),
        ],
        EventView::Advance(Stage::Read, label) => seq![CommandView::StepRead(label)],
        EventView::Advance(stage, _) => seq![CommandView::Step(stage)],
        EventView::SetPosition(stage, position) => seq![CommandView::SetPosition(stage, position)],
        EventView::Message(text) => seq![CommandView::Print(text)],
        EventView::Stop => seq![
            CommandView::Remove(Stage::Read),
            CommandView::Remove(Stage::Normalize),
            CommandView::Remove(Stage::Compose),
        ],
    }
}

/// What the bar of the `Read` stage shows once it has been moved forward:
/// that reading is finished when it stands at its total (a bar without a
/// total counts as one with the total 0), else the label if there is one,
/// else what it showed before.
pub open spec fn read_step_outcome(
    position: u64,
    length: Option<u64>,
    label: Option<Seq<char>>,
) -> Option<CommandView> {
    let total = match length {
        Some(n) => n,
        None => 0,
    };
    if position == total {
        Some(CommandView::Finish(Stage::Read, "读取完成"@))
    } else {
        match label {
            Some(text) => Some(CommandView::Relabel(Stage::Read, text)),
            None => None,
        }
    }
}

/// The text beside the bar of a stage when the display starts.
pub fn stage_title(stage: Stage) -> (text: String)
    ensures
        text@ == title(stage),
{
    match stage {
        Stage::Output => String::from_str("输出"),
        Stage::Read => String::from_str("读取图片"),
        Stage::Normalize => String::from_str("处理图片"),
        Stage::Compose => String::from_str("排版图片"),
    }
}

/// Whether the display stops listening after this event.
pub fn is_last(event: &ProgressEvent) -> (last: bool)
    ensures
        last == (event@ is Stop),
{
    match event {
        ProgressEvent::Stop => true,
        _ => false,
    }
}

/// Turns an event into the commands that answer it, in the order in which
/// they are to be carried out.
pub fn react(event: ProgressEvent) -> (commands: Vec<BarCommand>)
    ensures
        command_views(commands@) == reaction(event@),
{
    let mut commands: Vec<BarCommand> = Vec::new();
    match event {
        ProgressEvent::NewStage(stage, total) => {
            commands.push(BarCommand::SetLength(stage, total));
            match stage {
                Stage::Compose => {},
                _ => {
                    commands.push(BarCommand::Reset(stage));
                },
            }
        },
        ProgressEvent::Advance(stage, label) => {
            match stage {
                Stage::Read => {
                    commands.push(BarCommand::StepRead(label));
                },
                _ => {
                    commands.push(BarCommand::Step(stage));
                },
            }
        },
        ProgressEvent::SetPosition(stage, position) => {
            commands.push(BarCommand::SetPosition(stage, position));
        },
        ProgressEvent::Message(text) => {
            commands.push(BarCommand::Print(text));
        },
        ProgressEvent::Stop => {
            commands.push(BarCommand::Remove(Stage::Read));
            commands.push(BarCommand::Remove(Stage::Normalize));
            commands.push(BarCommand::Remove(Stage::Compose));
        },
    }
    assert(command_views(commands@) =~= reaction(event@));
    commands
}

/// Settles what the bar of the `Read` stage shows after a step, from where
/// the bar stands now, its total and the label that came with the step.
pub fn after_read_step(position: u64, length: Option<u64>, label: Option<String>) -> (command:
    Option<BarCommand>)
    ensures
        match command {
            Some(c) => read_step_outcome(position, length, option_text(label)) == Some(c@),
            None => read_step_outcome(position, length, option_text(label)) is None,
        },
{
    let total: u64 = match length {
        Some(n) => n,
        None => 0,
    };
    if position == total {
        Some(BarCommand::Finish(Stage::Read, String::from_str("读取完成")))
    } else {
        match label {
            Some(text) => Some(BarCommand::Relabel(Stage::Read, text)),
            None => None,
        }
    }
}

/// The characters of an optional text.
pub open spec fn option_text(text: Option<String>) -> Option<Seq<char>> {
    match text {
        Some(t) => Some(t@),
        None => None,
    }
}

} // verus!
