//! Progress events and the channel that carries them to the display.
//!
//! The pipeline only ever writes to the channel. Delivery is best effort: an
//! event that cannot be delivered is dropped, and the pipeline goes on.

use vstd::prelude::*;
use vstd::string::StringExecFns;
use std::sync::mpsc::Sender;
use crate::batch::{batch_count, count_batches};

verus! {

/// `std::sync::mpsc::Sender`: the sending end of an unbounded channel,
/// taken as it is.
#[verifier::external_type_specification]
#[verifier::external_body]
#[verifier::reject_recursive_types(T)]
pub struct ExSender<T>(Sender<T>);

/// The four counters that the display shows.
#[derive(Clone, Copy, Debug, PartialEq, Eq, Structural)]
pub enum Stage {
    /// Pages written, over the whole run.
    Output,
    /// Files read, within the current batch.
    Read,
    /// Photos normalized, within the current batch.
    Normalize,
    /// Photos placed on the page, within the current batch.
    Compose,
}

/// One message to the display.
#[derive(Debug, PartialEq, Eq)]
pub enum ProgressEvent {
    /// Restart a counter with a new total.
    NewStage(Stage, u64),
    /// Count one step, with a label to show where there is one.
    Advance(Stage, Option<String>),
    /// Move a counter to a position.
    SetPosition(Stage, u64),
    /// Print a line above the counters.
    Message(String),
    /// The last event of a run.
    Stop,
}

/// A `ProgressEvent` with its texts as sequences of characters.
pub enum EventView {
    NewStage(Stage, u64),
    Advance(Stage, Option<Seq<char>>),
    SetPosition(Stage, u64),
    Message(Seq<char>),
    Stop,
}

impl View for ProgressEvent {
    type V = EventView;

    open spec fn view(&self) -> EventView {
        match *self {
            ProgressEvent::NewStage(stage, total) => EventView::NewStage(stage, total),
            ProgressEvent::Advance(stage, None) => EventView::Advance(stage, None),
            ProgressEvent::Advance(stage, Some(label)) => EventView::Advance(stage, Some(label@)),
            ProgressEvent::SetPosition(stage, position) => EventView::SetPosition(stage, position),
            ProgressEvent::Message(text) => EventView::Message(text@),
            ProgressEvent::Stop => EventView::Stop,
        }
    }
}

/// The events that open a batch of `n` files: the three batch counters get
/// their total, then each is set back to the start.
pub open spec fn batch_opening(n: u64) -> Seq<EventView> {
    seq![
        EventView::NewStage(Stage::Read, n),
        EventView::NewStage(Stage::Normalize, n),
        EventView::NewStage(Stage::Compose, n),
        EventView::SetPosition(Stage::Read, 0),
        EventView::SetPosition(Stage::Normalize, 0),
        EventView::SetPosition(Stage::Compose, 0),
    ]
}

/// The label shown while the file called `name` is read.
pub open spec fn read_label(name: Seq<char>) -> Seq<char> {
    "读取："@ + name
}

/// `n` steps of one stage, none of them labelled.
pub open spec fn steps(stage: Stage, n: nat) -> Seq<EventView> {
    Seq::new(n, |i: int| EventView::Advance(stage, None))
}

/// `Stop` occurs in `events` at the very end or not at all.
pub open spec fn stop_only_last(events: Seq<EventView>) -> bool {
    forall|i: int| 0 <= i < events.len() && events[i] is Stop ==> i == events.len() - 1
}

/// The sending end of the progress channel, with a record of what was
/// handed to it.
///
/// Once `Stop` has been sent the channel is closed, and whatever is handed to
/// it afterwards is dropped: the display has stopped listening.
pub struct ProgressChannel {
    tx: Sender<ProgressEvent>,
    closed: bool,
    sent: Ghost<Seq<EventView>>,
}

/// `Sender::send`, its result dropped: whether the event arrives is not
/// this side's concern.
#[verifier::external_body]
fn send(tx: &Sender<ProgressEvent>, event: ProgressEvent) {
    let _ = tx.send(event);
}

/// Enters an event in the record, and notes whether it closes the channel.
fn record(
    closed: &mut bool,
    sent: &mut Ghost<Seq<EventView>>,
    stops: bool,
    event: Ghost<EventView>,
)
    requires
        stops == (event@ is Stop),
    ensures
        *final(closed) == (*old(closed) || stops),
        final(sent)@ == old(sent)@.push(event@),
    no_unwind
{
    if stops {
        *closed = true;
    }
    proof {
        sent@ = sent@.push(event@);
    }
}

impl ProgressChannel {
    #[verifier::type_invariant]
    spec fn inv(self) -> bool {
        &&& stop_only_last(self.sent@)
        &&& self.closed <==> self.sent@.len() > 0 && self.sent@.last() is Stop
    }

    /// Every event sent through this channel so far, in order.
    pub closed spec fn sent(&self) -> Seq<EventView> {
        self.sent@
    }

    /// `Stop` has been sent.
    pub closed spec fn closed(&self) -> bool {
        self.closed
    }

    /// The record after `events` have been handed over: they are appended,
    /// unless the channel is closed.
    pub open spec fn after(&self, events: Seq<EventView>) -> Seq<EventView> {
        if self.closed() {
            self.sent()
        } else {
            self.sent() + events
        }
    }

    /// An open channel that sends through `tx`; nothing has been sent yet.
    pub fn new(tx: Sender<ProgressEvent>) -> (channel: ProgressChannel)
        ensures
            channel.sent() == Seq::<EventView>::empty(),
            !channel.closed(),
    {
        ProgressChannel { tx, closed: false, sent: Ghost(Seq::empty()) }
    }

    /// Whether `Stop` has been sent. In every state of a channel the record
    /// holds `Stop` at its very end or not at all, and the channel is closed
    /// exactly when it does.
    pub fn is_closed(&self) -> (closed: bool)
        ensures
            closed == self.closed(),
            closed <==> self.sent().len() > 0 && self.sent().last() is Stop,
            stop_only_last(self.sent()),
    {
        proof {
            use_type_invariant(self);
        }
        self.closed
    }

    /// Hands one event to the display.
    pub fn emit(&mut self, event: ProgressEvent)
        ensures
            final(self).sent() == old(self).after(seq![event@]),
            final(self).closed() == (old(self).closed() || event is Stop),
    {
        proof {
            use_type_invariant(&*self);
        }
        if !self.closed {
            let stops = match event {
                ProgressEvent::Stop => true,
                _ => false,
            };
            record(&mut self.closed, &mut self.sent, stops, Ghost(event@));
            assert(self.sent@ =~= old(self).sent@ + seq![event@]);
            send(&self.tx, event);
        }
    }

    /// Announces how many pages a run over `inputs` files will write, with
    /// `capacity` photos to the page.
    pub fn begin_run(&mut self, inputs: usize, capacity: usize)
        ensures
            final(self).sent() == old(self).after(
                seq![
                    EventView::NewStage(
                        Stage::Output,
                        batch_count(inputs as nat, capacity as nat) as u64,
                    ),
                ],
            ),
            final(self).closed() == old(self).closed(),
    {
        let pages = count_batches(inputs, capacity);
        self.emit(ProgressEvent::NewStage(Stage::Output, pages as u64));
    }

    /// Opens a batch of `n` files.
    pub fn begin_batch(&mut self, n: u64)
        ensures
            final(self).sent() == old(self).after(batch_opening(n)),
            final(self).closed() == old(self).closed(),
    {
        self.emit(ProgressEvent::NewStage(Stage::Read, n));
        self.emit(ProgressEvent::NewStage(Stage::Normalize, n));
        self.emit(ProgressEvent::NewStage(Stage::Compose, n));
        self.emit(ProgressEvent::SetPosition(Stage::Read, 0));
        self.emit(ProgressEvent::SetPosition(Stage::Normalize, 0));
        self.emit(ProgressEvent::SetPosition(Stage::Compose, 0));
        assert(self.sent() =~= old(self).after(batch_opening(n)));
    }

    /// Counts one file as being read. The label names the file where its
    /// name is known.
    pub fn reading(&mut self, file_name: Option<&str>)
        ensures
            final(self).sent() == old(self).after(
                seq![
                    EventView::Advance(
                        Stage::Read,
                        match file_name {
                            Some(name) => Some(read_label(name@)),
                            None => None,
                        },
                    ),
                ],
            ),
            final(self).closed() == old(self).closed(),
    {
        let label = match file_name {
            Some(name) => Some(String::from_str("读取：").concat(name)),
            None => None,
        };
        self.emit(ProgressEvent::Advance(Stage::Read, label));
    }

    /// Counts one step of a stage, without a label.
    pub fn step(&mut self, stage: Stage)
        ensures
            final(self).sent() == old(self).after(steps(stage, 1)),
            final(self).closed() == old(self).closed(),
    {
        self.emit(ProgressEvent::Advance(stage, None));
        assert(seq![EventView::Advance(stage, None)] =~= steps(stage, 1));
    }

    /// Ends the run: a closing line, then `Stop`.
    pub fn finish(&mut self)
        ensures
            final(self).sent() == old(self).after(
                seq![EventView::Message("Done!"@), EventView::Stop],
            ),
            final(self).closed(),
    {
        self.emit(ProgressEvent::Message(String::from_str("Done!")));
        self.emit(ProgressEvent::Stop);
        assert(self.sent() =~= old(self).after(
            seq![EventView::Message("Done!"@), EventView::Stop],
        ));
    }
}

} // verus!
