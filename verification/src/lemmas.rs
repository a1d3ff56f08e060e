//! What holds of every connection handle, proved of the state machine.

use crate::event::{EventKind, EventView, OutputView};
use crate::frame::{ConnectionMode, FrameView, MessageView};
use crate::model::{SendView, TaskView, Teardown};
use crate::status::WebSocketStatus;
use vstd::prelude::*;

verus! {

/// Events never change the mode of a handle nor whether it listens, and
/// they leave a well-formed handle well-formed.
pub proof fn lemma_run_keeps_shape(task: TaskView, events: Seq<EventView>)
    ensures
        task.run(events).mode == task.mode,
        task.run(events).listening == task.listening,
        task.wf() ==> task.run(events).wf(),
    decreases events.len(),
{
    if events.len() > 0 {
        lemma_run_keeps_shape(task, events.drop_last());
    }
}

/// Connect, every event and disconnect keep a handle well-formed.
pub proof fn lemma_well_formed(task: TaskView, mode: ConnectionMode, event: EventView)
    requires
        task.wf(),
    ensures
        TaskView::fresh(mode).wf(),
        task.receive(event).wf(),
        task.disconnect().wf(),
{
}

/// A handle answers an event only while it is registered for events of
/// that kind, and while it is, it reports every open, close and error.
pub proof fn lemma_heard_if_subscribed(task: TaskView, event: EventView)
    ensures
        task.output(event) is Some ==> task.subscriptions().contains(event.kind()),
        task.subscriptions().contains(event.kind()) && !(event is Message) ==> task.output(event)
            is Some,
        task.listening ==> task.subscriptions().len() == 4,
        !task.listening ==> task.subscriptions().len() == 0,
{
    let all = seq![EventKind::Open, EventKind::Close, EventKind::Error, EventKind::Message];
    if task.listening {
        assert(all[0] == EventKind::Open);
        assert(all[1] == EventKind::Close);
        assert(all[2] == EventKind::Error);
        assert(all[3] == EventKind::Message);
    }
}

/// There is no way back: once a connection has failed or is closed, no
/// sequence of events makes it connecting or open again.
pub proof fn lemma_no_way_back(task: TaskView, events: Seq<EventView>)
    requires
        !task.state.active(),
    ensures
        !task.run(events).state.active(),
    decreases events.len(),
{
    if events.len() > 0 {
        lemma_no_way_back(task, events.drop_last());
    }
}

/// While a handle listens, every event is answered on its own and in the
/// order of arrival: the callback invocations are those of the single
/// events, one after the other, none held back and none made up.
pub proof fn lemma_outputs_in_order(task: TaskView, events: Seq<EventView>)
    requires
        task.listening,
    ensures
        task.outputs(events) == events.filter_map(|event: EventView| task.output(event)),
    decreases events.len(),
{
    let answer = |event: EventView| task.output(event);
    if events.len() > 0 {
        let earlier = events.drop_last();
        lemma_outputs_in_order(task, earlier);
        lemma_run_keeps_shape(task, earlier);
        assert(task.run(earlier).output(events.last()) == answer(events.last()));
        match answer(events.last()) {
            Some(output) => {
                assert(earlier.filter_map(answer).push(output) == earlier.filter_map(answer)
                    + seq![output]);
            },
            None => {},
        }
    }
}

/// A listening handle that is fed a binary frame and then a text frame
/// invokes the message callback twice if it decodes both kinds, each frame
/// along its own decode path, and once if it decodes one kind only: for the
/// frame of that kind.
pub proof fn lemma_one_frame_of_each_kind(task: TaskView, bytes: Seq<u8>, text: Seq<char>)
    requires
        task.listening,
    ensures
        task.outputs(
            seq![
                EventView::Message(FrameView::Binary(bytes)),
                EventView::Message(FrameView::Text(text)),
            ],
        ) == match task.mode {
            ConnectionMode::Both => seq![
                OutputView::Message(MessageView::Binary(Ok(bytes))),
                OutputView::Message(MessageView::Text(Ok(text))),
            ],
            ConnectionMode::BinaryOnly => seq![OutputView::Message(MessageView::Binary(Ok(bytes)))],
            ConnectionMode::TextOnly => seq![OutputView::Message(MessageView::Text(Ok(text)))],
        },
{
    let first = EventView::Message(FrameView::Binary(bytes));
    let second = EventView::Message(FrameView::Text(text));
    let events = seq![first, second];
    assert(events.drop_last() == seq![first]);
    assert(seq![first].drop_last() == Seq::<EventView>::empty());
    assert(task.run(Seq::<EventView>::empty()) == task);
    assert(task.run(seq![first]) == task.receive(first));
    assert(task.outputs(Seq::<EventView>::empty()) == Seq::<OutputView>::empty());
    assert(task.outputs(seq![first]) == match task.output(first) {
        Some(output) => Seq::<OutputView>::empty().push(output),
        None => Seq::<OutputView>::empty(),
    });
}

/// After a disconnect the handle is deaf: whatever events the transport
/// still delivers, no callback is invoked and the handle stays as it is.
pub proof fn lemma_silent_after_disconnect(task: TaskView, events: Seq<EventView>)
    ensures
        task.disconnect().outputs(events) == Seq::<OutputView>::empty(),
        task.disconnect().run(events) == task.disconnect(),
    decreases events.len(),
{
    if events.len() > 0 {
        lemma_silent_after_disconnect(task, events.drop_last());
    }
}

/// A second disconnect asks for nothing, and in particular for no second
/// close; it leaves the handle as the first one left it. The same holds
/// if events arrive in between.
pub proof fn lemma_disconnect_twice(task: TaskView, events: Seq<EventView>)
    ensures
        task.disconnect().teardown() == Teardown::Nothing,
        task.disconnect().disconnect() == task.disconnect(),
        task.disconnect().run(events).teardown() == Teardown::Nothing,
        task.disconnect().run(events).disconnect() == task.disconnect(),
{
    lemma_silent_after_disconnect(task, events);
}

/// The first disconnect of a handle asks for a close exactly if the
/// connection is connecting or open, and always releases the listeners.
pub proof fn lemma_first_disconnect(task: TaskView)
    requires
        task.wf(),
        task.listening,
    ensures
        task.teardown().closes() <==> task.state.active(),
        task.teardown() != Teardown::Nothing,
        !task.disconnect().listening,
        !task.disconnect().state.active(),
{
}

/// A payload that has an encoding, sent on a connection that is not open,
/// is answered with an `Error` status and nothing else.
pub proof fn lemma_send_while_not_open(task: TaskView, frame: FrameView)
    requires
        !(task.state is Open),
    ensures
        task.outbound(Some(frame)) == SendView::Notify(WebSocketStatus::Error),
{
}

} // verus!
