use crate::channel::{BridgeChannel, ChannelView, TryReceiveError};
use vstd::prelude::*;
use vstd::string::StringExecFns;

verus! {

/// One mutation of the UI state, sent by a handler to the render loop.
#[derive(Debug, PartialEq, Eq)]
pub enum GuiMessage {
    /// A client said hello; the state does not change.
    Hello(String),
    /// Replace the displayed string.
    UpdateString(String),
    /// Append one line to the log.
    AppendLog(String),
}

/// The part of the render loop's state that events change.
pub struct UiState {
    pub string: Seq<char>,
    pub logs: Seq<Seq<char>>,
}

/// The state after applying one event.
pub open spec fn apply(s: UiState, m: GuiMessage) -> UiState {
    match m {
        GuiMessage::Hello(_) => s,
        GuiMessage::UpdateString(v) => UiState { string: v@, ..s },
        GuiMessage::AppendLog(v) => UiState { logs: s.logs.push(v@), ..s },
    }
}

/// The state after applying `ms` in order.
pub open spec fn apply_all(s: UiState, ms: Seq<GuiMessage>) -> UiState
    decreases ms.len(),
{
    if ms.len() == 0 {
        s
    } else {
        apply(apply_all(s, ms.drop_last()), ms.last())
    }
}

/// Where the render loop stands within a frame.
#[derive(Debug, Clone, Copy, PartialEq, Eq, Structural)]
pub enum RenderPhase {
    /// Between frames.
    Idle,
    /// Applying the pending events.
    Draining,
    /// The events are applied; the frame is being drawn.
    Rendering,
}

/// The state that the render loop owns and alone mutates.
pub struct Application {
    string: String,
    logs: Vec<String>,
    phase: RenderPhase,
    bridge_closed: bool,
}

impl Application {
    /// The displayed state, as events see it.
    pub closed spec fn ui(&self) -> UiState {
        UiState { string: self.string@, logs: self.logs@.map_values(|l: String| l@) }
    }

    pub closed spec fn phase_spec(&self) -> RenderPhase {
        self.phase
    }

    /// Whether the loop has seen the bridge closed and stopped draining it.
    pub closed spec fn bridge_closed_spec(&self) -> bool {
        self.bridge_closed
    }

    /// The state before any event: the string "Unset" and an empty log.
    pub fn new() -> (r: Application)
        ensures
            r.ui().string == "Unset"@,
            r.ui().logs.len() == 0,
            r.phase_spec() == RenderPhase::Idle,
            !r.bridge_closed_spec(),
    {
        let r = Application {
            string: String::from_str("Unset"),
            logs: Vec::new(),
            phase: RenderPhase::Idle,
            bridge_closed: false,
        };
        assert(r.logs@.map_values(|l: String| l@) =~= Seq::<Seq<char>>::empty());
        r
    }

    /// Applies one event to the state.
    fn apply_message(&mut self, m: GuiMessage)
        ensures
            final(self).ui() == apply(old(self).ui(), m),
            final(self).phase == old(self).phase,
            final(self).bridge_closed == old(self).bridge_closed,
    {
        match m {
            GuiMessage::Hello(_) => {},
            GuiMessage::UpdateString(v) => {
                self.string = v;
            },
            GuiMessage::AppendLog(v) => {
                let ghost v_view = v@;
                self.logs.push(v);
                assert(self.logs@.map_values(|l: String| l@) =~= old(self).logs@.map_values(
                    |l: String| l@,
                ).push(v_view));
            },
        }
    }

    /// Drains the bridge without blocking and applies each event in arrival
    /// order. Once the bridge has been seen closed, it is left alone.
    ///
    /// Returns whether this call was the one that found the bridge closed.
    pub fn drain(&mut self, chan: &mut BridgeChannel<GuiMessage>) -> (newly_closed: bool)
        requires
            old(chan).wf(),
        ensures
            final(chan).wf(),
            final(self).phase_spec() == old(self).phase_spec(),
            old(self).bridge_closed_spec() ==> {
                &&& final(chan)@ == old(chan)@
                &&& final(self).ui() == old(self).ui()
                &&& final(self).bridge_closed_spec()
                &&& !newly_closed
            },
            !old(self).bridge_closed_spec() ==> {
                &&& final(chan)@ == (ChannelView { queue: Seq::empty(), ..old(chan)@ })
                &&& final(self).ui() == apply_all(old(self).ui(), old(chan)@.queue)
                &&& final(self).bridge_closed_spec() == final(chan)@.receive_closed()
                &&& newly_closed == final(chan)@.receive_closed()
                &&& newly_closed ==> !final(chan)@.send_open()
            },
    {
        if self.bridge_closed {
            return false;
        }
        let ghost start = old(self).ui();
        let ghost q0 = chan@.queue;
        loop
            invariant
                chan.wf(),
                !self.bridge_closed,
                !old(self).bridge_closed,
                self.phase == old(self).phase,
                chan@ == (ChannelView { queue: chan@.queue, ..old(chan)@ }),
                q0 == old(chan)@.queue,
                !old(chan)@.receiver_open ==> q0.len() == 0,
                old(chan)@.receiver_open ==> q0 == q0.subrange(0, q0.len() - chan@.queue.len())
                    + chan@.queue,
                old(chan)@.receiver_open ==> self.ui() == apply_all(
                    start,
                    q0.subrange(0, q0.len() - chan@.queue.len()),
                ),
                !old(chan)@.receiver_open ==> self.ui() == start && chan@.queue.len() == 0,
                start == old(self).ui(),
            decreases chan@.queue.len(),
        {
            let ghost before = chan@.queue;
            match chan.try_receive() {
                Ok(m) => {
                    let ghost done = q0.subrange(0, q0.len() - before.len());
                    proof {
                        assert(q0.subrange(0, q0.len() - chan@.queue.len()) =~= done.push(m)) by {
                            assert(q0 =~= done + before);
                        }
                        assert(done.push(m).drop_last() =~= done);
                    }
                    self.apply_message(m);
                },
                Err(TryReceiveError::Empty) => {
                    proof {
                        assert(chan@.queue =~= Seq::<GuiMessage>::empty());
                        assert(q0.subrange(0, q0.len() as int) =~= q0);
                    }
                    return false;
                },
                Err(TryReceiveError::Closed) => {
                    proof {
                        assert(chan@.queue =~= Seq::<GuiMessage>::empty());
                        assert(q0.subrange(0, q0.len() as int) =~= q0);
                    }
                    self.bridge_closed = true;
                    return true;
                },
            }
        }
    }

    /// One frame's work before drawing: drains the bridge and moves to
    /// `Rendering`. Returns whether this frame found the bridge closed.
    pub fn update(&mut self, chan: &mut BridgeChannel<GuiMessage>) -> (newly_closed: bool)
        requires
            old(chan).wf(),
        ensures
            final(chan).wf(),
            final(self).phase_spec() == RenderPhase::Rendering,
            old(self).bridge_closed_spec() ==> {
                &&& final(chan)@ == old(chan)@
                &&& final(self).ui() == old(self).ui()
                &&& final(self).bridge_closed_spec()
                &&& !newly_closed
            },
            !old(self).bridge_closed_spec() ==> {
                &&& final(chan)@ == (ChannelView { queue: Seq::empty(), ..old(chan)@ })
                &&& final(self).ui() == apply_all(old(self).ui(), old(chan)@.queue)
                &&& final(self).bridge_closed_spec() == final(chan)@.receive_closed()
                &&& newly_closed == final(chan)@.receive_closed()
                &&& newly_closed ==> !final(chan)@.send_open()
            },
    {
        self.phase = RenderPhase::Draining;
        let newly_closed = self.drain(chan);
        self.phase = RenderPhase::Rendering;
        newly_closed
    }

    /// The frame has been drawn: back to `Idle`.
    pub fn finish_frame(&mut self)
        ensures
            final(self).phase_spec() == RenderPhase::Idle,
            final(self).ui() == old(self).ui(),
            final(self).bridge_closed_spec() == old(self).bridge_closed_spec(),
    {
        self.phase = RenderPhase::Idle;
    }

    /// Replaces the displayed string from direct user input.
    pub fn set_string(&mut self, value: String)
        ensures
            final(self).ui() == (UiState { string: value@, ..old(self).ui() }),
            final(self).phase_spec() == old(self).phase_spec(),
            final(self).bridge_closed_spec() == old(self).bridge_closed_spec(),
    {
        self.string = value;
    }

    pub fn string(&self) -> (r: &String)
        ensures
            r@ == self.ui().string,
    {
        &self.string
    }

    pub fn logs(&self) -> (r: &Vec<String>)
        ensures
            r@.map_values(|l: String| l@) == self.ui().logs,
    {
        &self.logs
    }

    pub fn phase(&self) -> (r: RenderPhase)
        ensures
            r == self.phase_spec(),
    {
        self.phase
    }

    pub fn is_bridge_closed(&self) -> (r: bool)
        ensures
            r == self.bridge_closed_spec(),
    {
        self.bridge_closed
    }
}

} // verus!
