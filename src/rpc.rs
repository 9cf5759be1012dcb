use crate::channel::{BridgeChannel, SendError};
use crate::gui::GuiMessage;
use crate::repaint::RepaintSignal;
use vstd::prelude::*;
use vstd::string::StringExecFns;

verus! {

/// What a handler does when the bridge is full.
#[derive(Debug, Clone, Copy, PartialEq, Eq, Structural)]
pub enum FullPolicy {
    /// Hold the call until the render loop drains, then try again.
    Wait,
    /// Give up at once and report a transient error to the caller.
    Fail,
}

/// The error a handler reports to its RPC caller.
#[derive(Debug, Clone, Copy, PartialEq, Eq, Structural)]
pub enum RpcError {
    /// The bridge was full; the caller may try again later.
    ChannelFull,
}

/// A handler call that has its UI event still to deliver.
#[derive(Debug, PartialEq, Eq)]
pub struct PendingCall {
    /// The event to push onto the bridge.
    pub event: GuiMessage,
    /// What the caller gets once the event is dealt with.
    pub response: String,
}

/// The next thing that a handler call needs.
#[derive(Debug, PartialEq, Eq)]
pub enum Delivery {
    /// The call is over, with this reply.
    Done(Result<String, RpcError>),
    /// The bridge is full: wait until the render loop drains, then deliver
    /// this call again.
    Wait(PendingCall),
}

/// The decisions of the RPC handlers; whoever runs them holds the bridge and
/// the repaint signal.
pub struct HelloServer {
    policy: FullPolicy,
}

impl HelloServer {
    pub closed spec fn policy_spec(&self) -> FullPolicy {
        self.policy
    }

    pub fn new(policy: FullPolicy) -> (r: HelloServer)
        ensures
            r.policy_spec() == policy,
    {
        HelloServer { policy }
    }

    pub fn policy(&self) -> (r: FullPolicy)
        ensures
            r == self.policy_spec(),
    {
        self.policy
    }

    /// The greeting for `name`: "Hello, {name}!".
    pub fn hello(&self, name: String) -> (r: String)
        ensures
            r@ == "Hello, "@ + name@ + "!"@,
    {
        let mut r = String::from_str("Hello, ");
        r.append(name.as_str());
        r.append("!");
        r
    }

    /// The reply to raw bytes received from a peer.
    pub fn handle_recvfrom(&self, data: Vec<u8>) -> (r: String)
        ensures
            r@ == "got it"@,
    {
        String::from_str("got it")
    }

    /// Starts a call that replaces the displayed string with `value` and
    /// answers `value`.
    pub fn update_string(&self, value: String) -> (r: PendingCall)
        ensures
            r.event matches GuiMessage::UpdateString(v) && v@ == value@,
            r.response@ == value@,
    {
        PendingCall { event: GuiMessage::UpdateString(value.clone()), response: value }
    }

    /// Starts a call that appends `value` to the log and answers `value`.
    pub fn append_log(&self, value: String) -> (r: PendingCall)
        ensures
            r.event matches GuiMessage::AppendLog(v) && v@ == value@,
            r.response@ == value@,
    {
        PendingCall { event: GuiMessage::AppendLog(value.clone()), response: value }
    }

    /// Pushes the call's event onto the bridge and asks for a repaint.
    ///
    /// On a full bridge the call waits or fails, as the policy says, and the
    /// event is not lost; on a closed bridge the event is skipped and the
    /// call still answers.
    pub fn deliver(
        &self,
        call: PendingCall,
        chan: &mut BridgeChannel<GuiMessage>,
        signal: &mut RepaintSignal,
    ) -> (r: Delivery)
        requires
            old(chan).wf(),
        ensures
            final(chan).wf(),
            final(chan)@ == old(chan)@.after_send(call.event),
            old(chan)@.accepts() ==> {
                &&& r == Delivery::Done(Ok(call.response))
                &&& final(signal).pending()
            },
            !old(chan)@.accepts() ==> final(signal).pending() == old(signal).pending(),
            !old(chan)@.send_open() ==> r == Delivery::Done(Ok(call.response)),
            old(chan)@.send_open() && !old(chan)@.accepts() ==> r == (match self.policy_spec() {
                FullPolicy::Wait => Delivery::Wait(call),
                FullPolicy::Fail => Delivery::Done(Err(RpcError::ChannelFull)),
            }),
    {
        let PendingCall { event, response } = call;
        match chan.send(event) {
            Ok(()) => {
                signal.request_repaint();
                Delivery::Done(Ok(response))
            },
            Err(SendError::Closed(_)) => Delivery::Done(Ok(response)),
            Err(SendError::Full(event)) => match self.policy {
                FullPolicy::Wait => Delivery::Wait(PendingCall { event, response }),
                FullPolicy::Fail => Delivery::Done(Err(RpcError::ChannelFull)),
            },
        }
    }
}

} // verus!
