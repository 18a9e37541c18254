//! The forwarding bridge between one UDP socket and the session's two data
//! channels.
//!
//! Every inbound data-channel message becomes one UDP send of the same bytes;
//! every non-empty datagram becomes one outbound data-channel message of the
//! same bytes. A single-fire shutdown signal ends the datagram direction.

use crate::payload::{bytes_contents, copy_to_bytes};
use vstd::prelude::*;
use vstd::slice::{slice_subrange, slice_to_vec};

verus! {

/// The largest datagram of the game protocol; the receive buffer has this size.
pub const MAX_PACKET_SIZE: usize = 65536;

/// What the bridge is told, in the model.
pub enum BridgeInput {
    /// The inbound channel delivered a message.
    InboundMessage(Seq<u8>),
    /// The inbound channel reported that it closed.
    InboundClosed,
    /// The inbound channel reported an error.
    InboundError,
    /// The session asked the bridge to stop.
    Teardown,
    /// The UDP socket received a datagram.
    Datagram(Seq<u8>),
    /// The UDP receive failed.
    ReceiveFailed,
}

/// What the bridge asks for, in the model.
pub enum BridgeOutput {
    /// Send these bytes as one UDP datagram.
    SendUdp(Seq<u8>),
    /// Send these bytes as one message on the outbound channel.
    SendOutbound(Seq<u8>),
    /// Nothing to do.
    Idle,
    /// The shutdown signal fires now; the datagram direction ends.
    Fire,
    /// The datagram direction ends; the signal had already fired.
    Stop,
}

/// The state of a bridge.
pub struct BridgeView {
    /// Whether the shutdown signal has fired.
    pub shut_down: bool,
}

impl BridgeView {
    pub open spec fn fired(self) -> (BridgeView, BridgeOutput) {
        if self.shut_down {
            (self, BridgeOutput::Idle)
        } else {
            (BridgeView { shut_down: true }, BridgeOutput::Fire)
        }
    }

    /// One step of the bridge.
    pub open spec fn step(self, input: BridgeInput) -> (BridgeView, BridgeOutput) {
        match input {
            BridgeInput::InboundMessage(b) => if self.shut_down {
                (self, BridgeOutput::Idle)
            } else {
                (self, BridgeOutput::SendUdp(b))
            },
            BridgeInput::InboundClosed => self.fired(),
            BridgeInput::InboundError => self.fired(),
            BridgeInput::Teardown => self.fired(),
            BridgeInput::Datagram(d) => if self.shut_down {
                (self, BridgeOutput::Stop)
            } else if d.len() == 0 {
                (self, BridgeOutput::Idle)
            } else {
                (self, BridgeOutput::SendOutbound(d))
            },
            BridgeInput::ReceiveFailed => if self.shut_down {
                (self, BridgeOutput::Stop)
            } else {
                (BridgeView { shut_down: true }, BridgeOutput::Fire)
            },
        }
    }

    /// The state after a sequence of inputs.
    pub open spec fn replay(self, inputs: Seq<BridgeInput>) -> BridgeView
        decreases inputs.len(),
    {
        if inputs.len() == 0 {
            self
        } else {
            self.replay(inputs.drop_last()).step(inputs.last()).0
        }
    }

    /// What the `i`-th input of `inputs` asks for.
    pub open spec fn output_at(self, inputs: Seq<BridgeInput>, i: int) -> BridgeOutput {
        self.replay(inputs.take(i)).step(inputs[i]).1
    }
}

/// What the bridge asks the caller to do.
pub enum BridgeAction {
    /// Send these bytes as one UDP datagram to the game server.
    SendUdp(Vec<u8>),
    /// Send these bytes as one message on the outbound channel.
    SendOutbound(bytes::Bytes),
    /// Nothing to do.
    Idle,
    /// Fire the shutdown signal now; stop receiving datagrams.
    Fire,
    /// Stop receiving datagrams; the signal has already fired.
    Stop,
}

impl BridgeAction {
    pub open spec fn view(self) -> BridgeOutput {
        match self {
            BridgeAction::SendUdp(v) => BridgeOutput::SendUdp(v@),
            BridgeAction::SendOutbound(b) => BridgeOutput::SendOutbound(bytes_contents(b)),
            BridgeAction::Idle => BridgeOutput::Idle,
            BridgeAction::Fire => BridgeOutput::Fire,
            BridgeAction::Stop => BridgeOutput::Stop,
        }
    }

    /// Whether the datagram direction goes on after this action.
    pub fn keeps_receiving(&self) -> (r: bool)
        ensures
            r == !(self.view() is Fire || self.view() is Stop),
    {
        match self {
            BridgeAction::Fire => false,
            BridgeAction::Stop => false,
            _ => true,
        }
    }
}

/// The outcome of one UDP receive into the bridge's buffer.
pub enum Received {
    /// This many bytes at the start of the buffer were received.
    Datagram(usize),
    /// The receive failed.
    Failed,
}

/// One session's bridge: it decides, for each event, what is sent where.
pub struct Bridge {
    shut_down: bool,
}

impl View for Bridge {
    type V = BridgeView;

    closed spec fn view(&self) -> BridgeView {
        BridgeView { shut_down: self.shut_down }
    }
}

impl Bridge {
    /// A bridge whose shutdown signal has not fired.
    pub fn new() -> (b: Self)
        ensures
            b@ == (BridgeView { shut_down: false }),
    {
        Bridge { shut_down: false }
    }

    /// Whether the shutdown signal has fired.
    pub fn is_shut_down(&self) -> (r: bool)
        ensures
            r == self@.shut_down,
    {
        self.shut_down
    }

    fn fire(&mut self) -> (a: BridgeAction)
        ensures
            (final(self)@, a.view()) == old(self)@.fired(),
    {
        if self.shut_down {
            BridgeAction::Idle
        } else {
            self.shut_down = true;
            BridgeAction::Fire
        }
    }

    /// Asks the bridge to stop, on session teardown. Firing a second time, by
    /// this or another trigger, does nothing.
    pub fn shutdown(&mut self) -> (a: BridgeAction)
        ensures
            (final(self)@, a.view()) == old(self)@.step(BridgeInput::Teardown),
    {
        self.fire()
    }

    /// The inbound channel closed: fatal to the bridge.
    pub fn on_inbound_closed(&mut self) -> (a: BridgeAction)
        ensures
            (final(self)@, a.view()) == old(self)@.step(BridgeInput::InboundClosed),
    {
        self.fire()
    }

    /// The inbound channel reported an error: fatal to the bridge.
    pub fn on_inbound_error(&mut self) -> (a: BridgeAction)
        ensures
            (final(self)@, a.view()) == old(self)@.step(BridgeInput::InboundError),
    {
        self.fire()
    }

    /// A message arrived on the inbound channel: its bytes go to the game
    /// server as one datagram, unchanged. A failed send is the caller's to
    /// log; it does not stop the bridge.
    pub fn on_inbound_message(&self, data: &[u8]) -> (a: BridgeAction)
        ensures
            a.view() == self@.step(BridgeInput::InboundMessage(data@)).1,
    {
        if self.shut_down {
            BridgeAction::Idle
        } else {
            BridgeAction::SendUdp(slice_to_vec(data))
        }
    }

    /// A UDP receive into `buf` finished: a non-empty datagram goes to the
    /// browser as one message, unchanged; an empty one is skipped; a failed
    /// receive ends the datagram direction and fires the shutdown signal. A
    /// failed send on the outbound channel is the caller's to log; it does not
    /// stop the bridge.
    pub fn on_udp_receive(&mut self, buf: &[u8], outcome: Received) -> (a: BridgeAction)
        requires
            outcome matches Received::Datagram(n) ==> n <= buf@.len(),
        ensures
            match outcome {
                Received::Datagram(n) => {
                    &&& final(self)@ == old(self)@
                    &&& a.view() == old(self)@.step(
                        BridgeInput::Datagram(buf@.subrange(0, n as int)),
                    ).1
                },
                Received::Failed => (final(self)@, a.view()) == old(self)@.step(
                    BridgeInput::ReceiveFailed,
                ),
            },
    {
        if self.shut_down {
            return BridgeAction::Stop;
        }
        match outcome {
            Received::Datagram(n) => {
                if n == 0 {
                    BridgeAction::Idle
                } else {
                    BridgeAction::SendOutbound(copy_to_bytes(slice_subrange(buf, 0, n)))
                }
            },
            Received::Failed => self.fire(),
        }
    }
}

/// Each inbound message, while the bridge runs, becomes one UDP send of
/// exactly its bytes.
pub proof fn lemma_inbound_forwarded_unchanged(v: BridgeView, b: Seq<u8>)
    requires
        !v.shut_down,
    ensures
        v.step(BridgeInput::InboundMessage(b)) == (v, BridgeOutput::SendUdp(b)),
{
}

/// Each non-empty datagram, while the bridge runs, becomes one outbound
/// message of exactly its bytes; an empty one sends nothing.
pub proof fn lemma_datagram_forwarded_unchanged(v: BridgeView, d: Seq<u8>)
    requires
        !v.shut_down,
    ensures
        d.len() > 0 ==> v.step(BridgeInput::Datagram(d)) == (v, BridgeOutput::SendOutbound(d)),
        d.len() == 0 ==> v.step(BridgeInput::Datagram(d)) == (v, BridgeOutput::Idle),
{
}

/// Once the shutdown signal has fired, whatever follows: the bridge stays shut
/// down, never sends on either side, answers every datagram event with `Stop`,
/// and never fires the signal again.
pub proof fn lemma_quiet_after_shutdown(v: BridgeView, inputs: Seq<BridgeInput>)
    requires
        v.shut_down,
    ensures
        v.replay(inputs) == v,
        forall|i: int|
            0 <= i < inputs.len() ==> {
                let out = #[trigger] v.output_at(inputs, i);
                &&& !(out is SendUdp || out is SendOutbound || out is Fire)
                &&& (inputs[i] is Datagram || inputs[i] is ReceiveFailed) ==> out is Stop
            },
    decreases inputs.len(),
{
    if inputs.len() > 0 {
        lemma_quiet_after_shutdown(v, inputs.drop_last());
        assert forall|i: int| 0 <= i < inputs.len() implies {
            let out = #[trigger] v.output_at(inputs, i);
            &&& !(out is SendUdp || out is SendOutbound || out is Fire)
            &&& (inputs[i] is Datagram || inputs[i] is ReceiveFailed) ==> out is Stop
        } by {
            if i < inputs.len() - 1 {
                assert(inputs.take(i) == inputs.drop_last().take(i));
                assert(inputs[i] == inputs.drop_last()[i]);
                assert(v.output_at(inputs, i) == v.output_at(inputs.drop_last(), i));
            } else {
                assert(inputs.take(i) == inputs.drop_last());
            }
        }
    }
}

/// Firing the signal a second time, by any trigger, changes nothing.
pub proof fn lemma_second_fire_is_noop(v: BridgeView, first: BridgeInput, second: BridgeInput)
    requires
        first is InboundClosed || first is InboundError || first is Teardown
            || first is ReceiveFailed,
        second is InboundClosed || second is InboundError || second is Teardown,
    ensures
        ({
            let after = v.step(first).0;
            after.shut_down && after.step(second) == (after, BridgeOutput::Idle)
        }),
{
}

} // verus!
