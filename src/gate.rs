//! The channel-ready gate: two independent "channel opened" events become a
//! single "both ready" trigger, exactly once.

use vstd::prelude::*;

verus! {

/// One of the two data channels of a session.
#[derive(Clone, Copy, Debug, PartialEq, Eq, Structural)]
pub enum ChannelRole {
    /// The "write" channel: server to browser.
    Outbound,
    /// The "read" channel: browser to server.
    Inbound,
}

impl ChannelRole {
    /// The other channel of the pair.
    pub open spec fn partner(self) -> ChannelRole {
        match self {
            ChannelRole::Outbound => ChannelRole::Inbound,
            ChannelRole::Inbound => ChannelRole::Outbound,
        }
    }

    /// The label under which the channel is created on the peer connection.
    pub fn label(self) -> (r: &'static str)
        ensures
            r@ == self.spec_label(),
    {
        match self {
            ChannelRole::Outbound => "write",
            ChannelRole::Inbound => "read",
        }
    }

    pub open spec fn spec_label(self) -> Seq<char> {
        match self {
            ChannelRole::Outbound => "write"@,
            ChannelRole::Inbound => "read"@,
        }
    }
}

/// Which channels have been reported open.
pub struct GateView {
    pub outbound: bool,
    pub inbound: bool,
}

impl GateView {
    pub open spec fn fresh() -> GateView {
        GateView { outbound: false, inbound: false }
    }

    pub open spec fn opened(self, role: ChannelRole) -> bool {
        match role {
            ChannelRole::Outbound => self.outbound,
            ChannelRole::Inbound => self.inbound,
        }
    }

    /// The counter: how many distinct channels are open, in {0, 1, 2}.
    pub open spec fn count(self) -> nat {
        (if self.outbound { 1nat } else { 0nat }) + (if self.inbound { 1nat } else { 0nat })
    }

    pub open spec fn after_open(self, role: ChannelRole) -> GateView {
        match role {
            ChannelRole::Outbound => GateView { outbound: true, ..self },
            ChannelRole::Inbound => GateView { inbound: true, ..self },
        }
    }

    /// The open event of `role` is the one that moves the counter from 1 to 2.
    pub open spec fn starts_on(self, role: ChannelRole) -> bool {
        !self.opened(role) && self.opened(role.partner())
    }

    /// The state after a sequence of open events.
    pub open spec fn replay(self, events: Seq<ChannelRole>) -> GateView
        decreases events.len(),
    {
        if events.len() == 0 {
            self
        } else {
            self.replay(events.drop_last()).after_open(events.last())
        }
    }

    /// Whether the `i`-th event of `events` starts the bridge.
    pub open spec fn starts_at(self, events: Seq<ChannelRole>, i: int) -> bool {
        self.replay(events.take(i)).starts_on(events[i])
    }

    /// How many events of `events` start the bridge.
    pub open spec fn start_count(self, events: Seq<ChannelRole>) -> nat
        decreases events.len(),
    {
        if events.len() == 0 {
            0
        } else {
            self.start_count(events.drop_last()) + if self.starts_at(events, events.len() - 1) {
                1nat
            } else {
                0nat
            }
        }
    }
}

/// The channels that a bit set records as open: bit value 1 for the outbound
/// channel, 2 for the inbound one.
pub open spec fn bits_view(bits: u8) -> GateView {
    GateView { outbound: bits % 2 == 1, inbound: (bits / 2) % 2 == 1 }
}

/// The bit that stands for a channel in a bit set.
pub open spec fn role_bit(role: ChannelRole) -> u8 {
    match role {
        ChannelRole::Outbound => 1,
        ChannelRole::Inbound => 2,
    }
}

/// Setting a channel's bit records that channel as open and changes nothing
/// else. With an atomic fetch-or, each open event reads the bits as they stood
/// just ahead of its own write; exactly one channel's first event then starts
/// the bridge, whichever comes first.
pub proof fn lemma_bit_set_records_open(bits: u8, role: ChannelRole)
    ensures
        bits_view(bits | role_bit(role)) == bits_view(bits).after_open(role),
{
    let b = role_bit(role);
    assert((bits | 1u8) % 2 == 1 && ((bits | 1u8) / 2) % 2 == (bits / 2) % 2) by (bit_vector);
    assert((bits | 2u8) % 2 == bits % 2 && ((bits | 2u8) / 2) % 2 == 1) by (bit_vector);
}

/// Counts the open events of a session's two channels, once per channel.
pub struct ChannelOpenCounter {
    outbound_open: bool,
    inbound_open: bool,
}

impl View for ChannelOpenCounter {
    type V = GateView;

    closed spec fn view(&self) -> GateView {
        GateView { outbound: self.outbound_open, inbound: self.inbound_open }
    }
}

impl ChannelOpenCounter {
    /// A counter with no channel open.
    pub fn new() -> (c: Self)
        ensures
            c@ == GateView::fresh(),
    {
        ChannelOpenCounter { outbound_open: false, inbound_open: false }
    }

    /// The counter rebuilt from a bit set: bit value 1 for the outbound channel,
    /// 2 for the inbound one (see `open_bit`).
    pub fn from_bits(bits: u8) -> (c: Self)
        ensures
            c@ == bits_view(bits),
    {
        ChannelOpenCounter { outbound_open: bits % 2 == 1, inbound_open: (bits / 2) % 2 == 1 }
    }

    /// The bit that stands for `role` in the bit set that `from_bits` reads.
    pub fn open_bit(role: ChannelRole) -> (b: u8)
        ensures
            b == role_bit(role),
    {
        match role {
            ChannelRole::Outbound => 1,
            ChannelRole::Inbound => 2,
        }
    }

    /// How many distinct channels are open.
    pub fn count(&self) -> (n: u8)
        ensures
            n == self@.count(),
    {
        let a: u8 = if self.outbound_open { 1 } else { 0 };
        let b: u8 = if self.inbound_open { 1 } else { 0 };
        a + b
    }

    pub fn is_open(&self, role: ChannelRole) -> (r: bool)
        ensures
            r == self@.opened(role),
    {
        match role {
            ChannelRole::Outbound => self.outbound_open,
            ChannelRole::Inbound => self.inbound_open,
        }
    }

    /// Records the open event of `role`. Returns true exactly when this event
    /// moves the counter from 1 to 2, which is when the bridge must start.
    /// A repeated event for a channel already open changes nothing.
    pub fn record_open(&mut self, role: ChannelRole) -> (start: bool)
        ensures
            final(self)@ == old(self)@.after_open(role),
            start == old(self)@.starts_on(role),
            start <==> (old(self)@.count() == 1 && final(self)@.count() == 2),
    {
        let was_open = self.is_open(role);
        let before = self.count();
        match role {
            ChannelRole::Outbound => self.outbound_open = true,
            ChannelRole::Inbound => self.inbound_open = true,
        }
        !was_open && before == 1
    }
}

/// Replaying any events never closes a channel that was open.
proof fn lemma_replay_monotone(g: GateView, events: Seq<ChannelRole>, role: ChannelRole)
    requires
        g.opened(role),
    ensures
        g.replay(events).opened(role),
    decreases events.len(),
{
    if events.len() > 0 {
        lemma_replay_monotone(g, events.drop_last(), role);
    }
}

/// The state after a sequence of events from a fresh gate records exactly the
/// channels that occur in it.
proof fn lemma_replay_fresh(events: Seq<ChannelRole>, role: ChannelRole)
    ensures
        GateView::fresh().replay(events).opened(role) == events.contains(role),
    decreases events.len(),
{
    if events.len() > 0 {
        let init = events.drop_last();
        lemma_replay_fresh(init, role);
        if init.contains(role) {
            let j = choose|j: int| 0 <= j < init.len() && init[j] == role;
            assert(events[j] == role);
        }
        if events.contains(role) && events.last() != role {
            let j = choose|j: int| 0 <= j < events.len() && events[j] == role;
            assert(j < events.len() - 1);
            assert(init[j] == role);
        }
        if events.last() == role {
            assert(events[events.len() - 1] == role);
        }
    }
}

/// Whatever the order of the open events, including repeats: the bridge starts
/// exactly once when both channels have opened (never when one of them has
/// not), and any event that starts it comes when both channels have opened.
pub proof fn lemma_gate_starts_exactly_once(events: Seq<ChannelRole>)
    ensures
        GateView::fresh().start_count(events) == (if events.contains(ChannelRole::Outbound)
            && events.contains(ChannelRole::Inbound) {
            1nat
        } else {
            0nat
        }),
        forall|i: int|
            0 <= i < events.len() && #[trigger] GateView::fresh().starts_at(events, i) ==> {
                &&& events.take(i + 1).contains(ChannelRole::Outbound)
                &&& events.take(i + 1).contains(ChannelRole::Inbound)
            },
    decreases events.len(),
{
    let g = GateView::fresh();
    if events.len() > 0 {
        let init = events.drop_last();
        let last = events.last();
        let n = events.len() - 1;
        lemma_gate_starts_exactly_once(init);
        assert(events.take(n) == init);
        lemma_replay_fresh(init, ChannelRole::Outbound);
        lemma_replay_fresh(init, ChannelRole::Inbound);
        lemma_replay_fresh(events, ChannelRole::Outbound);
        lemma_replay_fresh(events, ChannelRole::Inbound);
        assert forall|i: int| 0 <= i < events.len() && #[trigger] g.starts_at(events, i) implies {
            &&& events.take(i + 1).contains(ChannelRole::Outbound)
            &&& events.take(i + 1).contains(ChannelRole::Inbound)
        } by {
            let pre = events.take(i);
            let r = events[i];
            lemma_replay_fresh(pre, r.partner());
            let j = choose|j: int| 0 <= j < pre.len() && pre[j] == r.partner();
            assert(events.take(i + 1)[j] == r.partner());
            assert(events.take(i + 1)[i] == r);
        }
    }
}

} // verus!
