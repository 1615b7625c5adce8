//! The data channel bridge of one peer: local stream connections take turns on
//! the peer's data channel, one bound at a time, the others waiting in order of
//! arrival. Bytes are moved by the caller; this decides where they may go.
use vstd::prelude::*;

verus! {

/// Size of the read buffer on either side of a binding, large enough for the
/// application-layer chunks that cross the tunnel.
pub const READ_BUFFER_SIZE: usize = 32768;

/// What happened on the tunnel. Connections are named by the caller's ids.
#[derive(Debug)]
pub enum BridgeEvent {
    /// A local connection was accepted.
    Accepted(u64),
    /// Bytes read from a local connection.
    LocalData { conn: u64, bytes: Vec<u8> },
    /// A local connection's outbound direction reached end of stream.
    LocalEnded(u64),
    /// Bytes read from the data channel while `conn` was bound.
    ChannelData { conn: u64, bytes: Vec<u8> },
    /// The data channel reached end of stream, or closed, while `conn` was bound.
    ChannelEnded(u64),
    /// Reading or writing failed on either side of `conn`'s binding.
    Failed(u64),
}

/// What the caller must do, in the order given.
#[derive(Debug)]
pub enum BridgeAction {
    /// Start relaying between this connection and the data channel.
    Start(u64),
    /// Write bytes to the data channel.
    WriteChannel(Vec<u8>),
    /// Flush the data channel. It stays open: the remote may still send.
    FlushChannel,
    /// Write bytes to a local connection.
    WriteLocal { conn: u64, bytes: Vec<u8> },
    /// Shut down the write side of a local connection.
    ShutdownLocalWrite(u64),
    /// The binding of this connection is over; drop the connection.
    Release(u64),
}

pub ghost enum BridgeEventView {
    Accepted(u64),
    LocalData { conn: u64, bytes: Seq<u8> },
    LocalEnded(u64),
    ChannelData { conn: u64, bytes: Seq<u8> },
    ChannelEnded(u64),
    Failed(u64),
}

pub ghost enum BridgeActionView {
    Start(u64),
    WriteChannel(Seq<u8>),
    FlushChannel,
    WriteLocal { conn: u64, bytes: Seq<u8> },
    ShutdownLocalWrite(u64),
    Release(u64),
}

impl View for BridgeEvent {
    type V = BridgeEventView;

    open spec fn view(&self) -> BridgeEventView {
        match self {
            BridgeEvent::Accepted(c) => BridgeEventView::Accepted(*c),
            BridgeEvent::LocalData { conn, bytes } => BridgeEventView::LocalData { conn: *conn, bytes: bytes@ },
            BridgeEvent::LocalEnded(c) => BridgeEventView::LocalEnded(*c),
            BridgeEvent::ChannelData { conn, bytes } => BridgeEventView::ChannelData { conn: *conn, bytes: bytes@ },
            BridgeEvent::ChannelEnded(c) => BridgeEventView::ChannelEnded(*c),
            BridgeEvent::Failed(c) => BridgeEventView::Failed(*c),
        }
    }
}

impl View for BridgeAction {
    type V = BridgeActionView;

    open spec fn view(&self) -> BridgeActionView {
        match self {
            BridgeAction::Start(c) => BridgeActionView::Start(*c),
            BridgeAction::WriteChannel(b) => BridgeActionView::WriteChannel(b@),
            BridgeAction::FlushChannel => BridgeActionView::FlushChannel,
            BridgeAction::WriteLocal { conn, bytes } => BridgeActionView::WriteLocal { conn: *conn, bytes: bytes@ },
            BridgeAction::ShutdownLocalWrite(c) => BridgeActionView::ShutdownLocalWrite(*c),
            BridgeAction::Release(c) => BridgeActionView::Release(*c),
        }
    }
}

pub ghost struct BridgeView {
    pub active: Option<u64>,
    pub to_channel_open: bool,
    pub waiting: Seq<u64>,
}

pub open spec fn bridge_actions_view(v: Seq<BridgeAction>) -> Seq<BridgeActionView> {
    v.map_values(|a: BridgeAction| a@)
}

/// After the binding ended: the oldest waiting connection is bound, if any.
pub open spec fn next_binding(waiting: Seq<u64>) -> (BridgeView, Seq<BridgeActionView>) {
    if waiting.len() == 0 {
        (BridgeView { active: None, to_channel_open: false, waiting }, Seq::empty())
    } else {
        (
            BridgeView { active: Some(waiting[0]), to_channel_open: true, waiting: waiting.drop_first() },
            seq![BridgeActionView::Start(waiting[0])],
        )
    }
}

pub open spec fn bound(s: BridgeView, c: u64) -> bool {
    s.active == Some(c)
}

/// The next bridge state and the actions, for one event.
pub open spec fn bridge_step(s: BridgeView, e: BridgeEventView) -> (BridgeView, Seq<BridgeActionView>) {
    let same = (s, Seq::<BridgeActionView>::empty());
    match e {
        BridgeEventView::Accepted(c) => if s.active is None {
            (BridgeView { active: Some(c), to_channel_open: true, waiting: s.waiting }, seq![BridgeActionView::Start(c)])
        } else {
            (BridgeView { waiting: s.waiting.push(c), ..s }, Seq::empty())
        },
        BridgeEventView::LocalData { conn, bytes } => if bound(s, conn) && s.to_channel_open {
            (s, seq![BridgeActionView::WriteChannel(bytes)])
        } else {
            same
        },
        BridgeEventView::LocalEnded(c) => if bound(s, c) && s.to_channel_open {
            (BridgeView { to_channel_open: false, ..s }, seq![BridgeActionView::FlushChannel])
        } else {
            same
        },
        BridgeEventView::ChannelData { conn, bytes } => if bound(s, conn) {
            (s, seq![BridgeActionView::WriteLocal { conn, bytes }])
        } else {
            same
        },
        BridgeEventView::ChannelEnded(c) => if bound(s, c) {
            let (s1, start) = next_binding(s.waiting);
            (s1, seq![BridgeActionView::ShutdownLocalWrite(c), BridgeActionView::Release(c)] + start)
        } else {
            same
        },
        BridgeEventView::Failed(c) => if bound(s, c) {
            let (s1, start) = next_binding(s.waiting);
            (s1, seq![BridgeActionView::Release(c)] + start)
        } else {
            same
        },
    }
}

/// The bridge of one peer's data channel.
pub struct Bridge {
    pub active: Option<u64>,
    pub to_channel_open: bool,
    pub waiting: Vec<u64>,
}

impl View for Bridge {
    type V = BridgeView;

    open spec fn view(&self) -> BridgeView {
        BridgeView { active: self.active, to_channel_open: self.to_channel_open, waiting: self.waiting@ }
    }
}

impl Bridge {
    /// A bridge with nothing bound and nobody waiting.
    pub fn new() -> (r: Bridge)
        ensures
            r@ == (BridgeView { active: None, to_channel_open: false, waiting: Seq::empty() }),
    {
        Bridge { active: None, to_channel_open: false, waiting: Vec::new() }
    }

    /// The connection bound now, if any.
    pub fn active(&self) -> (r: Option<u64>)
        ensures
            r == self@.active,
    {
        self.active
    }

    fn is_bound(&self, c: u64) -> (r: bool)
        ensures
            r == bound(self@, c),
    {
        match self.active {
            Some(a) => a == c,
            None => false,
        }
    }

    fn advance(&mut self, out: &mut Vec<BridgeAction>)
        ensures
            ({
                let (s1, start) = next_binding(old(self)@.waiting);
                final(self)@ == s1 && bridge_actions_view(final(out)@) == bridge_actions_view(old(out)@) + start
            }),
    {
        let ghost o = out@;
        if self.waiting.len() == 0 {
            self.active = None;
            self.to_channel_open = false;
            assert(bridge_actions_view(out@) =~= bridge_actions_view(o) + Seq::<BridgeActionView>::empty());
        } else {
            let ghost w = self.waiting@;
            let c = self.waiting.remove(0);
            self.active = Some(c);
            self.to_channel_open = true;
            out.push(BridgeAction::Start(c));
            assert(self.waiting@ =~= w.drop_first());
            assert(bridge_actions_view(out@) =~= bridge_actions_view(o) + seq![BridgeActionView::Start(c)]);
        }
    }

    /// Processes one event and returns the actions to perform, in order.
    pub fn handle(&mut self, event: BridgeEvent) -> (r: Vec<BridgeAction>)
        ensures
            (final(self)@, bridge_actions_view(r@)) == bridge_step(old(self)@, event@),
    {
        let mut out: Vec<BridgeAction> = Vec::new();
        assert(bridge_actions_view(out@) =~= Seq::<BridgeActionView>::empty());
        match event {
            BridgeEvent::Accepted(c) => {
                if self.active.is_none() {
                    self.active = Some(c);
                    self.to_channel_open = true;
                    out.push(BridgeAction::Start(c));
                    assert(bridge_actions_view(out@) =~= seq![BridgeActionView::Start(c)]);
                } else {
                    self.waiting.push(c);
                }
            },
            BridgeEvent::LocalData { conn, bytes } => {
                if self.is_bound(conn) && self.to_channel_open {
                    let ghost b = bytes@;
                    out.push(BridgeAction::WriteChannel(bytes));
                    assert(bridge_actions_view(out@) =~= seq![BridgeActionView::WriteChannel(b)]);
                }
            },
            BridgeEvent::LocalEnded(c) => {
                if self.is_bound(c) && self.to_channel_open {
                    self.to_channel_open = false;
                    out.push(BridgeAction::FlushChannel);
                    assert(bridge_actions_view(out@) =~= seq![BridgeActionView::FlushChannel]);
                }
            },
            BridgeEvent::ChannelData { conn, bytes } => {
                if self.is_bound(conn) {
                    let ghost b = bytes@;
                    out.push(BridgeAction::WriteLocal { conn, bytes });
                    assert(bridge_actions_view(out@) =~= seq![BridgeActionView::WriteLocal { conn, bytes: b }]);
                }
            },
            BridgeEvent::ChannelEnded(c) => {
                if self.is_bound(c) {
                    out.push(BridgeAction::ShutdownLocalWrite(c));
                    out.push(BridgeAction::Release(c));
                    assert(bridge_actions_view(out@) =~= seq![
                        BridgeActionView::ShutdownLocalWrite(c),
                        BridgeActionView::Release(c),
                    ]);
                    self.advance(&mut out);
                }
            },
            BridgeEvent::Failed(c) => {
                if self.is_bound(c) {
                    out.push(BridgeAction::Release(c));
                    assert(bridge_actions_view(out@) =~= seq![BridgeActionView::Release(c)]);
                    self.advance(&mut out);
                }
            },
        }
        out
    }
}

/// Only the bound connection's bytes reach the data channel, and a connection
/// is bound only while no other is: a new binding starts after the previous
/// one's release, in the same batch of actions.
pub proof fn lemma_one_binding_at_a_time(s: BridgeView, e: BridgeEventView)
    ensures
        ({
            let out = bridge_step(s, e).1;
            &&& forall|i: int| 0 <= i < out.len() && #[trigger] out[i] is WriteChannel ==> (e matches
                BridgeEventView::LocalData { conn, .. } && s.active == Some(conn) && s.to_channel_open)
            &&& forall|i: int| 0 <= i < out.len() && #[trigger] out[i] is Start ==> (s.active is None || (exists|
                j: int| 0 <= j < i && out[j] == BridgeActionView::Release(s.active->0)))
        }),
{
    let out = bridge_step(s, e).1;
    assert forall|i: int| 0 <= i < out.len() && #[trigger] out[i] is Start implies (s.active is None || (exists|
        j: int| 0 <= j < i && out[j] == BridgeActionView::Release(s.active->0))) by {
        match e {
            BridgeEventView::ChannelEnded(c) => {
                if bound(s, c) {
                    assert(out[1] == BridgeActionView::Release(c));
                }
            },
            BridgeEventView::Failed(c) => {
                if bound(s, c) {
                    assert(out[0] == BridgeActionView::Release(c));
                }
            },
            _ => {},
        }
    }
}

/// When the bound connection's outbound direction ends, the channel is only
/// flushed, never closed; the binding stays, and bytes from the channel keep
/// going to the connection.
pub proof fn lemma_half_close_keeps_delivering(s: BridgeView, c: u64, bytes: Seq<u8>)
    requires
        s.active == Some(c),
        s.to_channel_open,
    ensures
        ({
            let (s1, out) = bridge_step(s, BridgeEventView::LocalEnded(c));
            &&& out == seq![BridgeActionView::FlushChannel]
            &&& s1.active == Some(c)
            &&& bridge_step(s1, BridgeEventView::ChannelData { conn: c, bytes }) == (
                s1,
                seq![BridgeActionView::WriteLocal { conn: c, bytes }],
            )
        }),
{
}

} // verus!
