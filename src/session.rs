use vstd::prelude::*;

use crate::common::command::{Command, CommandKind};
use crate::common::method::NO_AUTH;
use crate::common::{DestAddr, DestAddrView, SocketAddr, SOCKS5};
use crate::error::{reply_code, Error, IoFailure, Repr, Socks5ErrorKind};
use crate::server::{
    greeting_spec, parse_client_methods, parse_client_request, reply_spec, request_spec, Reply,
};

verus! {

/// Where a connection stands in the handshake.
#[derive(Clone, Copy, Debug, PartialEq, Eq, Structural)]
pub enum Phase {
    AwaitingGreeting,
    AwaitingRequest,
    Resolving,
    Dialing,
    Relaying,
    Closed,
    Failed,
}

/// What the transport reports back to a connection.
#[derive(Clone, Debug, PartialEq, Eq)]
pub enum Event {
    /// Bytes read from the client.
    Received(Vec<u8>),
    /// The addresses the destination name resolved to, in the resolver's
    /// order; empty when resolution failed.
    Resolved(Vec<SocketAddr>),
    /// The outbound connection is open; this is its local address.
    Connected(SocketAddr),
    /// The outbound connection could not be opened.
    ConnectFailed(IoFailure),
    /// The client went away, or the relay stopped in both directions.
    Ended,
}

pub enum EventView {
    Received(Seq<u8>),
    Resolved(Seq<SocketAddr>),
    Connected(SocketAddr),
    ConnectFailed(IoFailure),
    Ended,
}

impl View for Event {
    type V = EventView;

    open spec fn view(&self) -> EventView {
        match self {
            Event::Received(b) => EventView::Received(b@),
            Event::Resolved(l) => EventView::Resolved(l@),
            Event::Connected(a) => EventView::Connected(*a),
            Event::ConnectFailed(f) => EventView::ConnectFailed(*f),
            Event::Ended => EventView::Ended,
        }
    }
}

/// What the transport is asked to do next.
#[derive(Clone, Debug, PartialEq, Eq)]
pub enum Action {
    /// Write these bytes to the client, flush, and read the next message.
    Send(Vec<u8>),
    /// Resolve this `host:port` text.
    Resolve(Vec<u8>),
    /// Open an outbound connection to this address.
    Connect(SocketAddr),
    /// Write these bytes to the client, flush, then relay in both directions.
    SendThenRelay(Vec<u8>),
    /// Write these bytes to the client (failures ignored), then close.
    SendThenClose(Vec<u8>),
    /// Close the connection.
    Close,
}

pub enum ActionView {
    Send(Seq<u8>),
    Resolve(Seq<u8>),
    Connect((Seq<u8>, u16)),
    SendThenRelay(Seq<u8>),
    SendThenClose(Seq<u8>),
    Close,
}

impl View for Action {
    type V = ActionView;

    open spec fn view(&self) -> ActionView {
        match self {
            Action::Send(b) => ActionView::Send(b@),
            Action::Resolve(h) => ActionView::Resolve(h@),
            Action::Connect(a) => ActionView::Connect(a@),
            Action::SendThenRelay(b) => ActionView::SendThenRelay(b@),
            Action::SendThenClose(b) => ActionView::SendThenClose(b@),
            Action::Close => ActionView::Close,
        }
    }
}

/// The decimal digits of `n`, as ASCII bytes.
pub open spec fn decimal(n: nat) -> Seq<u8>
    decreases n,
{
    if n < 10 {
        seq![(0x30 + n) as u8]
    } else {
        decimal(n / 10).push((0x30 + n % 10) as u8)
    }
}

/// `host:port` as bytes.
pub open spec fn host_and_port(host: Seq<u8>, port: u16) -> Seq<u8> {
    host.push(0x3a) + decimal(port as nat)
}

/// The action that ends a failed connection: a reply with the error's code
/// when a local address is known to report, else a plain close.
pub open spec fn failure_action(local: Option<SocketAddr>, e: Repr) -> ActionView {
    match local {
        Some(a) => ActionView::SendThenClose(reply_spec(reply_code(e), a)),
        None => ActionView::Close,
    }
}

/// The next phase and the action for an event.
pub open spec fn next(phase: Phase, local: Option<SocketAddr>, ev: EventView) -> (Phase, ActionView) {
    match phase {
        Phase::AwaitingGreeting => match ev {
            EventView::Received(b) => match greeting_spec(b) {
                Ok((_, methods)) => if methods.contains(NO_AUTH) {
                    (Phase::AwaitingRequest, ActionView::Send(seq![SOCKS5, NO_AUTH]))
                } else {
                    (Phase::Failed, ActionView::Close)
                },
                Err(_) => (Phase::Failed, ActionView::Close),
            },
            _ => (Phase::Failed, ActionView::Close),
        },
        Phase::AwaitingRequest => match ev {
            EventView::Received(b) => match request_spec(b) {
                Err(e) => (Phase::Failed, failure_action(local, e)),
                Ok((_, c)) => if c.kind == CommandKind::Connect {
                    match c.request.dest_addr {
                        DestAddrView::FQDN(d) => (
                            Phase::Resolving,
                            ActionView::Resolve(host_and_port(d, c.request.dest_port)),
                        ),
                        DestAddrView::IP(a) => (
                            Phase::Dialing,
                            ActionView::Connect((a, c.request.dest_port)),
                        ),
                    }
                } else {
                    (Phase::Closed, ActionView::Close)
                },
            },
            _ => (Phase::Failed, ActionView::Close),
        },
        Phase::Resolving => match ev {
            EventView::Resolved(l) => if l.len() == 0 {
                (Phase::Failed, failure_action(local, Repr::Socks5(Socks5ErrorKind::HostUnreachable)))
            } else {
                (Phase::Dialing, ActionView::Connect(l[0]@))
            },
            _ => (Phase::Failed, ActionView::Close),
        },
        Phase::Dialing => match ev {
            EventView::Connected(out) => (Phase::Relaying, ActionView::SendThenRelay(reply_spec(0x00, out))),
            EventView::ConnectFailed(f) => (Phase::Failed, failure_action(local, Repr::IO(f))),
            _ => (Phase::Failed, ActionView::Close),
        },
        Phase::Relaying => match ev {
            EventView::Ended => (Phase::Closed, ActionView::Close),
            _ => (Phase::Failed, ActionView::Close),
        },
        Phase::Closed => (Phase::Closed, ActionView::Close),
        Phase::Failed => (Phase::Failed, ActionView::Close),
    }
}

/// Appends the decimal digits of `n` to `out`.
fn push_decimal(out: &mut Vec<u8>, n: u16)
    ensures
        final(out)@ == old(out)@ + decimal(n as nat),
    decreases n,
{
    if n >= 10 {
        push_decimal(out, n / 10);
    }
    out.push(0x30 + (n % 10) as u8);
    proof {
        assert(final(out)@ =~= old(out)@ + decimal(n as nat));
    }
}

/// Joins a host name and a port as `host:port`, the form a resolver takes.
pub fn join_host_and_port(host: &[u8], port: u16) -> (r: Vec<u8>)
    ensures
        r@ == host_and_port(host@, port),
{
    let mut s: Vec<u8> = Vec::new();
    let mut i: usize = 0;
    while i < host.len()
        invariant
            0 <= i <= host@.len(),
            s@ == host@.subrange(0, i as int),
        decreases host@.len() - i,
    {
        s.push(host[i]);
        proof {
            assert(host@.subrange(0, i + 1) =~= host@.subrange(0, i as int).push(host@[i as int]));
        }
        i = i + 1;
    }
    proof {
        assert(host@.subrange(0, host@.len() as int) =~= host@);
    }
    s.push(0x3a);
    push_decimal(&mut s, port);
    s
}

/// Whether `methods` offers method `m`.
fn offers(methods: &Vec<u8>, m: u8) -> (r: bool)
    ensures
        r == methods@.contains(m),
{
    let mut i: usize = 0;
    while i < methods.len()
        invariant
            0 <= i <= methods@.len(),
            forall|j: int| 0 <= j < i ==> methods@[j] != m,
        decreases methods@.len() - i,
    {
        if methods[i] == m {
            return true;
        }
        i = i + 1;
    }
    false
}

/// One client connection, driven through the handshake by the events the
/// transport reports.
pub struct Session {
    /// Where the connection stands.
    pub phase: Phase,
    /// The local address of the client connection, reported in error replies.
    pub local: Option<SocketAddr>,
}

impl Session {
    /// A connection that waits for the client's greeting.
    pub fn new(local: Option<SocketAddr>) -> (s: Session)
        ensures
            s.phase == Phase::AwaitingGreeting,
            s.local == local,
    {
        Session { phase: Phase::AwaitingGreeting, local }
    }

    fn fail(&mut self, e: Error) -> (a: Action)
        ensures
            final(self).phase == Phase::Failed,
            final(self).local == old(self).local,
            a@ == failure_action(old(self).local, e.repr),
    {
        self.phase = Phase::Failed;
        match self.local {
            Some(addr) => Action::SendThenClose(Reply::new(Some(e), addr)),
            None => Action::Close,
        }
    }

    fn close(&mut self, phase: Phase) -> (a: Action)
        ensures
            final(self).phase == phase,
            final(self).local == old(self).local,
            a@ == ActionView::Close,
    {
        self.phase = phase;
        Action::Close
    }

    /// Takes the next event, moves to the next phase and says what to do.
    pub fn step(&mut self, event: Event) -> (a: Action)
        ensures
            (final(self).phase, a@) == next(old(self).phase, old(self).local, event@),
            final(self).local == old(self).local,
    {
        match self.phase {
            Phase::AwaitingGreeting => match event {
                Event::Received(b) => match parse_client_methods(b.as_slice()) {
                    Ok((_, methods)) => if offers(&methods, NO_AUTH) {
                        self.phase = Phase::AwaitingRequest;
                        let reply: Vec<u8> = vec![SOCKS5, NO_AUTH];
                        proof {
                            assert(reply@ =~= seq![SOCKS5, NO_AUTH]);
                        }
                        Action::Send(reply)
                    } else {
                        self.close(Phase::Failed)
                    },
                    Err(_) => self.close(Phase::Failed),
                },
                _ => self.close(Phase::Failed),
            },
            Phase::AwaitingRequest => match event {
                Event::Received(b) => match parse_client_request(b.as_slice()) {
                    Err(e) => self.fail(e),
                    Ok((_, Command::Connect(r))) => match r.dest_addr {
                        DestAddr::FQDN(d) => {
                            self.phase = Phase::Resolving;
                            Action::Resolve(join_host_and_port(d.as_slice(), r.dest_port))
                        },
                        DestAddr::IP(ip) => {
                            self.phase = Phase::Dialing;
                            Action::Connect(SocketAddr::new(ip, r.dest_port))
                        },
                    },
                    Ok(_) => self.close(Phase::Closed),
                },
                _ => self.close(Phase::Failed),
            },
            Phase::Resolving => match event {
                Event::Resolved(l) => if l.len() == 0 {
                    self.fail(Error::from(Socks5ErrorKind::HostUnreachable))
                } else {
                    self.phase = Phase::Dialing;
                    Action::Connect(l[0])
                },
                _ => self.close(Phase::Failed),
            },
            Phase::Dialing => match event {
                Event::Connected(out) => {
                    self.phase = Phase::Relaying;
                    Action::SendThenRelay(Reply::new(None, out))
                },
                Event::ConnectFailed(f) => self.fail(Error::from(f)),
                _ => self.close(Phase::Failed),
            },
            Phase::Relaying => match event {
                Event::Ended => self.close(Phase::Closed),
                _ => self.close(Phase::Failed),
            },
            Phase::Closed => self.close(Phase::Closed),
            Phase::Failed => self.close(Phase::Failed),
        }
    }
}

/// A connection that has closed or failed stays so: every later event
/// leaves it in that phase and only closes.
pub proof fn lemma_terminal_phases_absorb(phase: Phase, local: Option<SocketAddr>, ev: EventView)
    requires
        phase == Phase::Closed || phase == Phase::Failed,
    ensures
        next(phase, local, ev) == (phase, ActionView::Close),
{
}

} // verus!
