//! The decisions of one control channel on the rendezvous server.
//!
//! The driver of a channel waits on three sources (a frame from the wire,
//! a frame from its inbox, the shutdown signal) and on the directory. Each
//! thing that happens is a `ChannelEvent`; `step` decides the next state
//! and the actions the driver must carry out, in order.
use crate::server::cache::{released, Directory};
use crate::frame::{opt_view, ConnectionInfo, Message, RegisterInfo, SubscribeInfo};
use vstd::prelude::*;

verus! {

/// Where a frame came from.
#[derive(Debug)]
pub enum FrameType {
    /// Read from this channel's own transport.
    Socket(Message),
    /// Queued on this channel's inbox by another session.
    Handler(Message),
}

/// Something the driver of a channel observed.
#[derive(Debug)]
pub enum ChannelEvent {
    Received(FrameType),
    /// The answer to the last `Lookup`: whether the tag was found.
    Lookup(bool),
    /// The registrant's channel arrived on the inbox, ready to be spliced.
    TargetArrived,
    /// The handshake deadline passed.
    TimedOut,
    /// The transport or the inbox closed.
    Closed,
    Shutdown,
}

/// Why a channel was closed.
#[derive(Debug)]
pub enum CloseReason {
    /// A frame that the current state does not accept.
    Protocol,
    /// A splice request named a tag that is not in the directory.
    UnknownTag(String),
    Timeout,
    PeerGone,
    Shutdown,
}

/// Where a control channel stands.
#[derive(Debug)]
pub enum ChannelState {
    Fresh,
    /// Registered under this tag.
    Registered(String),
    /// A `Connection` came in; the lookup of its target tag is pending.
    AwaitingTarget(ConnectionInfo),
    /// A `TargetConnection` came in; the lookup of its source tag is pending.
    AwaitingSource(ConnectionInfo),
    /// Waiting, under this source tag, for the registrant's channel.
    PairingAsAgent(String),
    Subscribing,
    /// Out of the control protocol: all further bytes are payload.
    Splicing,
    Closed,
}

/// What the driver must do.
#[derive(Debug)]
pub enum Action {
    /// Write a frame on this channel.
    Write(Message),
    /// Look a tag up in the directory; the answer comes as `Lookup`.
    Lookup(String),
    /// Enter this channel, owner of the entry under the given id, in the
    /// directory as the registrant of the tag.
    InsertRegistrant(RegisterInfo, u64),
    /// Enter this channel, owner of the entry under the given id, in the
    /// directory under a source tag, so that the registrant's returning
    /// channel can find it.
    InsertWaiting(String, u64),
    /// Remove a tag from the directory, whichever channel owns its entry.
    Remove(String),
    /// Remove a tag from the directory only while its entry is owned by
    /// the given id: an entry that a later channel put there stays.
    Release(String, u64),
    /// Queue a frame on the inbox of the entry found by the last lookup.
    Forward(Message),
    /// Hand this channel's transport to the entry found by the last lookup.
    HandOver,
    /// Start the task that pings this registrant's inbox.
    StartKeepAlive(String),
    /// Start the task that answers a subscription periodically.
    StartSubscription(SubscribeInfo),
    /// Splice this channel with the one that arrived.
    Splice,
    Close(CloseReason),
}

pub ghost enum StateModel {
    Fresh,
    Registered(Seq<char>),
    AwaitingTarget(ConnectionInfo),
    AwaitingSource(ConnectionInfo),
    PairingAsAgent(Seq<char>),
    Subscribing,
    Splicing,
    Closed,
}

pub ghost enum ReasonModel {
    Protocol,
    UnknownTag(Seq<char>),
    Timeout,
    PeerGone,
    Shutdown,
}

pub ghost enum ActionModel {
    Write(Message),
    Lookup(Seq<char>),
    InsertRegistrant(RegisterInfo, u64),
    InsertWaiting(Seq<char>, u64),
    Remove(Seq<char>),
    Release(Seq<char>, u64),
    Forward(Message),
    HandOver,
    StartKeepAlive(Seq<char>),
    StartSubscription(SubscribeInfo),
    Splice,
    Close(ReasonModel),
}

impl View for ChannelState {
    type V = StateModel;

    open spec fn view(&self) -> StateModel {
        match self {
            ChannelState::Fresh => StateModel::Fresh,
            ChannelState::Registered(t) => StateModel::Registered(t@),
            ChannelState::AwaitingTarget(ci) => StateModel::AwaitingTarget(*ci),
            ChannelState::AwaitingSource(ci) => StateModel::AwaitingSource(*ci),
            ChannelState::PairingAsAgent(t) => StateModel::PairingAsAgent(t@),
            ChannelState::Subscribing => StateModel::Subscribing,
            ChannelState::Splicing => StateModel::Splicing,
            ChannelState::Closed => StateModel::Closed,
        }
    }
}

impl View for CloseReason {
    type V = ReasonModel;

    open spec fn view(&self) -> ReasonModel {
        match self {
            CloseReason::Protocol => ReasonModel::Protocol,
            CloseReason::UnknownTag(t) => ReasonModel::UnknownTag(t@),
            CloseReason::Timeout => ReasonModel::Timeout,
            CloseReason::PeerGone => ReasonModel::PeerGone,
            CloseReason::Shutdown => ReasonModel::Shutdown,
        }
    }
}

impl View for Action {
    type V = ActionModel;

    open spec fn view(&self) -> ActionModel {
        match self {
            Action::Write(m) => ActionModel::Write(*m),
            Action::Lookup(t) => ActionModel::Lookup(t@),
            Action::InsertRegistrant(i, o) => ActionModel::InsertRegistrant(*i, *o),
            Action::InsertWaiting(t, o) => ActionModel::InsertWaiting(t@, *o),
            Action::Remove(t) => ActionModel::Remove(t@),
            Action::Release(t, o) => ActionModel::Release(t@, *o),
            Action::Forward(m) => ActionModel::Forward(*m),
            Action::HandOver => ActionModel::HandOver,
            Action::StartKeepAlive(t) => ActionModel::StartKeepAlive(t@),
            Action::StartSubscription(s) => ActionModel::StartSubscription(*s),
            Action::Splice => ActionModel::Splice,
            Action::Close(r) => ActionModel::Close(r@),
        }
    }
}

/// The views of a list of actions.
pub open spec fn actions_view(v: Seq<Action>) -> Seq<ActionModel> {
    v.map_values(|a: Action| a@)
}

/// A protocol error: close the channel.
pub open spec fn protocol_error() -> (StateModel, Seq<ActionModel>) {
    (StateModel::Closed, seq![ActionModel::Close(ReasonModel::Protocol)])
}

/// A protocol error while this channel holds a tag in the directory:
/// release it, then close.
pub open spec fn protocol_error_holding(tag: Seq<char>, id: u64) -> (StateModel, Seq<ActionModel>) {
    (StateModel::Closed, seq![ActionModel::Release(tag, id), ActionModel::Close(ReasonModel::Protocol)])
}

/// The same state, nothing to do.
pub open spec fn stay(s: ChannelState) -> (StateModel, Seq<ActionModel>) {
    (s@, Seq::empty())
}

/// The next state of the channel `id` and the actions to take, for each
/// state and event.
pub open spec fn next(id: u64, s: ChannelState, e: ChannelEvent) -> (StateModel, Seq<ActionModel>) {
    match e {
        ChannelEvent::Shutdown => match s {
            ChannelState::Splicing | ChannelState::Closed => stay(s),
            ChannelState::Registered(t) | ChannelState::PairingAsAgent(t) => (
                StateModel::Closed,
                seq![ActionModel::Release(t@, id), ActionModel::Close(ReasonModel::Shutdown)],
            ),
            _ => (StateModel::Closed, seq![ActionModel::Close(ReasonModel::Shutdown)]),
        },
        ChannelEvent::Closed => match s {
            ChannelState::Splicing | ChannelState::Closed => stay(s),
            ChannelState::Registered(t) | ChannelState::PairingAsAgent(t) => (
                StateModel::Closed,
                seq![ActionModel::Release(t@, id), ActionModel::Close(ReasonModel::PeerGone)],
            ),
            _ => (StateModel::Closed, seq![ActionModel::Close(ReasonModel::PeerGone)]),
        },
        ChannelEvent::TimedOut => match s {
            ChannelState::AwaitingTarget(_) | ChannelState::AwaitingSource(_) => (
                StateModel::Closed,
                seq![ActionModel::Close(ReasonModel::Timeout)],
            ),
            ChannelState::PairingAsAgent(t) => (
                StateModel::Closed,
                seq![ActionModel::Release(t@, id), ActionModel::Close(ReasonModel::Timeout)],
            ),
            _ => stay(s),
        },
        ChannelEvent::Lookup(found) => match s {
            ChannelState::AwaitingTarget(ci) => if found {
                (
                    StateModel::PairingAsAgent(ci.source_tag()),
                    seq![
                        ActionModel::InsertWaiting(ci.source_tag(), id),
                        ActionModel::Forward(Message::Connection(ci)),
                    ],
                )
            } else {
                (
                    StateModel::Closed,
                    seq![ActionModel::Close(ReasonModel::UnknownTag(ci.target_tag()))],
                )
            },
            ChannelState::AwaitingSource(ci) => if found {
                (
                    StateModel::Splicing,
                    seq![
                        ActionModel::Write(Message::Ack),
                        ActionModel::HandOver,
                        ActionModel::Remove(ci.source_tag()),
                    ],
                )
            } else {
                (
                    StateModel::Closed,
                    seq![ActionModel::Close(ReasonModel::UnknownTag(ci.source_tag()))],
                )
            },
            _ => stay(s),
        },
        ChannelEvent::TargetArrived => match s {
            ChannelState::PairingAsAgent(t) => (
                StateModel::Splicing,
                seq![ActionModel::Write(Message::Ack), ActionModel::Release(t@, id), ActionModel::Splice],
            ),
            _ => stay(s),
        },
        ChannelEvent::Received(FrameType::Handler(m)) => match s {
            ChannelState::Fresh | ChannelState::Registered(_) => (s@, seq![ActionModel::Write(m)]),
            ChannelState::PairingAsAgent(t) => protocol_error_holding(t@, id),
            _ => stay(s),
        },
        ChannelEvent::Received(FrameType::Socket(m)) => match s {
            ChannelState::Fresh => match m {
                Message::Register(info) => (
                    StateModel::Registered(info.tag()),
                    seq![
                        ActionModel::InsertRegistrant(info, id),
                        ActionModel::Write(Message::Ack),
                        ActionModel::StartKeepAlive(info.tag()),
                    ],
                ),
                Message::Connection(ci) => (
                    StateModel::AwaitingTarget(ci),
                    seq![ActionModel::Lookup(ci.target_tag())],
                ),
                Message::TargetConnection(ci) => (
                    StateModel::AwaitingSource(ci),
                    seq![ActionModel::Lookup(ci.source_tag())],
                ),
                Message::Subscribe(sub) => (
                    StateModel::Subscribing,
                    seq![ActionModel::StartSubscription(sub)],
                ),
                Message::Ping => (StateModel::Fresh, seq![ActionModel::Write(Message::Ack)]),
                _ => protocol_error(),
            },
            ChannelState::Registered(t) => match m {
                Message::Ping => (s@, seq![ActionModel::Write(Message::Ack)]),
                Message::Ack | Message::KeepAlive => stay(s),
                _ => protocol_error_holding(t@, id),
            },
            ChannelState::AwaitingTarget(_) | ChannelState::AwaitingSource(_) => protocol_error(),
            ChannelState::PairingAsAgent(t) => protocol_error_holding(t@, id),
            _ => stay(s),
        },
    }
}

fn actions1(a: Action) -> (r: Vec<Action>)
    ensures
        actions_view(r@) == seq![a@],
{
    let mut r: Vec<Action> = Vec::new();
    r.push(a);
    assert(actions_view(r@) =~= seq![a@]);
    r
}

fn actions2(a: Action, b: Action) -> (r: Vec<Action>)
    ensures
        actions_view(r@) == seq![a@, b@],
{
    let mut r: Vec<Action> = Vec::new();
    r.push(a);
    r.push(b);
    assert(actions_view(r@) =~= seq![a@, b@]);
    r
}

fn actions3(a: Action, b: Action, c: Action) -> (r: Vec<Action>)
    ensures
        actions_view(r@) == seq![a@, b@, c@],
{
    let mut r: Vec<Action> = Vec::new();
    r.push(a);
    r.push(b);
    r.push(c);
    assert(actions_view(r@) =~= seq![a@, b@, c@]);
    r
}

fn no_actions() -> (r: Vec<Action>)
    ensures
        actions_view(r@) == Seq::<ActionModel>::empty(),
{
    let r: Vec<Action> = Vec::new();
    assert(actions_view(r@) =~= Seq::<ActionModel>::empty());
    r
}

fn tag_of(s: &str) -> (r: String)
    ensures
        r@ == s@,
{
    s.to_owned()
}

/// Decides what the channel `id`, in `state`, does on `event`. The id
/// marks the directory entries this channel owns.
pub fn step(id: u64, state: ChannelState, event: ChannelEvent) -> (r: (ChannelState, Vec<Action>))
    ensures
        r.0@ == next(id, state, event).0,
        actions_view(r.1@) == next(id, state, event).1,
{
    match event {
        ChannelEvent::Shutdown => match state {
            ChannelState::Splicing | ChannelState::Closed => (state, no_actions()),
            ChannelState::Registered(t) | ChannelState::PairingAsAgent(t) => (
                ChannelState::Closed,
                actions2(Action::Release(t, id), Action::Close(CloseReason::Shutdown)),
            ),
            _ => (ChannelState::Closed, actions1(Action::Close(CloseReason::Shutdown))),
        },
        ChannelEvent::Closed => match state {
            ChannelState::Splicing | ChannelState::Closed => (state, no_actions()),
            ChannelState::Registered(t) | ChannelState::PairingAsAgent(t) => (
                ChannelState::Closed,
                actions2(Action::Release(t, id), Action::Close(CloseReason::PeerGone)),
            ),
            _ => (ChannelState::Closed, actions1(Action::Close(CloseReason::PeerGone))),
        },
        ChannelEvent::TimedOut => match state {
            ChannelState::AwaitingTarget(_) | ChannelState::AwaitingSource(_) => (
                ChannelState::Closed,
                actions1(Action::Close(CloseReason::Timeout)),
            ),
            ChannelState::PairingAsAgent(t) => (
                ChannelState::Closed,
                actions2(Action::Release(t, id), Action::Close(CloseReason::Timeout)),
            ),
            _ => (state, no_actions()),
        },
        ChannelEvent::Lookup(found) => match state {
            ChannelState::AwaitingTarget(ci) => if found {
                let source = tag_of(ci.get_source_tag());
                let waiting = source.clone();
                (
                    ChannelState::PairingAsAgent(source),
                    actions2(Action::InsertWaiting(waiting, id), Action::Forward(Message::Connection(ci))),
                )
            } else {
                let target = tag_of(ci.get_target_tag());
                (ChannelState::Closed, actions1(Action::Close(CloseReason::UnknownTag(target))))
            },
            ChannelState::AwaitingSource(ci) => if found {
                let source = tag_of(ci.get_source_tag());
                (
                    ChannelState::Splicing,
                    actions3(Action::Write(Message::Ack), Action::HandOver, Action::Remove(source)),
                )
            } else {
                let source = tag_of(ci.get_source_tag());
                (ChannelState::Closed, actions1(Action::Close(CloseReason::UnknownTag(source))))
            },
            _ => (state, no_actions()),
        },
        ChannelEvent::TargetArrived => match state {
            ChannelState::PairingAsAgent(t) => (
                ChannelState::Splicing,
                actions3(Action::Write(Message::Ack), Action::Release(t, id), Action::Splice),
            ),
            _ => (state, no_actions()),
        },
        ChannelEvent::Received(FrameType::Handler(m)) => match state {
            ChannelState::Fresh | ChannelState::Registered(_) => (state, actions1(Action::Write(m))),
            ChannelState::PairingAsAgent(t) => (
                ChannelState::Closed,
                actions2(Action::Release(t, id), Action::Close(CloseReason::Protocol)),
            ),
            _ => (state, no_actions()),
        },
        ChannelEvent::Received(FrameType::Socket(m)) => match state {
            ChannelState::Fresh => match m {
                Message::Register(info) => {
                    let tag = tag_of(info.get_tag());
                    let keep = tag.clone();
                    (
                        ChannelState::Registered(tag),
                        actions3(
                            Action::InsertRegistrant(info, id),
                            Action::Write(Message::Ack),
                            Action::StartKeepAlive(keep),
                        ),
                    )
                },
                Message::Connection(ci) => {
                    let target = tag_of(ci.get_target_tag());
                    (ChannelState::AwaitingTarget(ci), actions1(Action::Lookup(target)))
                },
                Message::TargetConnection(ci) => {
                    let source = tag_of(ci.get_source_tag());
                    (ChannelState::AwaitingSource(ci), actions1(Action::Lookup(source)))
                },
                Message::Subscribe(sub) => (
                    ChannelState::Subscribing,
                    actions1(Action::StartSubscription(sub)),
                ),
                Message::Ping => (ChannelState::Fresh, actions1(Action::Write(Message::Ack))),
                _ => (ChannelState::Closed, actions1(Action::Close(CloseReason::Protocol))),
            },
            ChannelState::Registered(t) => match m {
                Message::Ping => (ChannelState::Registered(t), actions1(Action::Write(Message::Ack))),
                Message::Ack | Message::KeepAlive => (ChannelState::Registered(t), no_actions()),
                _ => (
                    ChannelState::Closed,
                    actions2(Action::Release(t, id), Action::Close(CloseReason::Protocol)),
                ),
            },
            ChannelState::AwaitingTarget(_) | ChannelState::AwaitingSource(_) => (
                ChannelState::Closed,
                actions1(Action::Close(CloseReason::Protocol)),
            ),
            ChannelState::PairingAsAgent(t) => (
                ChannelState::Closed,
                actions2(Action::Release(t, id), Action::Close(CloseReason::Protocol)),
            ),
            _ => (state, no_actions()),
        },
    }
}

/// The periodic answer to a subscription: the same question, with the
/// address currently behind its tag, or none when the tag is absent.
pub fn answer_subscription(question: SubscribeInfo, addr: Option<String>) -> (r: Message)
    ensures
        r matches Message::Subscribe(a) && a.target_tag() == question.target_tag()
            && a.target_addr() == opt_view(addr),
{
    let mut answer = question;
    answer.set_target_sockeraddr(addr);
    Message::Subscribe(answer)
}

/// A splice request for a tag that is not in the directory leads to a
/// lookup, then to closing the channel with the tag named: nothing is
/// forwarded, handed over or spliced.
pub proof fn lemma_unknown_target_closes(id: u64, ci: ConnectionInfo)
    ensures
        next(id, ChannelState::Fresh, ChannelEvent::Received(FrameType::Socket(Message::Connection(ci))))
            == (StateModel::AwaitingTarget(ci), seq![ActionModel::Lookup(ci.target_tag())]),
        next(id, ChannelState::AwaitingTarget(ci), ChannelEvent::Lookup(false)) == (
            StateModel::Closed,
            seq![ActionModel::Close(ReasonModel::UnknownTag(ci.target_tag()))],
        ),
{
}

/// When the channel of a registered tag dies, or the server shuts down,
/// the channel releases its tag and closes.
pub proof fn lemma_dead_registrant_removed(id: u64, tag: String)
    ensures
        next(id, ChannelState::Registered(tag), ChannelEvent::Closed) == (
            StateModel::Closed,
            seq![ActionModel::Release(tag@, id), ActionModel::Close(ReasonModel::PeerGone)],
        ),
        next(id, ChannelState::Registered(tag), ChannelEvent::Shutdown) == (
            StateModel::Closed,
            seq![ActionModel::Release(tag@, id), ActionModel::Close(ReasonModel::Shutdown)],
        ),
{
}

/// The end of a registered channel removes its own entry, and only that:
/// where a later channel has registered the same tag meanwhile, the
/// release that the close asks for leaves the later entry in place.
pub proof fn lemma_close_keeps_newer_registration<W>(
    id: u64,
    tag: String,
    d: Directory<(u64, W)>,
    own: W,
    newer: (u64, W),
)
    requires
        d.wf(),
        newer.0 != id,
    ensures
        next(id, ChannelState::Registered(tag), ChannelEvent::Closed).1[0] == ActionModel::Release(
            tag@,
            id,
        ),
        released(d@.insert(tag@, (id, own)), tag@, id) == d@.remove(tag@),
        released(d@.insert(tag@, newer), tag@, id) == d@.insert(tag@, newer),
{
    assert(d@.insert(tag@, (id, own)).remove(tag@) =~= d@.remove(tag@));
}

/// Once a channel splices, it leaves the control protocol: no event
/// changes its state or asks for any action.
pub proof fn lemma_splicing_is_final(id: u64, e: ChannelEvent)
    ensures
        next(id, ChannelState::Splicing, e) == (StateModel::Splicing, Seq::<ActionModel>::empty()),
{
}

/// The two halves of a relay meet: the registrant's `TargetConnection`
/// under a source tag that is waiting hands its channel over and removes
/// the tag; the waiting agent channel, when that channel arrives,
/// acknowledges, releases the tag and splices.
pub proof fn lemma_pair_and_splice(id: u64, agent: ConnectionInfo, registrant: ConnectionInfo)
    ensures
        next(id, ChannelState::AwaitingTarget(agent), ChannelEvent::Lookup(true)) == (
            StateModel::PairingAsAgent(agent.source_tag()),
            seq![
                ActionModel::InsertWaiting(agent.source_tag(), id),
                ActionModel::Forward(Message::Connection(agent)),
            ],
        ),
        next(id, ChannelState::AwaitingSource(registrant), ChannelEvent::Lookup(true)) == (
            StateModel::Splicing,
            seq![
                ActionModel::Write(Message::Ack),
                ActionModel::HandOver,
                ActionModel::Remove(registrant.source_tag()),
            ],
        ),
        forall|t: String| #[trigger] next(id, ChannelState::PairingAsAgent(t), ChannelEvent::TargetArrived) == (
            StateModel::Splicing,
            seq![ActionModel::Write(Message::Ack), ActionModel::Release(t@, id), ActionModel::Splice],
        ),
{
}

/// Two tunnels through one registrant stay apart: each agent channel waits
/// under its own correlation id, and a registrant's `TargetConnection`
/// looks up the id it carries, so it finds the agent channel that sent
/// that id and no other.
pub proof fn lemma_tunnels_pair_by_correlation_id<W>(
    id1: u64,
    id2: u64,
    a1: ConnectionInfo,
    a2: ConnectionInfo,
    b: ConnectionInfo,
    d: Directory<(u64, W)>,
    e1: W,
    e2: W,
)
    requires
        d.wf(),
        a1.source_tag() != a2.source_tag(),
    ensures
        next(id1, ChannelState::AwaitingTarget(a1), ChannelEvent::Lookup(true)).1[0]
            == ActionModel::InsertWaiting(a1.source_tag(), id1),
        next(id2, ChannelState::AwaitingTarget(a2), ChannelEvent::Lookup(true)).1[0]
            == ActionModel::InsertWaiting(a2.source_tag(), id2),
        next(0, ChannelState::Fresh, ChannelEvent::Received(FrameType::Socket(Message::TargetConnection(b))))
            == (StateModel::AwaitingSource(b), seq![ActionModel::Lookup(b.source_tag())]),
        ({
            let m = d@.insert(a1.source_tag(), (id1, e1)).insert(a2.source_tag(), (id2, e2));
            &&& b.source_tag() == a1.source_tag() ==> m.contains_key(b.source_tag()) && m[b.source_tag()]
                == (id1, e1)
            &&& b.source_tag() == a2.source_tag() ==> m.contains_key(b.source_tag()) && m[b.source_tag()]
                == (id2, e2)
        }),
{
}

} // verus!
