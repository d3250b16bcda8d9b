//! Decisions of the two client roles: the registrant, which answers splice
//! requests for its tag, and the agent, which forwards local connections
//! to a tag.
use crate::frame::{ConnectionInfo, Message};
use vstd::prelude::*;

verus! {

/// How an agent reaches a registrant: through the rendezvous (`RM`), or
/// directly at the registrant's discovered address (`DM`).
#[derive(Clone, Copy, Debug, PartialEq, Eq, Structural)]
pub enum AgentMode {
    DM,
    RM,
}

/// The upper-case form of a string, as `str::to_uppercase` gives it.
pub uninterp spec fn upper_of(s: Seq<char>) -> Seq<char>;

/// Relies on `str::to_uppercase`: its result depends on the characters of
/// the input alone.
#[verifier::external_body]
fn uppercase(s: &str) -> (r: String)
    ensures
        r@ == upper_of(s@),
{
    s.to_uppercase()
}

/// Whether `u` holds `"DM"` somewhere.
pub open spec fn contains_dm(u: Seq<char>) -> bool {
    exists|i: int| 0 <= i && i + 1 < u.len() && u[i] == 'D' && #[trigger] u[i + 1] == 'M'
}

/// The mode an upper-cased label names: `DM` wherever it holds "DM",
/// else `RM`.
pub open spec fn mode_of_upper(u: Seq<char>) -> AgentMode {
    if contains_dm(u) {
        AgentMode::DM
    } else {
        AgentMode::RM
    }
}

impl AgentMode {
    /// The mode named by an already upper-cased label.
    pub fn from_upper(upper: &str) -> (r: AgentMode)
        ensures
            r == mode_of_upper(upper@),
    {
        let n = upper.unicode_len();
        let mut i: usize = 0;
        while i < n && i + 1 < n
            invariant
                n == upper@.len(),
                forall|j: int| 0 <= j < i && j + 1 < n ==> !(upper@[j] == 'D' && #[trigger] upper@[j + 1] == 'M'),
            decreases n - i,
        {
            if upper.get_char(i) == 'D' && upper.get_char(i + 1) == 'M' {
                return AgentMode::DM;
            }
            i = i + 1;
        }
        AgentMode::RM
    }

    /// The mode named by a label, in any case: `DM` where its upper-case
    /// form holds "DM", else `RM`.
    pub fn from_label(label: &str) -> (r: AgentMode)
        ensures
            r == mode_of_upper(upper_of(label@)),
    {
        let upper = uppercase(label);
        AgentMode::from_upper(upper.as_str())
    }
}

/// The fields of `s` between the `-` separators.
pub open spec fn split_fields(s: Seq<char>) -> Seq<Seq<char>>
    decreases s.len(),
{
    if s.len() == 0 {
        seq![Seq::<char>::empty()]
    } else {
        let f = split_fields(s.drop_last());
        if s.last() == '-' {
            f.push(Seq::<char>::empty())
        } else {
            f.update(f.len() - 1, f.last().push(s.last()))
        }
    }
}

/// The views of a list of strings.
pub open spec fn strings_view(v: Seq<String>) -> Seq<Seq<char>> {
    v.map_values(|x: String| x@)
}

/// Splits `s` at each `-`.
fn split_dash(s: &str) -> (r: Vec<String>)
    ensures
        strings_view(r@) == split_fields(s@),
{
    let n = s.unicode_len();
    let mut fields: Vec<String> = Vec::new();
    let mut start: usize = 0;
    let mut i: usize = 0;
    assert(s@.subrange(0, 0) =~= Seq::<char>::empty());
    assert(strings_view(fields@) + seq![s@.subrange(0, 0)] =~= split_fields(s@.subrange(0, 0)));
    while i < n
        invariant
            n == s@.len(),
            start <= i <= n,
            strings_view(fields@) + seq![s@.subrange(start as int, i as int)] == split_fields(
                s@.subrange(0, i as int),
            ),
        decreases n - i,
    {
        let c = s.get_char(i);
        let ghost before = s@.subrange(0, i as int);
        let ghost old_fields = fields@;
        let ghost old_start = start;
        assert(s@.subrange(0, i + 1).drop_last() =~= before);
        assert(s@.subrange(0, i + 1).last() == c);
        if c == '-' {
            let field = s.substring_char(start, i).to_owned();
            fields.push(field);
            start = i + 1;
            assert(strings_view(fields@) =~= strings_view(old_fields) + seq![
                s@.subrange(old_start as int, i as int),
            ]);
            assert(s@.subrange(start as int, i + 1) =~= Seq::<char>::empty());
            assert(strings_view(fields@) + seq![s@.subrange(start as int, i + 1)] =~= split_fields(
                s@.subrange(0, i + 1),
            ));
        } else {
            assert(s@.subrange(start as int, i + 1) =~= s@.subrange(start as int, i as int).push(c));
            assert(strings_view(fields@) + seq![s@.subrange(start as int, i + 1)] =~= split_fields(
                s@.subrange(0, i + 1),
            ));
        }
        i = i + 1;
    }
    let last = s.substring_char(start, n).to_owned();
    let ghost old_fields = fields@;
    fields.push(last);
    assert(s@.subrange(0, n as int) =~= s@);
    assert(strings_view(fields@) =~= strings_view(old_fields) + seq![s@.subrange(start as int, n as int)]);
    fields
}

/// One agent listener: forward connections on `agent_port` to
/// `target_host` behind `target_tag`.
#[derive(Clone, Debug)]
pub struct AgentInfo {
    pub agent_mode: AgentMode,
    pub target_tag: String,
    pub target_host: String,
    pub agent_port: String,
}

impl AgentInfo {
    /// Reads `MODE-TAG-HOST-PORT`. Fields after the fourth are ignored;
    /// with fewer than four there is no listener.
    pub fn parse(value: &str) -> (r: Option<AgentInfo>)
        ensures
            split_fields(value@).len() < 4 ==> r is None,
            split_fields(value@).len() >= 4 ==> r is Some && {
                let a = r->Some_0;
                let f = split_fields(value@);
                &&& a.agent_mode == mode_of_upper(upper_of(f[0]))
                &&& a.target_tag@ == f[1]
                &&& a.target_host@ == f[2]
                &&& a.agent_port@ == f[3]
            },
    {
        let fields = split_dash(value);
        if fields.len() < 4 {
            return None;
        }
        proof {
            assert(fields@[0]@ == split_fields(value@)[0]);
            assert(fields@[1]@ == split_fields(value@)[1]);
            assert(fields@[2]@ == split_fields(value@)[2]);
            assert(fields@[3]@ == split_fields(value@)[3]);
        }
        Some(AgentInfo {
            agent_mode: AgentMode::from_label(fields[0].as_str()),
            target_tag: fields[1].clone(),
            target_host: fields[2].clone(),
            agent_port: fields[3].clone(),
        })
    }

    /// The splice request an agent sends for one accepted connection,
    /// under a fresh correlation id.
    pub fn connection_request(&self, correlation_id: String) -> (r: Message)
        ensures
            r matches Message::Connection(ci) && ci.agent_mode() == self.agent_mode
                && ci.source_tag() == correlation_id@ && ci.target_tag() == self.target_tag@
                && ci.target_host() == self.target_host@,
    {
        Message::Connection(
            ConnectionInfo::new(
                self.agent_mode,
                correlation_id,
                self.target_tag.clone(),
                self.target_host.clone(),
            ),
        )
    }
}

/// What a registrant does with a frame from a control channel.
#[derive(Debug)]
pub enum RegistrantAction {
    /// Write this frame back.
    Reply(Message),
    /// Relay mode: dial the target host, open a new channel to the
    /// rendezvous, send `TargetConnection` on it, and splice the two.
    Relay(ConnectionInfo),
    /// Direct mode: dial the target host, send `TargetConnection` on this
    /// same channel, and splice it with the target.
    Direct(ConnectionInfo),
    Ignore,
}

/// Decides what a registrant does with a frame.
pub fn registrant_step(m: Message) -> (r: RegistrantAction)
    ensures
        match m {
            Message::Ping => r == RegistrantAction::Reply(Message::Ack),
            Message::Connection(ci) => if ci.agent_mode() == AgentMode::RM {
                r == RegistrantAction::Relay(ci)
            } else {
                r == RegistrantAction::Direct(ci)
            },
            _ => r == RegistrantAction::Ignore,
        },
{
    match m {
        Message::Ping => RegistrantAction::Reply(Message::Ack),
        Message::Connection(ci) => match ci.get_agent_mode() {
            AgentMode::RM => RegistrantAction::Relay(ci),
            AgentMode::DM => RegistrantAction::Direct(ci),
        },
        _ => RegistrantAction::Ignore,
    }
}

/// What a subscription answer puts in an agent's address cache: its tag
/// and the address behind it, when it carries one; nothing for any other
/// frame.
pub fn subscription_entry(m: Message) -> (r: Option<(String, String)>)
    ensures
        match m {
            Message::Subscribe(info) => match info.target_addr() {
                Some(addr) => r matches Some(e) && e.0@ == info.target_tag() && e.1@ == addr,
                None => r is None,
            },
            _ => r is None,
        },
{
    match m {
        Message::Subscribe(info) => match info.get_target_sockeraddr() {
            Some(addr) => Some((info.get_target_tag().to_owned(), addr.to_owned())),
            None => None,
        },
        _ => None,
    }
}

} // verus!
