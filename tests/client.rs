use fusen_net::client::{registrant_step, subscription_entry, AgentInfo, AgentMode, RegistrantAction};
use fusen_net::frame::{ConnectionInfo, Message, RegisterInfo, SubscribeInfo};
use fusen_net::server::Server;

fn s(x: &str) -> String {
    x.to_string()
}

#[test]
fn agent_spec_is_read_field_by_field() {
    let a = AgentInfo::parse("RM-R-127.0.0.1:19000-19001").unwrap();
    assert_eq!(a.agent_mode, AgentMode::RM);
    assert_eq!(a.target_tag, "R");
    assert_eq!(a.target_host, "127.0.0.1:19000");
    assert_eq!(a.agent_port, "19001");
}

#[test]
fn direct_mode_is_read_in_any_case() {
    assert_eq!(AgentInfo::parse("dm-R-10.0.0.1:80-8080").unwrap().agent_mode, AgentMode::DM);
    assert_eq!(AgentInfo::parse("DM-R-10.0.0.1:80-8080").unwrap().agent_mode, AgentMode::DM);
    assert_eq!(AgentMode::from_label("xdmx"), AgentMode::DM);
    assert_eq!(AgentMode::from_label("rm"), AgentMode::RM);
}

#[test]
fn mode_of_an_upper_cased_label() {
    assert_eq!(AgentMode::from_upper("DM"), AgentMode::DM);
    assert_eq!(AgentMode::from_upper("ADMB"), AgentMode::DM);
    assert_eq!(AgentMode::from_upper("dm"), AgentMode::RM);
    assert_eq!(AgentMode::from_upper("D"), AgentMode::RM);
    assert_eq!(AgentMode::from_upper(""), AgentMode::RM);
}

#[test]
fn short_agent_spec_is_refused() {
    assert!(AgentInfo::parse("RM-R-127.0.0.1:19000").is_none());
    assert!(AgentInfo::parse("").is_none());
}

#[test]
fn extra_fields_are_ignored_and_empty_fields_kept() {
    let a = AgentInfo::parse("RM--h-1-extra").unwrap();
    assert_eq!(a.target_tag, "");
    assert_eq!(a.target_host, "h");
    assert_eq!(a.agent_port, "1");
}

#[test]
fn agent_builds_its_splice_request() {
    let a = AgentInfo::parse("RM-R-127.0.0.1:19000-19001").unwrap();
    let Message::Connection(ci) = a.connection_request(s("corr-1")) else { panic!("connection expected") };
    assert_eq!(ci.get_agent_mode(), AgentMode::RM);
    assert_eq!(ci.get_source_tag(), "corr-1");
    assert_eq!(ci.get_target_tag(), "R");
    assert_eq!(ci.get_target_host(), "127.0.0.1:19000");
}

#[test]
fn registrant_answers_ping_with_ack() {
    assert!(matches!(registrant_step(Message::Ping), RegistrantAction::Reply(Message::Ack)));
}

#[test]
fn registrant_relays_or_reuses_by_mode() {
    let rm = ConnectionInfo::new(AgentMode::RM, s("id"), s("R"), s("h:1"));
    assert!(matches!(registrant_step(Message::Connection(rm)), RegistrantAction::Relay(ci) if ci.get_source_tag() == "id"));
    let dm = ConnectionInfo::new(AgentMode::DM, s("id2"), s("R"), s("h:1"));
    assert!(matches!(registrant_step(Message::Connection(dm)), RegistrantAction::Direct(ci) if ci.get_source_tag() == "id2"));
}

#[test]
fn registrant_ignores_other_frames() {
    assert!(matches!(registrant_step(Message::Ack), RegistrantAction::Ignore));
    assert!(matches!(registrant_step(Message::Register(RegisterInfo::new(s("x")))), RegistrantAction::Ignore));
}

#[test]
fn subscription_answers_give_cache_entries() {
    let mut sub = SubscribeInfo::new(s("R"));
    assert_eq!(subscription_entry(Message::Subscribe(sub.clone())), None);
    sub.set_target_sockeraddr(Some(s("1.2.3.4:5")));
    assert_eq!(subscription_entry(Message::Subscribe(sub)), Some((s("R"), s("1.2.3.4:5"))));
    assert_eq!(subscription_entry(Message::Ping), None);
}

#[test]
fn register_info_keeps_its_tag() {
    let r = RegisterInfo::new(s("tag-1"));
    assert_eq!(r.get_tag(), "tag-1");
    let (tag, tcp, udp, meta) = r.into_parts();
    assert_eq!(tag, "tag-1");
    assert!(tcp.is_none() && udp.is_none() && meta.inner.is_empty());
}

#[test]
fn server_keeps_its_port() {
    assert_eq!(Server::new("8089").get_port(), "8089");
}
