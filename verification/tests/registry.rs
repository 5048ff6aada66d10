use jd_client::registry::{DownstreamState, DownstreamType, ProxyState, RoleState};

#[test]
fn new_record_has_every_role_up() {
    let p = ProxyState::new();
    assert_eq!(p.downstream, DownstreamState::Up);
    assert_eq!(p.upstream, RoleState::Up);
    assert_eq!(p.job_declarator, RoleState::Up);
    assert_eq!(p.template_receiver, RoleState::Up);
    assert!(!p.is_downstream_down());
}

#[test]
fn update_changes_the_downstream_record_only() {
    let mut p = ProxyState::new();
    p.upstream = RoleState::Down;
    p.update_downstream_state(DownstreamState::Down(DownstreamType::JdClientMiningDownstream));
    assert_eq!(
        p,
        ProxyState {
            downstream: DownstreamState::Down(DownstreamType::JdClientMiningDownstream),
            upstream: RoleState::Down,
            job_declarator: RoleState::Up,
            template_receiver: RoleState::Up,
        }
    );
    assert!(p.is_downstream_down());
}

#[test]
fn identical_updates_are_idempotent() {
    let mut once = ProxyState::new();
    once.update_downstream_state(DownstreamState::Down(DownstreamType::TranslatorDownstream));
    let mut twice = once;
    twice.update_downstream_state(DownstreamState::Down(DownstreamType::TranslatorDownstream));
    assert_eq!(once, twice);
}

#[test]
fn update_can_record_recovery() {
    let mut p = ProxyState::new();
    p.update_downstream_state(DownstreamState::Down(DownstreamType::JdClientMiningDownstream));
    p.update_downstream_state(DownstreamState::Up);
    assert_eq!(p, ProxyState::new());
}
