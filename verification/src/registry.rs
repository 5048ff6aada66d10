//! The record of role health that monitoring reads.

use vstd::prelude::*;

verus! {

/// Which kind of downstream a record speaks of.
#[derive(Clone, Copy, Debug, PartialEq, Eq, Structural)]
pub enum DownstreamType {
    JdClientMiningDownstream,
    TranslatorDownstream,
}

/// Health of the downstream role.
#[derive(Clone, Copy, Debug, PartialEq, Eq, Structural)]
pub enum DownstreamState {
    Up,
    Down(DownstreamType),
}

/// Health of a role other than the downstream.
#[derive(Clone, Copy, Debug, PartialEq, Eq, Structural)]
pub enum RoleState {
    Up,
    Down,
}

/// The record of role health that monitoring reads.
#[derive(Clone, Copy, Debug, PartialEq, Eq, Structural)]
pub struct ProxyState {
    pub downstream: DownstreamState,
    pub upstream: RoleState,
    pub job_declarator: RoleState,
    pub template_receiver: RoleState,
}

impl ProxyState {
    /// The record in which every role is up.
    pub open spec fn all_up() -> ProxyState {
        ProxyState {
            downstream: DownstreamState::Up,
            upstream: RoleState::Up,
            job_declarator: RoleState::Up,
            template_receiver: RoleState::Up,
        }
    }

    /// The record with the downstream's state replaced and the rest kept.
    pub open spec fn with_downstream(self, state: DownstreamState) -> ProxyState {
        ProxyState { downstream: state, ..self }
    }

    /// A record in which every role is up.
    pub fn new() -> (p: Self)
        ensures
            p == ProxyState::all_up(),
    {
        ProxyState {
            downstream: DownstreamState::Up,
            upstream: RoleState::Up,
            job_declarator: RoleState::Up,
            template_receiver: RoleState::Up,
        }
    }

    /// Writes the downstream's state; no other role's record changes.
    pub fn update_downstream_state(&mut self, state: DownstreamState)
        ensures
            *final(self) == old(self).with_downstream(state),
    {
        self.downstream = state;
    }

    /// Whether the downstream is recorded as down.
    pub fn is_downstream_down(&self) -> (b: bool)
        ensures
            b == (self.downstream is Down),
    {
        match self.downstream {
            DownstreamState::Up => false,
            DownstreamState::Down(_) => true,
        }
    }
}

/// Writing the same downstream state twice leaves what one write leaves.
pub proof fn lemma_update_idempotent(p: ProxyState, state: DownstreamState)
    ensures
        p.with_downstream(state).with_downstream(state) == p.with_downstream(state),
        p.with_downstream(state).downstream == state,
        p.with_downstream(state).upstream == p.upstream,
        p.with_downstream(state).job_declarator == p.job_declarator,
        p.with_downstream(state).template_receiver == p.template_receiver,
{
}

} // verus!
