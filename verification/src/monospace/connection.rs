//! Correlation state of one Monospace connection.
//!
//! Monospace replies are untagged, so at most one ordinary command may await
//! its reply, and any reply that arrives when none is awaited, or any write on
//! a separate path, makes the reply order unknowable: the connection is then
//! poisoned for good.
use vstd::prelude::*;

verus! {

/// Lifecycle of one connection.
#[derive(Clone, Copy, Debug, PartialEq, Eq, Structural)]
pub enum ConnectionStatus {
    /// Commands and replies are correlated.
    Active,
    /// A fault made correlation unknowable.
    Poisoned,
    /// The client closed the connection.
    Retired,
}

/// Correlation state shared by the command client and its reader.
#[derive(Clone, Copy, Debug, PartialEq, Eq, Structural)]
pub struct ConnectionState {
    /// Lifecycle of the connection.
    pub status: ConnectionStatus,
    /// Whether an ordinary command awaits its reply.
    pub pending_response: bool,
}

/// Where a received reply goes.
#[derive(Clone, Copy, Debug, PartialEq, Eq, Structural)]
pub enum ResponseDisposition {
    /// It answers the pending command and is delivered.
    Accepted,
    /// Nothing awaited it; the connection is poisoned.
    Unsolicited,
    /// The connection no longer correlates replies; it is dropped.
    Retired,
}

/// Why a command could not start.
#[derive(Clone, Copy, Debug, PartialEq, Eq, Structural)]
pub enum BeginCommandError {
    /// The connection is poisoned or retired.
    NotActive,
    /// Another command still awaits its reply.
    AlreadyPending,
}

impl ConnectionState {
    /// Well-formedness: only an active connection awaits a reply.
    pub open spec fn wf(self) -> bool {
        self.pending_response ==> self.status == ConnectionStatus::Active
    }

    /// A fresh connection: active, awaiting nothing.
    pub fn active() -> (s: Self)
        ensures
            s.status == ConnectionStatus::Active,
            !s.pending_response,
            s.wf(),
    {
        ConnectionState { status: ConnectionStatus::Active, pending_response: false }
    }

    /// Lifecycle of the connection.
    pub fn status(&self) -> (s: ConnectionStatus)
        ensures
            s == self.status,
    {
        self.status
    }

    /// Whether commands and replies are still correlated.
    pub fn is_active(&self) -> (b: bool)
        ensures
            b == (self.status == ConnectionStatus::Active),
    {
        self.status == ConnectionStatus::Active
    }

    /// Poisons an active connection; returns whether this call poisoned it.
    pub fn poison(&mut self) -> (changed: bool)
        ensures
            changed == (old(self).status == ConnectionStatus::Active),
            changed ==> *final(self) == (ConnectionState {
                status: ConnectionStatus::Poisoned,
                pending_response: false,
            }),
            !changed ==> *final(self) == *old(self),
    {
        if self.status != ConnectionStatus::Active {
            return false;
        }
        self.status = ConnectionStatus::Poisoned;
        self.pending_response = false;
        true
    }

    /// Retires an active connection; a poisoned one stays poisoned.
    pub fn retire(&mut self)
        ensures
            old(self).status == ConnectionStatus::Active ==> *final(self) == (ConnectionState {
                status: ConnectionStatus::Retired,
                pending_response: false,
            }),
            old(self).status != ConnectionStatus::Active ==> *final(self) == *old(self),
    {
        if self.status == ConnectionStatus::Active {
            self.status = ConnectionStatus::Retired;
            self.pending_response = false;
        }
    }

    /// Poisons an active connection and reports the lifecycle it had before.
    pub fn poison_and_get_previous(&mut self) -> (previous: ConnectionStatus)
        ensures
            previous == old(self).status,
            previous == ConnectionStatus::Active ==> *final(self) == (ConnectionState {
                status: ConnectionStatus::Poisoned,
                pending_response: false,
            }),
            previous != ConnectionStatus::Active ==> *final(self) == *old(self),
    {
        let previous = self.status;
        if previous == ConnectionStatus::Active {
            self.status = ConnectionStatus::Poisoned;
            self.pending_response = false;
        }
        previous
    }

    /// Starts one ordinary command.
    pub fn begin_command(&mut self) -> (r: Result<(), BeginCommandError>)
        ensures
            old(self).status != ConnectionStatus::Active ==> r == Err::<(), BeginCommandError>(
                BeginCommandError::NotActive,
            ) && *final(self) == *old(self),
            old(self).status == ConnectionStatus::Active && old(self).pending_response ==> r == Err::<
                (),
                BeginCommandError,
            >(BeginCommandError::AlreadyPending) && *final(self) == *old(self),
            old(self).status == ConnectionStatus::Active && !old(self).pending_response ==> r
                == Ok::<(), BeginCommandError>(()) && *final(self) == (ConnectionState {
                status: ConnectionStatus::Active,
                pending_response: true,
            }),
    {
        if self.status != ConnectionStatus::Active {
            return Err(BeginCommandError::NotActive);
        }
        if self.pending_response {
            return Err(BeginCommandError::AlreadyPending);
        }
        self.pending_response = true;
        Ok(())
    }

    /// Routes one received reply. The caller delivers it only when accepted.
    pub fn route_response(&mut self) -> (d: ResponseDisposition)
        ensures
            old(self).status != ConnectionStatus::Active ==> d == ResponseDisposition::Retired
                && *final(self) == *old(self),
            old(self).status == ConnectionStatus::Active && !old(self).pending_response ==> d
                == ResponseDisposition::Unsolicited && *final(self) == (ConnectionState {
                status: ConnectionStatus::Poisoned,
                pending_response: false,
            }),
            old(self).status == ConnectionStatus::Active && old(self).pending_response ==> d
                == ResponseDisposition::Accepted && *final(self) == (ConnectionState {
                status: ConnectionStatus::Active,
                pending_response: false,
            }),
    {
        if self.status != ConnectionStatus::Active {
            return ResponseDisposition::Retired;
        }
        if !self.pending_response {
            self.status = ConnectionStatus::Poisoned;
            return ResponseDisposition::Unsolicited;
        }
        self.pending_response = false;
        ResponseDisposition::Accepted
    }
}

/// One transition of a connection's correlation state.
pub enum ConnectionStep {
    Poison,
    Retire,
    BeginCommand,
    RouteResponse,
}

/// The state after one transition.
pub open spec fn spec_step(s: ConnectionState, step: ConnectionStep) -> ConnectionState {
    match step {
        ConnectionStep::Poison | ConnectionStep::Retire => if s.status == ConnectionStatus::Active {
            ConnectionState {
                status: if step is Poison {
                    ConnectionStatus::Poisoned
                } else {
                    ConnectionStatus::Retired
                },
                pending_response: false,
            }
        } else {
            s
        },
        ConnectionStep::BeginCommand => if s.status == ConnectionStatus::Active && !s.pending_response {
            ConnectionState { pending_response: true, ..s }
        } else {
            s
        },
        ConnectionStep::RouteResponse => if s.status != ConnectionStatus::Active {
            s
        } else if !s.pending_response {
            ConnectionState { status: ConnectionStatus::Poisoned, ..s }
        } else {
            ConnectionState { pending_response: false, ..s }
        },
    }
}

/// A connection that stopped correlating never correlates again, and only an
/// active connection ever awaits a reply.
pub proof fn law_poison_and_retirement_are_final(s: ConnectionState, step: ConnectionStep)
    requires
        s.wf(),
    ensures
        spec_step(s, step).wf(),
        s.status != ConnectionStatus::Active ==> spec_step(s, step) == s,
        spec_step(s, step).status == ConnectionStatus::Active ==> s.status == ConnectionStatus::Active,
{
}

/// An unsolicited reply poisons an idle active connection; a reply to the
/// pending command is accepted exactly once.
pub proof fn law_each_command_gets_one_reply(s: ConnectionState)
    requires
        s.wf(),
        s.status == ConnectionStatus::Active,
        !s.pending_response,
    ensures
        spec_step(s, ConnectionStep::RouteResponse).status == ConnectionStatus::Poisoned,
        spec_step(spec_step(s, ConnectionStep::BeginCommand), ConnectionStep::RouteResponse) == s,
        spec_step(
            spec_step(spec_step(s, ConnectionStep::BeginCommand), ConnectionStep::RouteResponse),
            ConnectionStep::RouteResponse,
        ).status == ConnectionStatus::Poisoned,
{
}

} // verus!
