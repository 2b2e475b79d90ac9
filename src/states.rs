//! The four states, their payloads, and the fixed graph of legal transitions between them.
use vstd::prelude::*;

use crate::device::MAX_TEMPERATURE;

verus! {

/// Which state a machine is in.
#[derive(Clone, Copy, Debug, PartialEq, Eq, Structural)]
pub enum StateKind {
    Filling,
    Heating,
    Emptying,
    ErrorState,
}

/// The cycle of normal operation: `from` is done and `to` comes next.
pub open spec fn advance_edge(from: StateKind, to: StateKind) -> bool {
    match from {
        StateKind::Filling => to == StateKind::Heating,
        StateKind::Heating => to == StateKind::Emptying,
        StateKind::Emptying => to == StateKind::Filling,
        StateKind::ErrorState => false,
    }
}

/// The escape from any working state into the error state.
pub open spec fn error_edge(from: StateKind, to: StateKind) -> bool {
    from != StateKind::ErrorState && to == StateKind::ErrorState
}

/// The full legality table: a transition is legal when it advances the cycle or escapes
/// into the error state.
pub open spec fn legal_edge(from: StateKind, to: StateKind) -> bool {
    advance_edge(from, to) || error_edge(from, to)
}

/// The state visited after `n` advances from `Filling`.
pub open spec fn cycle_position(n: nat) -> StateKind {
    if n % 3 == 0 {
        StateKind::Filling
    } else if n % 3 == 1 {
        StateKind::Heating
    } else {
        StateKind::Emptying
    }
}

impl StateKind {
    /// Whether the legality table holds the edge from `self` to `to`.
    pub fn can_transition_to(self, to: StateKind) -> (r: bool)
        ensures
            r == legal_edge(self, to),
    {
        match self {
            StateKind::Filling => to == StateKind::Heating || to == StateKind::ErrorState,
            StateKind::Heating => to == StateKind::Emptying || to == StateKind::ErrorState,
            StateKind::Emptying => to == StateKind::Filling || to == StateKind::ErrorState,
            StateKind::ErrorState => false,
        }
    }
}

/// Every working state has exactly one successor in the cycle, and the error state has
/// none.
pub proof fn lemma_single_successor(from: StateKind, to: StateKind, other: StateKind)
    requires
        advance_edge(from, to),
        advance_edge(from, other),
    ensures
        to == other,
        from != StateKind::ErrorState,
{
}

/// The error state can be entered from every working state, whatever its sensors say.
pub proof fn lemma_error_reachable(from: StateKind)
    requires
        from != StateKind::ErrorState,
    ensures
        legal_edge(from, StateKind::ErrorState),
{
}

/// The error state is a sink: no legal transition leaves it.
pub proof fn lemma_error_is_terminal(to: StateKind)
    ensures
        !legal_edge(StateKind::ErrorState, to),
{
}

/// Starting from `Filling`, a run of advances visits Filling, Heating, Emptying, Filling, ...
/// in that order, with period three.
pub proof fn lemma_advance_cycle(visited: Seq<StateKind>)
    requires
        visited.len() > 0,
        visited[0] == StateKind::Filling,
        forall|i: int| 0 <= i < visited.len() - 1 ==> advance_edge(#[trigger] visited[i], visited[i + 1]),
    ensures
        forall|i: int| 0 <= i < visited.len() ==> #[trigger] visited[i] == cycle_position(i as nat),
        forall|i: int| 0 <= i && i + 3 < visited.len() ==> #[trigger] visited[i] == visited[i + 3],
    decreases visited.len(),
{
    if visited.len() > 1 {
        let prefix = visited.drop_last();
        assert forall|i: int| 0 <= i < prefix.len() - 1 implies advance_edge(#[trigger] prefix[i], prefix[i + 1]) by {
            assert(advance_edge(visited[i], visited[i + 1]));
        }
        lemma_advance_cycle(prefix);
        let n = visited.len() - 1;
        assert(prefix[n - 1] == cycle_position((n - 1) as nat));
        assert(advance_edge(visited[n - 1], visited[n]));
        assert(visited[n] == cycle_position(n as nat));
        assert forall|i: int| 0 <= i < visited.len() implies #[trigger] visited[i] == cycle_position(i as nat) by {
            if i < n {
                assert(visited[i] == prefix[i]);
            }
        }
    }
}

/// Payload of a state, and the kind it stands for.
pub trait Phase: Sized {
    /// The kind of every state with this payload.
    spec fn kind() -> StateKind;

    /// The payload a state has when it is entered.
    spec fn initial() -> Self;
}

/// Filling up to `FULL`.
#[derive(Debug)]
pub struct Filling {}

/// Heating up to `end_temperature`.
#[derive(Debug)]
pub struct Heating {
    /// The temperature at which heating is done.
    pub end_temperature: u8,
    /// The last temperature recorded in this state; it starts at zero and nothing updates it.
    pub actual_temperature: u8,
}

/// Draining down to `EMPTY`.
#[derive(Debug)]
pub struct Emptying {}

/// The terminal error state: the safety cut-off has tripped.
#[derive(Debug)]
pub struct SafetyCutOff {}

impl Phase for Filling {
    open spec fn kind() -> StateKind {
        StateKind::Filling
    }

    open spec fn initial() -> Filling {
        Filling {}
    }
}

impl Phase for Heating {
    open spec fn kind() -> StateKind {
        StateKind::Heating
    }

    open spec fn initial() -> Heating {
        Heating { end_temperature: MAX_TEMPERATURE, actual_temperature: 0 }
    }
}

impl Phase for Emptying {
    open spec fn kind() -> StateKind {
        StateKind::Emptying
    }

    open spec fn initial() -> Emptying {
        Emptying {}
    }
}

impl Phase for SafetyCutOff {
    open spec fn kind() -> StateKind {
        StateKind::ErrorState
    }

    open spec fn initial() -> SafetyCutOff {
        SafetyCutOff {}
    }
}

} // verus!
