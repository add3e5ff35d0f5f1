//! Waiting for the graphics runtime to be loaded into the host: a bounded
//! number of polls with a growing pause between them.
//!
//! The embedding program polls and sleeps; what to do after each poll is
//! decided here.

use vstd::prelude::*;
use crate::types::Handle;

verus! {

/// How many times the runtime is polled for before it is given up on.
pub const MAX_ATTEMPTS: u32 = 20;

/// The pause in milliseconds after the failed poll number `attempt`, counted
/// from 0.
pub open spec fn backoff_millis(attempt: nat) -> nat {
    250 + 100 * attempt * attempt
}

/// The pause in milliseconds after the failed poll number `attempt`.
pub fn backoff(attempt: u32) -> (millis: u64)
    requires
        backoff_millis(attempt as nat) <= u64::MAX,
    ensures
        millis == backoff_millis(attempt as nat),
{
    let a: u64 = attempt as u64;
    assert(a * a <= 100 * a * a && 100 * (a * a) == 100 * a * a) by (nonlinear_arith);
    250 + 100 * (a * a)
}

/// The first of `modules` that is loaded, that is, whose module handle is not
/// null.
pub open spec fn first_loaded(modules: Seq<Handle>) -> Option<int>
    decreases modules.len(),
{
    if modules.len() == 0 {
        None
    } else {
        match first_loaded(modules.drop_last()) {
            Some(i) => Some(i),
            None => if modules.last() != 0 {
                Some(modules.len() - 1)
            } else {
                None
            },
        }
    }
}

/// What `first_loaded` finds is loaded, and nothing before it is.
pub proof fn lemma_first_loaded(modules: Seq<Handle>)
    ensures
        match first_loaded(modules) {
            Some(i) => 0 <= i < modules.len() && modules[i] != 0 && forall|k: int|
                0 <= k < i ==> modules[k] == 0,
            None => forall|k: int| 0 <= k < modules.len() ==> modules[k] == 0,
        },
    decreases modules.len(),
{
    if modules.len() > 0 {
        let front = modules.drop_last();
        lemma_first_loaded(front);
        assert(forall|k: int| 0 <= k < front.len() ==> front[k] == modules[k]);
        match first_loaded(front) {
            Some(i) => {
            },
            None => {
                assert forall|k: int| 0 <= k < modules.len() - 1 implies modules[k] == 0 by {
                }
            },
        }
    }
}

/// Picks the module to hook from the module handles that one poll found for
/// the candidate names, in the order of the names: the first that is loaded.
pub fn pick_module(modules: &Vec<Handle>) -> (found: Option<usize>)
    ensures
        match found {
            Some(i) => first_loaded(modules@) == Some(i as int),
            None => first_loaded(modules@) is None,
        },
{
    let mut i: usize = 0;
    while i < modules.len()
        invariant
            i <= modules.len(),
            first_loaded(modules@.take(i as int)) is None,
        decreases modules.len() - i,
    {
        assert(modules@.take(i as int + 1).drop_last() =~= modules@.take(i as int));
        if modules[i] != 0 {
            proof {
                lemma_first_loaded_prefix(modules@, i as int + 1);
            }
            return Some(i);
        }
        i = i + 1;
    }
    assert(modules@.take(i as int) =~= modules@);
    None
}

/// What is found among the first `n` modules is what is found among all.
pub proof fn lemma_first_loaded_prefix(modules: Seq<Handle>, n: int)
    requires
        0 <= n <= modules.len(),
        first_loaded(modules.take(n)) is Some,
    ensures
        first_loaded(modules) == first_loaded(modules.take(n)),
    decreases modules.len() - n,
{
    if n < modules.len() {
        assert(modules.take(n + 1).drop_last() =~= modules.take(n));
        lemma_first_loaded_prefix(modules, n + 1);
    } else {
        assert(modules.take(n) =~= modules);
    }
}

/// What one poll found: the first module that is loaded, with the index of its
/// name.
pub open spec fn poll_result(modules: Seq<Handle>) -> Option<(Handle, usize)> {
    match first_loaded(modules) {
        Some(i) => Some((modules[i], i as usize)),
        None => None,
    }
}

/// Where the search for the runtime stands.
#[derive(Debug, Clone, Copy, PartialEq, Eq, Structural)]
pub enum Discovery {
    /// The runtime was not found in `attempt` polls, and is polled for again.
    Searching { attempt: u32 },
    /// The runtime is loaded: `module` is its handle, and `dll` tells which of
    /// the candidate names it was found under.
    Found { module: Handle, dll: usize },
    /// The runtime was not found in any poll.  The search is over, and no hook
    /// is installed.
    Abandoned,
}

/// What the embedding program does next.
#[derive(Debug, Clone, Copy, PartialEq, Eq, Structural)]
pub enum DiscoveryAction {
    /// Sleep for `millis` milliseconds, then poll again.
    Retry { millis: u64 },
    /// Install the hooks.
    InstallHooks { module: Handle, dll: usize },
    /// Report that the runtime could not be found, and stop.
    GiveUp,
    /// Nothing: the search was over before.
    Nothing,
}

/// The state after one poll, and what to do.  `found` is the module that the
/// poll found, with the index of its name.
pub open spec fn step(state: Discovery, found: Option<(Handle, usize)>) -> (Discovery, DiscoveryAction) {
    match state {
        Discovery::Searching { attempt } => match found {
            Some((module, dll)) => (
                Discovery::Found { module, dll },
                DiscoveryAction::InstallHooks { module, dll },
            ),
            None => if attempt + 1 < MAX_ATTEMPTS {
                (
                    Discovery::Searching { attempt: (attempt + 1) as u32 },
                    DiscoveryAction::Retry { millis: backoff_millis(attempt as nat) as u64 },
                )
            } else {
                (Discovery::Abandoned, DiscoveryAction::GiveUp)
            },
        },
        _ => (state, DiscoveryAction::Nothing),
    }
}

/// The state after `n` polls that found nothing.
pub open spec fn after_failures(state: Discovery, n: nat) -> Discovery
    decreases n,
{
    if n == 0 {
        state
    } else {
        step(after_failures(state, (n - 1) as nat), None).0
    }
}

impl Discovery {
    /// The search before its first poll.
    pub fn new() -> (state: Self)
        ensures
            state == (Discovery::Searching { attempt: 0 }),
    {
        Discovery::Searching { attempt: 0 }
    }

    /// Takes the result of one poll: the next state, and what to do.
    pub fn on_poll(self, found: Option<(Handle, usize)>) -> (next: (Discovery, DiscoveryAction))
        ensures
            next == step(self, found),
    {
        match self {
            Discovery::Searching { attempt } => match found {
                Some((module, dll)) => (
                    Discovery::Found { module, dll },
                    DiscoveryAction::InstallHooks { module, dll },
                ),
                None => {
                    if attempt < MAX_ATTEMPTS - 1 {
                        assert(100 * attempt * attempt <= 100 * 20 * 20) by (nonlinear_arith)
                            requires
                                attempt < 20,
                        ;
                        (
                            Discovery::Searching { attempt: attempt + 1 },
                            DiscoveryAction::Retry { millis: backoff(attempt) },
                        )
                    } else {
                        (Discovery::Abandoned, DiscoveryAction::GiveUp)
                    }
                },
            },
            Discovery::Found { module, dll } => (self, DiscoveryAction::Nothing),
            Discovery::Abandoned => (self, DiscoveryAction::Nothing),
        }
    }

    /// Whether the search is over.
    pub fn is_over(&self) -> (over: bool)
        ensures
            over == !(*self is Searching),
    {
        match self {
            Discovery::Searching { .. } => false,
            _ => true,
        }
    }
}

/// While polls find nothing, the search counts them: after `n` failed polls,
/// fewer than the limit, it is searching with `n` attempts behind it.
pub proof fn lemma_failures_are_counted(n: nat)
    requires
        n < MAX_ATTEMPTS,
    ensures
        after_failures(Discovery::Searching { attempt: 0 }, n) == (Discovery::Searching {
            attempt: n as u32,
        }),
    decreases n,
{
    if n > 0 {
        lemma_failures_are_counted((n - 1) as nat);
    }
}

/// The search ends: when every poll up to the limit finds nothing, the last of
/// them makes the search give up, it is then abandoned for good, and no poll on
/// the way asked for hooks to be installed.
pub proof fn lemma_search_gives_up()
    ensures
        after_failures(Discovery::Searching { attempt: 0 }, MAX_ATTEMPTS as nat)
            == Discovery::Abandoned,
        step(
            after_failures(Discovery::Searching { attempt: 0 }, (MAX_ATTEMPTS - 1) as nat),
            None,
        ).1 == DiscoveryAction::GiveUp,
        forall|n: nat|
            n < MAX_ATTEMPTS ==> !(#[trigger] step(
                after_failures(Discovery::Searching { attempt: 0 }, n),
                None,
            ).1 is InstallHooks),
        forall|found: Option<(Handle, usize)>|
            #[trigger] step(Discovery::Abandoned, found) == (
                Discovery::Abandoned,
                DiscoveryAction::Nothing,
            ),
{
    lemma_failures_are_counted((MAX_ATTEMPTS - 1) as nat);
    assert forall|n: nat| n < MAX_ATTEMPTS implies !(#[trigger] step(
        after_failures(Discovery::Searching { attempt: 0 }, n),
        None,
    ).1 is InstallHooks) by {
        lemma_failures_are_counted(n);
    }
}

/// The pauses grow: a later failed poll is followed by a longer pause.
pub proof fn lemma_backoff_grows(a: nat, b: nat)
    requires
        a < b,
    ensures
        backoff_millis(a) < backoff_millis(b),
{
    assert(100 * a * a < 100 * b * b) by (nonlinear_arith)
        requires
            a < b,
    ;
}

} // verus!
