//! The bootstrap sequence as a strictly linear state machine:
//! `Init → BinaryReady → ChainSpecReady → SecretFetched → KeysInjected →
//! Validating`. Each arrow is one external or core call; any failure aborts
//! the whole run, with no partial-completion recovery.

use vstd::prelude::*;

verus! {

/// One state of the bootstrap sequence.
#[derive(Clone, Copy, Debug, PartialEq, Eq, Structural)]
pub enum Phase {
    /// Nothing obtained yet.
    Init,
    /// The node binary is on disk and executable.
    BinaryReady,
    /// The chain specification is on disk.
    ChainSpecReady,
    /// The secret envelope is decoded into key material.
    SecretFetched,
    /// All three session keys are inserted into the keystore.
    KeysInjected,
    /// The node runs as a validator.
    Validating,
}

/// How far along the sequence a phase is.
pub open spec fn phase_rank(p: Phase) -> nat {
    match p {
        Phase::Init => 0,
        Phase::BinaryReady => 1,
        Phase::ChainSpecReady => 2,
        Phase::SecretFetched => 3,
        Phase::KeysInjected => 4,
        Phase::Validating => 5,
    }
}

/// The unique successor of a non-final phase.
pub open spec fn next_phase(p: Phase) -> Phase {
    match p {
        Phase::Init => Phase::BinaryReady,
        Phase::BinaryReady => Phase::ChainSpecReady,
        Phase::ChainSpecReady => Phase::SecretFetched,
        Phase::SecretFetched => Phase::KeysInjected,
        Phase::KeysInjected => Phase::Validating,
        Phase::Validating => Phase::Validating,
    }
}

/// Advances the sequence by exactly one step after the call of the current
/// phase succeeded. On failure the caller does not advance: it aborts the
/// whole run.
pub fn advance(p: Phase) -> (r: Phase)
    requires
        p != Phase::Validating,
    ensures
        r == next_phase(p),
        phase_rank(r) == phase_rank(p) + 1,
{
    match p {
        Phase::Init => Phase::BinaryReady,
        Phase::BinaryReady => Phase::ChainSpecReady,
        Phase::ChainSpecReady => Phase::SecretFetched,
        Phase::SecretFetched => Phase::KeysInjected,
        Phase::KeysInjected => Phase::Validating,
        Phase::Validating => Phase::Validating,
    }
}

/// Law: the sequence is strictly linear — the rank identifies the phase, so
/// no two distinct phases can stand at the same point of the sequence, and
/// validation is only reached through all five steps.
pub proof fn lemma_phase_linear(p: Phase, q: Phase)
    ensures
        phase_rank(p) == phase_rank(q) ==> p == q,
        phase_rank(p) <= 5,
        phase_rank(p) == 5 <==> p == Phase::Validating,
{
}

} // verus!
