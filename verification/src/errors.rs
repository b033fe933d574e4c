//! Why an instruction of the program is refused.
use vstd::prelude::*;

verus! {

/// Refusals that concern a membership's slot table or proof.
#[derive(Clone, Copy, Debug, PartialEq, Eq, Structural)]
pub enum MembershipError {
    /// The proof that came with the request does not check.
    WrongProofCheck,
    /// The hash or member count the relayer saw is not what the slot holds.
    RelayerOutOfSync,
}

/// Every way an instruction of the program is refused.
#[derive(Clone, Copy, Debug, PartialEq, Eq, Structural)]
pub enum HumanshipError {
    Membership(MembershipError),
    /// A refusal of the program's general kind: a signer without authority,
    /// an account in the wrong state, an expired request, a full slot.
    General,
}

} // verus!
