//! The on-chain interface that the pipeline depends on, as plain values: the
//! two entry points of the registration contract, with the names and
//! signatures under which a ledger client binds them.

use vstd::prelude::*;

verus! {

/// The source file that holds the registration contract, relative to the
/// project's root.
pub const CONTRACT_SOURCE: &'static str = "contract.sol";

/// The name under which the source declares the registration contract.
pub const CONTRACT_NAME: &'static str = "SimpleStorage";

/// The value that a fresh contract holds until the first identifier is set:
/// the argument of its constructor.
pub const INITIAL_VALUE: &'static str = "initial value";

/// An entry point of the registration contract.
#[derive(Clone, Copy, Debug, PartialEq, Eq, Structural)]
pub enum Method {
    /// Stores a new identifier; changes the contract's state.
    SetIdentifier,
    /// Returns the stored identifier; changes nothing.
    GetIdentifier,
}

impl Method {
    /// The name under which the contract exports the method.
    pub open spec fn spec_name(self) -> Seq<char> {
        match self {
            Method::SetIdentifier => "setIdentifier"@,
            Method::GetIdentifier => "getIdentifier"@,
        }
    }

    /// The method's declaration in the human-readable interface notation.
    pub open spec fn spec_signature(self) -> Seq<char> {
        match self {
            Method::SetIdentifier => "function setIdentifier(string)"@,
            Method::GetIdentifier => "function getIdentifier() external view returns (string)"@,
        }
    }

    /// Whether a call needs a signed transaction.
    pub open spec fn spec_changes_state(self) -> bool {
        self == Method::SetIdentifier
    }

    /// The name under which the contract exports the method.
    pub fn name(self) -> (r: &'static str)
        ensures
            r@ == self.spec_name(),
    {
        match self {
            Method::SetIdentifier => "setIdentifier",
            Method::GetIdentifier => "getIdentifier",
        }
    }

    /// The method's declaration in the human-readable interface notation.
    pub fn signature(self) -> (r: &'static str)
        ensures
            r@ == self.spec_signature(),
    {
        match self {
            Method::SetIdentifier => "function setIdentifier(string)",
            Method::GetIdentifier => "function getIdentifier() external view returns (string)",
        }
    }

    /// Whether a call needs a signed transaction. A read needs none.
    pub fn changes_state(self) -> (r: bool)
        ensures
            r == self.spec_changes_state(),
    {
        match self {
            Method::SetIdentifier => true,
            Method::GetIdentifier => false,
        }
    }
}

/// The whole interface: the two methods, the writing one first.
pub fn contract_interface() -> (r: [Method; 2])
    ensures
        r@ == seq![Method::SetIdentifier, Method::GetIdentifier],
{
    let methods = [Method::SetIdentifier, Method::GetIdentifier];
    assert(methods@ =~= seq![Method::SetIdentifier, Method::GetIdentifier]);
    methods
}

} // verus!
