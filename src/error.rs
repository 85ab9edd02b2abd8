use vstd::prelude::*;
use vstd::string::StringExecFns;

verus! {

/// Every way an operation of the contract can be refused.
#[derive(Debug, Clone, PartialEq, Eq, Structural)]
pub enum ContractError {
    NotImplementedYet {},
    SwapDisabled {},
    Unauthorized {},
    InvalidInitMsg {},
    InvalidFundsReceived {},
    InvalidAmountsDistribution {},
    MaxSupplyReceivedReached {},
    MaxSupplyReached {},
}

impl ContractError {
    /// The text shown for the error. Both ceilings read the same.
    pub open spec fn message_spec(self) -> Seq<char> {
        match self {
            ContractError::NotImplementedYet {} => "NotImplementedYet"@,
            ContractError::SwapDisabled {} => "SwapDisabled"@,
            ContractError::Unauthorized {} => "Unauthorized"@,
            ContractError::InvalidInitMsg {} => "InvalidInitMsg"@,
            ContractError::InvalidFundsReceived {} => "InvalidFundsReceived"@,
            ContractError::InvalidAmountsDistribution {} => "InvalidAmountsDistribution"@,
            ContractError::MaxSupplyReceivedReached {} => "MaxSupplyReached"@,
            ContractError::MaxSupplyReached {} => "MaxSupplyReached"@,
        }
    }

    pub fn message(&self) -> (r: String)
        ensures
            r@ == self.message_spec(),
    {
        match self {
            ContractError::NotImplementedYet {} => String::from_str("NotImplementedYet"),
            ContractError::SwapDisabled {} => String::from_str("SwapDisabled"),
            ContractError::Unauthorized {} => String::from_str("Unauthorized"),
            ContractError::InvalidInitMsg {} => String::from_str("InvalidInitMsg"),
            ContractError::InvalidFundsReceived {} => String::from_str("InvalidFundsReceived"),
            ContractError::InvalidAmountsDistribution {} => String::from_str(
                "InvalidAmountsDistribution",
            ),
            ContractError::MaxSupplyReceivedReached {} => String::from_str("MaxSupplyReached"),
            ContractError::MaxSupplyReached {} => String::from_str("MaxSupplyReached"),
        }
    }
}

} // verus!
