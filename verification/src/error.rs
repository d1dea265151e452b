//! Why a call was refused.

use vstd::prelude::*;

verus! {

/// The errors that the handlers return.
#[derive(Clone, Debug, PartialEq, Eq)]
pub enum ContractError {
    /// The host refused an address; `reason` is what it said.
    Validation { reason: String },
    /// The caller is no admin.
    Unauthorized { sender: String },
    /// The address is in the registry, or earlier in the same batch.
    AdminAlreadyExists { admin: String },
    /// A donation came while the registry was empty.
    NoRecipients,
}

/// A `ContractError` over texts.
pub enum ErrorView {
    Validation { reason: Seq<char> },
    Unauthorized { sender: Seq<char> },
    AdminAlreadyExists { admin: Seq<char> },
    NoRecipients,
}

impl View for ContractError {
    type V = ErrorView;

    open spec fn view(&self) -> ErrorView {
        match *self {
            ContractError::Validation { reason } => ErrorView::Validation { reason: reason@ },
            ContractError::Unauthorized { sender } => ErrorView::Unauthorized { sender: sender@ },
            ContractError::AdminAlreadyExists { admin } => ErrorView::AdminAlreadyExists {
                admin: admin@,
            },
            ContractError::NoRecipients => ErrorView::NoRecipients,
        }
    }
}

} // verus!
