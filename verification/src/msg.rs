//! The messages that the contract takes and the answers to its queries.

use vstd::prelude::*;

verus! {

/// What a contract is instantiated with: the first admins, as unchecked
/// address strings, and the denomination of donations.
#[derive(Clone, Debug, PartialEq, Eq)]
pub struct InstantiateMsg {
    pub admins: Vec<String>,
    pub donation_denom: String,
}

/// The commands that change state or move funds.
#[derive(Clone, Debug, PartialEq, Eq)]
pub enum ExecuteMsg {
    AddMembers { admins: Vec<String> },
    Leave {},
    Donate {},
}

/// The read-only requests.
#[derive(Clone, Debug, PartialEq, Eq)]
pub enum QueryMsg {
    Greet {},
    AdminList {},
}

/// The answer to `QueryMsg::Greet`.
#[derive(Clone, Debug, PartialEq, Eq)]
pub struct GreetResp {
    pub message: String,
}

/// The answer to `QueryMsg::AdminList`: the registry in stored order.
#[derive(Clone, Debug, PartialEq, Eq)]
pub struct AdminListResp {
    pub admins: Vec<String>,
}

/// The answer to a query, one variant for each request.
#[derive(Clone, Debug, PartialEq, Eq)]
pub enum QueryResp {
    Greet(GreetResp),
    AdminList(AdminListResp),
}

/// The host's verdict on one unchecked address: the validated address, or why
/// it was refused.
pub type Verdict = Result<String, String>;

/// A verdict over texts.
pub open spec fn verdict_view(v: Verdict) -> Result<Seq<char>, Seq<char>> {
    match v {
        Ok(addr) => Ok(addr@),
        Err(reason) => Err(reason@),
    }
}

/// A list of verdicts over texts, in order.
pub open spec fn verdicts(v: Seq<Verdict>) -> Seq<Result<Seq<char>, Seq<char>>> {
    Seq::new(v.len(), |i: int| verdict_view(v[i]))
}

} // verus!
