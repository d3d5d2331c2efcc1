use vstd::prelude::*;

verus! {

/// The message that creates the greeting.
#[derive(Clone, Debug, PartialEq, Eq)]
pub struct InstantiateMsg {
    pub message: String,
}

/// The commands that change the greeting; each is for the owner alone.
#[derive(Clone, Debug, PartialEq, Eq)]
pub enum ExecuteMsg {
    Update { message: String },
}

/// The queries that read the greeting.
#[derive(Clone, Debug, PartialEq, Eq)]
pub enum QueryMsg {
    GetMessage {},
}

/// The greeting as a query shows it.
#[derive(Clone, Debug, PartialEq, Eq)]
pub struct GetMessageResponse {
    pub message: String,
}

} // verus!
