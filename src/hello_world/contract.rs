use vstd::prelude::*;

use crate::error::{authorize, ContractError};
use crate::hello_world::msg::{ExecuteMsg, GetMessageResponse, InstantiateMsg, QueryMsg};
use crate::hello_world::state::{greeting, greeting_of, State, StateView};
use crate::response::Response;

verus! {

/// The greeting after an update by `sender`: the new greeting where `sender`
/// is the owner, else `Unauthorized`.
pub open spec fn update_outcome(s: StateView, sender: Seq<char>, message: Seq<char>) -> Result<
    StateView,
    ContractError,
> {
    if sender == s.owner {
        Ok(StateView { greeting_message: greeting_of(message), owner: s.owner })
    } else {
        Err(ContractError::Unauthorized)
    }
}

/// Creates the greeting owned by the caller.
pub fn instantiate(sender: &String, msg: InstantiateMsg) -> (r: (State, Response))
    ensures
        r.0@ == (StateView { greeting_message: greeting_of(msg.message@), owner: sender@ }),
        r.1.attrs() == seq![
            ("method"@, "instantiate"@),
            ("owner"@, sender@),
            ("greeting_message"@, msg.message@),
        ],
{
    let state = State { greeting_message: greeting(msg.message.as_str()), owner: sender.clone() };
    let resp = Response::new().add_attribute("method", String::from_str("instantiate")).add_attribute(
        "owner",
        sender.clone(),
    ).add_attribute("greeting_message", msg.message);
    (state, resp)
}

/// Applies a command to the stored greeting: `NotFound` where nothing is
/// stored, `Unauthorized` where the caller is not the owner, else the new
/// greeting.
pub fn execute(stored: Option<State>, sender: &String, msg: ExecuteMsg) -> (r: Result<
    (State, Response),
    ContractError,
>)
    ensures
        stored is None ==> r == Err::<(State, Response), ContractError>(ContractError::NotFound),
        stored is Some ==> match msg {
            ExecuteMsg::Update { message } => match update_outcome(
                stored->Some_0@,
                sender@,
                message@,
            ) {
                Ok(s) => {
                    &&& r is Ok
                    &&& r->Ok_0.0@ == s
                    &&& r->Ok_0.1.attrs() == seq![("action"@, "update_greeting_message"@)]
                },
                Err(e) => r == Err::<(State, Response), ContractError>(e),
            },
        },
{
    let mut state = match stored {
        Some(s) => s,
        None => return Err(ContractError::NotFound),
    };
    let r = match msg {
        ExecuteMsg::Update { message } => update_greeting_message(&mut state, sender, message),
    };
    match r {
        Ok(resp) => Ok((state, resp)),
        Err(e) => Err(e),
    }
}

/// Replaces the greeting, for the owner alone; otherwise nothing changes.
pub fn update_greeting_message(state: &mut State, sender: &String, message: String) -> (r: Result<
    Response,
    ContractError,
>)
    ensures
        match update_outcome(old(state)@, sender@, message@) {
            Ok(s) => {
                &&& r is Ok
                &&& final(state)@ == s
                &&& r->Ok_0.attrs() == seq![("action"@, "update_greeting_message"@)]
            },
            Err(e) => {
                &&& r == Err::<Response, ContractError>(e)
                &&& *final(state) == *old(state)
            },
        },
{
    if let Err(e) = authorize(sender, &state.owner) {
        return Err(e);
    }
    state.greeting_message = greeting(message.as_str());
    Ok(Response::new().add_attribute("action", String::from_str("update_greeting_message")))
}

/// Answers a query from the stored greeting: `NotFound` where nothing is
/// stored.
pub fn query(stored: Option<State>, msg: QueryMsg) -> (r: Result<GetMessageResponse, ContractError>)
    ensures
        stored is None ==> r == Err::<GetMessageResponse, ContractError>(ContractError::NotFound),
        stored is Some ==> r is Ok && r->Ok_0.message@ == stored->Some_0@.greeting_message,
{
    match stored {
        None => Err(ContractError::NotFound),
        Some(state) => match msg {
            QueryMsg::GetMessage {  } => Ok(get_message(&state)),
        },
    }
}

/// The current greeting.
pub fn get_message(state: &State) -> (r: GetMessageResponse)
    ensures
        r.message@ == state@.greeting_message,
{
    GetMessageResponse { message: state.greeting_message.clone() }
}

/// An update by the owner yields the greeting for its message, and the same
/// update made again leaves the greeting as the first one left it.
pub proof fn lemma_update_idempotent(s: StateView, message: Seq<char>)
    ensures
        update_outcome(s, s.owner, message) is Ok,
        update_outcome(s, s.owner, message)->Ok_0.greeting_message == greeting_of(message),
        update_outcome(update_outcome(s, s.owner, message)->Ok_0, s.owner, message)
            == update_outcome(s, s.owner, message),
{
}

} // verus!
