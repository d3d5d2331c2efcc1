use vstd::prelude::*;

verus! {

/// What the greeting aggregate holds, as plain values.
pub struct StateView {
    pub greeting_message: Seq<char>,
    pub owner: Seq<char>,
}

/// The persisted greeting and its owner.
#[derive(Clone, Debug, PartialEq, Eq)]
pub struct State {
    pub greeting_message: String,
    pub owner: String,
}

impl View for State {
    type V = StateView;

    open spec fn view(&self) -> StateView {
        StateView { greeting_message: self.greeting_message@, owner: self.owner@ }
    }
}

/// The greeting that a message produces: a fixed prefix, then the message.
pub open spec fn greeting_of(message: Seq<char>) -> Seq<char> {
    "Hello World! "@ + message
}

/// Builds the greeting for `message`.
pub fn greeting(message: &str) -> (r: String)
    ensures
        r@ == greeting_of(message@),
{
    let mut r = String::from_str("Hello World! ");
    r.append(message);
    r
}

} // verus!
