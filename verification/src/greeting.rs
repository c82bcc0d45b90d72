//! The state of the greeting application and the text it shows.
use vstd::prelude::*;
use vstd::string::StringExecFns;

verus! {

/// The application state: the name to greet.
pub struct State {
    pub text: String,
}

impl State {
    /// A state greeting `text`.
    pub fn new(text: &str) -> (s: State)
        ensures
            s.text@ == text@,
    {
        State { text: String::from_str(text) }
    }
}

/// The greeting shown for a state: "Hello " followed by its text.
pub open spec fn greeting_text(text: Seq<char>) -> Seq<char> {
    "Hello "@ + text
}

/// The label text of the application: "Hello " followed by the state's text.
pub fn greeting(data: &State) -> (g: String)
    ensures
        g@ == greeting_text(data.text@),
{
    let mut g = String::from_str("Hello ");
    g.append(data.text.as_str());
    g
}

/// The greeting is "Hello " (six characters) followed by the whole text.
pub proof fn lemma_greeting_parts(text: Seq<char>)
    ensures
        greeting_text(text).len() == 6 + text.len(),
        greeting_text(text).subrange(0, 6) == seq!['H', 'e', 'l', 'l', 'o', ' '],
        greeting_text(text).subrange(6, 6 + text.len() as int) == text,
{
    reveal_strlit("Hello ");
    assert(greeting_text(text).subrange(0, 6) =~= seq!['H', 'e', 'l', 'l', 'o', ' ']);
    assert(greeting_text(text).subrange(6, 6 + text.len() as int) =~= text);
}

} // verus!
