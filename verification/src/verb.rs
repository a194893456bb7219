//! The request methods under which a handler can be registered.

use vstd::prelude::*;

verus! {

/// A method that the router offers a registration for.
#[derive(Clone, Copy, Debug, PartialEq, Eq, Hash, Structural)]
pub enum Verb {
    Get,
    Put,
    Post,
    Delete,
}

impl Verb {
    /// The method token as it stands on the request line.
    pub open spec fn name(self) -> Seq<char> {
        match self {
            Verb::Get => "GET"@,
            Verb::Put => "PUT"@,
            Verb::Post => "POST"@,
            Verb::Delete => "DELETE"@,
        }
    }

    /// The verb that a method token names, if any. Tokens are compared
    /// character by character: `get` names nothing.
    pub open spec fn named(token: Seq<char>) -> Option<Verb> {
        if token == "GET"@ {
            Some(Verb::Get)
        } else if token == "PUT"@ {
            Some(Verb::Put)
        } else if token == "POST"@ {
            Some(Verb::Post)
        } else if token == "DELETE"@ {
            Some(Verb::Delete)
        } else {
            None
        }
    }

    /// Reads a method token.
    pub fn from_name(token: &str) -> (verb: Option<Verb>)
        ensures
            verb == Verb::named(token@),
    {
        if same_text(token, "GET") {
            Some(Verb::Get)
        } else if same_text(token, "PUT") {
            Some(Verb::Put)
        } else if same_text(token, "POST") {
            Some(Verb::Post)
        } else if same_text(token, "DELETE") {
            Some(Verb::Delete)
        } else {
            None
        }
    }
}

/// Equality of two string slices, as `str`'s `==` decides it. Both slices are
/// valid UTF-8, so they hold the same bytes exactly when they hold the same
/// characters; the contract states the latter.
#[verifier::external_body]
fn same_text(left: &str, right: &str) -> (same: bool)
    ensures
        same == (left@ == right@),
{
    left == right
}

/// The four tokens are pairwise different.
pub proof fn lemma_names_differ(a: Verb, b: Verb)
    ensures
        a.name() == b.name() <==> a == b,
{
    reveal_strlit("GET");
    reveal_strlit("PUT");
    reveal_strlit("POST");
    reveal_strlit("DELETE");
    if a != b {
        assert(a.name().len() != b.name().len() || a.name()[0] != b.name()[0]);
    }
}

/// Reading the token of a verb gives that verb back.
pub proof fn lemma_named_name(verb: Verb)
    ensures
        Verb::named(verb.name()) == Some(verb),
{
    lemma_names_differ(verb, Verb::Get);
    lemma_names_differ(verb, Verb::Put);
    lemma_names_differ(verb, Verb::Post);
    lemma_names_differ(verb, Verb::Delete);
}

/// A token names a verb only if it is that verb's token, letter for letter.
pub proof fn lemma_named_only_by_name(token: Seq<char>, verb: Verb)
    ensures
        Verb::named(token) == Some(verb) <==> token == verb.name(),
{
    lemma_named_name(verb);
}

} // verus!
