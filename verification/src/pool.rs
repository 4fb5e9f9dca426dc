//! The memory pool policy: which strategy bounds the memory of running queries.

use crate::text::{equals_text, fold, folded_chars_of};
use vstd::prelude::*;
use vstd::string::StringExecFns;

verus! {

/// How execution memory is managed across queries. Chosen once, when the
/// engine starts, and held for the life of the process.
#[derive(PartialEq, Eq, Structural, Debug, Clone, Copy)]
pub enum MemoryPoolType {
    /// Memory is handed out on demand up to the engine-wide limit.
    Greedy,
    /// Memory is apportioned across the queries that run at the same time.
    Fair,
    /// Memory accounting is switched off.
    Disabled,
}

/// The policy that a configuration text selects, if any. The text is read
/// under the simple lowercase fold; the empty text selects `Fair`.
pub open spec fn selected_pool(s: Seq<char>) -> Option<MemoryPoolType> {
    let f = fold(s);
    if f == "greedy"@ {
        Some(MemoryPoolType::Greedy)
    } else if f == "fair"@ || f.len() == 0 {
        Some(MemoryPoolType::Fair)
    } else if f == "none"@ || f == "off"@ {
        Some(MemoryPoolType::Disabled)
    } else {
        None
    }
}

/// The message that reports a configuration text which selects no policy.
pub open spec fn invalid_pool_message(s: Seq<char>) -> Seq<char> {
    "Invalid memory pool type '"@ + s + "'"@
}

impl MemoryPoolType {
    /// Reads the policy from its configuration text. Upper and lower case are
    /// not told apart; a text that names no policy is an error that quotes it.
    pub fn from_str(s: &str) -> (r: Result<MemoryPoolType, String>)
        ensures
            match selected_pool(s@) {
                Some(mode) => r == Ok::<MemoryPoolType, String>(mode),
                None => r is Err && r->Err_0@ == invalid_pool_message(s@),
            },
    {
        let f = folded_chars_of(s);
        if equals_text(&f, "greedy") {
            Ok(MemoryPoolType::Greedy)
        } else if equals_text(&f, "fair") || f.len() == 0 {
            Ok(MemoryPoolType::Fair)
        } else if equals_text(&f, "none") || equals_text(&f, "off") {
            Ok(MemoryPoolType::Disabled)
        } else {
            let mut message = String::from_str("Invalid memory pool type '");
            message.append(s);
            message.append("'");
            Err(message)
        }
    }
}

impl core::str::FromStr for MemoryPoolType {
    type Err = String;

    /// Reads the policy from its configuration text, by the same rules as
    /// the method of that name on the type itself.
    fn from_str(s: &str) -> (r: Result<MemoryPoolType, String>)
        ensures
            match selected_pool(s@) {
                Some(mode) => r == Ok::<MemoryPoolType, String>(mode),
                None => r is Err && r->Err_0@ == invalid_pool_message(s@),
            },
    {
        MemoryPoolType::from_str(s)
    }
}

/// A text that is already in lower case selects what it names: `greedy`,
/// `fair`, `none` and `off` select their policies, and the empty text selects
/// `Fair`.
pub proof fn lemma_lowercase_names()
    ensures
        selected_pool("greedy"@) == Some(MemoryPoolType::Greedy),
        selected_pool("fair"@) == Some(MemoryPoolType::Fair),
        selected_pool(""@) == Some(MemoryPoolType::Fair),
        selected_pool("none"@) == Some(MemoryPoolType::Disabled),
        selected_pool("off"@) == Some(MemoryPoolType::Disabled),
{
    reveal_strlit("greedy");
    reveal_strlit("fair");
    reveal_strlit("");
    reveal_strlit("none");
    reveal_strlit("off");
    assert(fold("greedy"@) =~= "greedy"@);
    assert(fold("fair"@) =~= "fair"@);
    assert(fold("none"@) =~= "none"@);
    assert(fold("off"@) =~= "off"@);
    assert("fair"@[0] == 'f' && "none"@[0] == 'n' && "off"@[0] == 'o' && "greedy"@[0] == 'g');
}

/// Case does not matter: two texts with the same fold select the same policy.
pub proof fn lemma_case_insensitive(a: Seq<char>, b: Seq<char>)
    requires
        fold(a) == fold(b),
    ensures
        selected_pool(a) == selected_pool(b),
{
}

} // verus!
