use vstd::prelude::*;
use vstd::string::StringExecFns;

verus! {

/// Why an instance could not be handed out.
#[derive(Debug, PartialEq, Eq)]
pub enum ResolveError {
    /// Neither an instance nor a resolver is registered for the type asked for.
    /// Holds the key under which the type was asked for.
    UnresolvableType(String),
}

/// How the message of an unresolvable type starts; the type's key follows.
pub const UNRESOLVABLE_PREFIX: &'static str = "Failed to resolve service of type ";

impl Clone for ResolveError {
    fn clone(&self) -> (copy: Self)
        ensures
            copy == *self,
    {
        match self {
            ResolveError::UnresolvableType(type_key) => ResolveError::UnresolvableType(
                type_key.clone(),
            ),
        }
    }
}

impl ResolveError {
    /// The text of `message`.
    pub open spec fn message_text(self) -> Seq<char> {
        match self {
            ResolveError::UnresolvableType(type_key) => UNRESOLVABLE_PREFIX@ + type_key@,
        }
    }

    /// A line for a human reader, which names the unresolvable type by its key.
    pub fn message(&self) -> (text: String)
        ensures
            text@ == self.message_text(),
    {
        match self {
            ResolveError::UnresolvableType(type_key) => {
                let mut text = String::from_str(UNRESOLVABLE_PREFIX);
                text.append(type_key.as_str());
                text
            },
        }
    }
}

} // verus!
