use vstd::prelude::*;

verus! {

/// The closed set of failures that every layer above storage speaks in.
#[derive(Debug, Clone, PartialEq, Eq)]
pub enum DomainError {
    /// No record is held under the requested key.
    NotFound,
    /// The input broke a rule of the domain; the message says which.
    Validation(String),
    /// A failure of a backend that is not otherwise classified; the text is
    /// its cause, kept for diagnosis and never shown to a client.
    Other(String),
}

impl DomainError {
    /// The human-readable description of the failure.
    pub fn message(&self) -> (r: String)
        ensures
            r@ == self.message_spec(),
    {
        match self {
            DomainError::NotFound => "not found".to_string(),
            DomainError::Validation(m) => {
                let mut s = String::from_str("validation: ");
                s.append(m.as_str());
                s
            },
            DomainError::Other(c) => c.clone(),
        }
    }

    pub open spec fn message_spec(&self) -> Seq<char> {
        match self {
            DomainError::NotFound => "not found"@,
            DomainError::Validation(m) => "validation: "@ + m@,
            DomainError::Other(c) => c@,
        }
    }
}

} // verus!
