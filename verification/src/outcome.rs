use vstd::prelude::*;

verus! {

/// The result of validating one value: either the value itself, accepted,
/// or the text saying why it was turned away. `accepted` tells which of
/// the two other fields is populated.
#[derive(Debug, PartialEq, Eq)]
pub struct ValidationOutcome<T> {
    pub accepted: bool,
    pub value: Option<T>,
    pub reason: Option<&'static str>,
}

impl<T> ValidationOutcome<T> {
    /// Exactly one of `value` and `reason` is present, and `accepted`
    /// says which: the value when the input passed, the reason when not.
    pub open spec fn wf(self) -> bool {
        &&& (self.accepted <==> self.value is Some)
        &&& (self.accepted <==> self.reason is None)
    }

    /// The rejection text as a sequence of characters, if any.
    pub open spec fn reason_view(self) -> Option<Seq<char>> {
        match self.reason {
            Some(m) => Some(m@),
            None => None,
        }
    }
}

/// Builds the rejected outcome that carries `reason` and no value.
pub fn error<T>(reason: &'static str) -> (r: ValidationOutcome<T>)
    ensures
        !r.accepted,
        r.value is None,
        r.reason == Some(reason),
        r.wf(),
{
    ValidationOutcome { accepted: false, value: None, reason: Some(reason) }
}

/// The catch-all rejection for a type that has no validation rule: a
/// template for a fallback branch should further types be wired up. No
/// rule in this crate produces it.
pub fn unsupported_type<T>() -> (r: ValidationOutcome<T>)
    ensures
        !r.accepted,
        r.value is None,
        r.reason_view() == Some("Can't parse this type"@),
        r.wf(),
{
    error("Can't parse this type")
}

} // verus!
