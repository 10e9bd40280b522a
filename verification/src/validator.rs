use vstd::prelude::*;

use crate::outcome::ValidationOutcome;
use crate::outcome::error;

verus! {

/// The contract of `validate`, bundled for the lemmas below: on the input
/// `v` it returns a well-formed outcome, accepted exactly when the type's
/// sentinel rule does not turn `v` away, carrying the input itself on
/// acceptance and the rule's text otherwise.
pub open spec fn validate_post<T: Validatable>(v: T, r: ValidationOutcome<T>) -> bool {
    &&& r.wf()
    &&& (r.accepted == !v.rejects())
    &&& (!v.rejects() ==> r.value == Some(v))
    &&& (v.rejects() ==> r.reason_view() == Some(v.rejection_text()))
}

/// A type with a validation rule of its own. The set of such types is
/// closed: a type joins it by naming the inputs its sentinel rule turns
/// away, the text given for them, and the checking function itself.
pub trait Validatable: Sized {
    /// Whether the type's sentinel rule turns `self` away.
    spec fn rejects(self) -> bool;

    /// The text given for an input the rule turns away.
    spec fn rejection_text(self) -> Seq<char>;

    /// Checks `self` against the type's sentinel rule and returns the
    /// tagged outcome, taking ownership of the input.
    fn validate(self) -> (r: ValidationOutcome<Self>)
        ensures
            r.wf(),
            r.accepted == !self.rejects(),
            !self.rejects() ==> r.value == Some(self),
            self.rejects() ==> r.reason_view() == Some(self.rejection_text()),
    ;
}

/// Integers: everything but zero passes.
impl Validatable for i32 {
    open spec fn rejects(self) -> bool {
        self == 0
    }

    open spec fn rejection_text(self) -> Seq<char> {
        "Can't be 0"@
    }

    fn validate(self) -> (r: ValidationOutcome<i32>) {
        if self == 0 {
            error("Can't be 0")
        } else {
            ValidationOutcome { accepted: true, value: Some(self), reason: None }
        }
    }
}

/// Text: everything but the literal "dog" passes.
impl Validatable for String {
    open spec fn rejects(self) -> bool {
        self@ == "dog"@
    }

    open spec fn rejection_text(self) -> Seq<char> {
        "Can't be a dog"@
    }

    fn validate(self) -> (r: ValidationOutcome<String>) {
        let dog: String = "dog".to_owned();
        if self == dog {
            error("Can't be a dog")
        } else {
            ValidationOutcome { accepted: true, value: Some(self), reason: None }
        }
    }
}

/// Every nonzero integer is accepted: the outcome carries the input
/// unchanged and no rejection text.
pub proof fn lemma_nonzero_accepted(n: i32, r: ValidationOutcome<i32>)
    requires
        n != 0,
        validate_post(n, r),
    ensures
        r.accepted,
        r.value == Some(n),
        r.reason is None,
{
}

/// Zero is rejected: the outcome carries no value and the text
/// "Can't be 0".
pub proof fn lemma_zero_rejected(r: ValidationOutcome<i32>)
    requires
        validate_post(0i32, r),
    ensures
        !r.accepted,
        r.value is None,
        r.reason_view() == Some("Can't be 0"@),
{
}

/// Every text other than "dog" is accepted: the outcome carries the input
/// unchanged and no rejection text.
pub proof fn lemma_text_accepted(s: String, r: ValidationOutcome<String>)
    requires
        s@ != "dog"@,
        validate_post(s, r),
    ensures
        r.accepted,
        r.value == Some(s),
        r.reason is None,
{
}

/// The text "dog" is rejected: the outcome carries no value and the text
/// "Can't be a dog".
pub proof fn lemma_dog_rejected(s: String, r: ValidationOutcome<String>)
    requires
        s@ == "dog"@,
        validate_post(s, r),
    ensures
        !r.accepted,
        r.value is None,
        r.reason_view() == Some("Can't be a dog"@),
{
}

/// In every outcome of validation exactly one of the value and the reason
/// is present, whatever the supported type.
pub proof fn lemma_exactly_one<T: Validatable>(v: T, r: ValidationOutcome<T>)
    requires
        validate_post(v, r),
    ensures
        r.value is Some <==> r.reason is None,
        r.wf(),
{
}

/// Validation is deterministic: two outcomes of validating the same input
/// agree in the flag, the value and the rejection text, with no hidden
/// state to tell them apart.
pub proof fn lemma_validate_idempotent<T: Validatable>(
    v: T,
    r1: ValidationOutcome<T>,
    r2: ValidationOutcome<T>,
)
    requires
        validate_post(v, r1),
        validate_post(v, r2),
    ensures
        r1.accepted == r2.accepted,
        r1.value == r2.value,
        r1.reason_view() == r2.reason_view(),
{
}

} // verus!
