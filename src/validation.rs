use vstd::prelude::*;

verus! {

/// Why a letter failed to validate.
#[derive(PartialEq, Eq, Structural, Debug, Clone, Copy)]
pub enum ValidationError {
    /// The signature does not match the expected signer.
    SignatureInvalid,
    /// The issuing certificate does not lead back to a trusted root.
    ParentInvalid,
}

/// A question that validation puts to the validator.
#[derive(PartialEq, Eq, Structural, Debug, Clone, Copy)]
pub enum Query {
    /// Is the signature hash a valid master signature over the fingerprint?
    RootSignature,
    /// Is the parent certificate itself valid?
    ParentTrust,
    /// Does the parent certificate verify the signature hash over the fingerprint?
    ParentSignature,
}

/// Where validation stands: another question to answer, or the outcome.
#[derive(PartialEq, Eq, Structural, Debug, Clone, Copy)]
pub enum Step {
    /// The validator has to answer this question.
    Ask(Query),
    /// The letter is valid.
    Valid,
    /// The letter is invalid, for this reason.
    Invalid(ValidationError),
}

/// The step that follows the answer `answer` to the question `asked`.
pub open spec fn spec_next(asked: Query, answer: bool) -> Step {
    match asked {
        Query::RootSignature => if answer {
            Step::Valid
        } else {
            Step::Invalid(ValidationError::SignatureInvalid)
        },
        Query::ParentTrust => if answer {
            Step::Ask(Query::ParentSignature)
        } else {
            Step::Invalid(ValidationError::ParentInvalid)
        },
        Query::ParentSignature => if answer {
            Step::Valid
        } else {
            Step::Invalid(ValidationError::SignatureInvalid)
        },
    }
}

impl Step {
    /// Moves validation on by the validator's answer to the question `asked`.
    pub fn resume(asked: Query, answer: bool) -> (r: Step)
        ensures
            r == spec_next(asked, answer),
    {
        match asked {
            Query::RootSignature => if answer {
                Step::Valid
            } else {
                Step::Invalid(ValidationError::SignatureInvalid)
            },
            Query::ParentTrust => if answer {
                Step::Ask(Query::ParentSignature)
            } else {
                Step::Invalid(ValidationError::ParentInvalid)
            },
            Query::ParentSignature => if answer {
                Step::Valid
            } else {
                Step::Invalid(ValidationError::SignatureInvalid)
            },
        }
    }
}

/// What the validator answers to each question.
pub struct Answers {
    pub root_signature: bool,
    pub parent_trust: bool,
    pub parent_signature: bool,
}

pub open spec fn spec_answer(q: Query, a: Answers) -> bool {
    match q {
        Query::RootSignature => a.root_signature,
        Query::ParentTrust => a.parent_trust,
        Query::ParentSignature => a.parent_signature,
    }
}

/// The outcome of running validation from `s`, each question answered by `a`.
/// Validation asks at most two questions, so two answers end it.
pub open spec fn spec_run(s: Step, a: Answers) -> Step {
    match s {
        Step::Ask(q) => match spec_next(q, spec_answer(q, a)) {
            Step::Ask(q2) => spec_next(q2, spec_answer(q2, a)),
            done => done,
        },
        done => done,
    }
}

} // verus!
