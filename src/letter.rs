use vstd::prelude::*;

use crate::fingerprint::{lemma_str_fingerprint_injective, Fingerprint};
use crate::signature::Signature;
use crate::validation::{spec_run, Answers, Query, Step, ValidationError};

verus! {

/// Construction from a certificate failed: the certificate holds no private
/// signing key.
#[derive(PartialEq, Eq, Structural, Debug, Clone, Copy)]
pub enum SigningFailed {
    NoPrivateKey,
}

/// Content bound to a signature over its fingerprint.
///
/// The signature never changes once the letter is built; `content` may be
/// replaced, and validation then checks the signature against the new
/// content's fingerprint.
#[derive(Debug)]
pub struct Letter<T, C> {
    pub content: T,
    signature: Signature<C>,
}

impl<T: Fingerprint, C> Letter<T, C> {
    pub closed spec fn spec_content(&self) -> T {
        self.content
    }

    pub closed spec fn spec_signature(&self) -> Signature<C> {
        self.signature
    }

    /// The first step of validation: a master-signed letter asks for the root
    /// check, a certificate-signed one first asks whether its parent is valid.
    pub open spec fn spec_start(&self) -> Step {
        if self.spec_signature().spec_parent() is None {
            Step::Ask(Query::RootSignature)
        } else {
            Step::Ask(Query::ParentTrust)
        }
    }

    /// Builds a letter from its parts, without any check.
    pub fn new(content: T, signature: Signature<C>) -> (r: Letter<T, C>)
        ensures
            r.spec_content() == content,
            r.spec_signature() == signature,
    {
        Letter { content, signature }
    }

    /// Builds a letter signed with the master key: `hash` is the master
    /// key's signature over `content.fingerprint()`.
    pub fn with_private_key(content: T, hash: Vec<u8>) -> (r: Letter<T, C>)
        ensures
            r.spec_content() == content,
            r.spec_signature().spec_parent() is None,
            r.spec_signature().spec_hash() == hash@,
    {
        Letter::new(content, Signature::new(hash))
    }

    /// Builds a letter signed by `cert`. `signed` is what the certificate
    /// returned when asked to sign `content.fingerprint()`: `None` when it
    /// holds no private key, and then no letter is built.
    pub fn with_certificate(content: T, cert: C, signed: Option<Vec<u8>>) -> (r: Result<
        Letter<T, C>,
        SigningFailed,
    >)
        ensures
            signed is None <==> r == Err::<Letter<T, C>, SigningFailed>(SigningFailed::NoPrivateKey),
            signed matches Some(h) ==> r matches Ok(l) && l.spec_content() == content
                && l.spec_signature().spec_parent() == Some(cert)
                && l.spec_signature().spec_hash() == h@,
    {
        match signed {
            Some(hash) => Ok(Letter::new(content, Signature::with_parent(Box::new(cert), hash))),
            None => Err(SigningFailed::NoPrivateKey),
        }
    }

    /// The content.
    pub fn get(&self) -> (r: &T)
        ensures
            *r == self.spec_content(),
    {
        &self.content
    }

    /// The signature.
    pub fn signature(&self) -> (r: &Signature<C>)
        ensures
            *r == self.spec_signature(),
    {
        &self.signature
    }

    /// Starts validation. The validator answers each question that a step
    /// asks about `self.fingerprint()` and `self.signature()`, and
    /// `Step::resume` turns the answer into the next step.
    pub fn self_validate(&self) -> (r: Step)
        ensures
            r == self.spec_start(),
    {
        if self.signature.is_signed_by_master() {
            Step::Ask(Query::RootSignature)
        } else {
            Step::Ask(Query::ParentTrust)
        }
    }

    /// A letter is never revoked by itself: revocation belongs to the
    /// certificates of its chain, which the validator checks.
    pub fn self_check_revoked<R>(&self, _revoker: &R) -> (r: Result<(), RevokeError>)
        ensures
            r is Ok,
    {
        Ok(())
    }
}

/// A master-signed letter (what `with_private_key` builds) is valid exactly
/// when the validator accepts its hash as a master signature over its
/// fingerprint, and is otherwise rejected with `SignatureInvalid`.
pub proof fn lemma_master_signed_validates<T: Fingerprint, C>(l: Letter<T, C>, a: Answers)
    requires
        l.spec_signature().spec_parent() is None,
    ensures
        spec_run(l.spec_start(), a) == (if a.root_signature {
            Step::Valid
        } else {
            Step::Invalid(ValidationError::SignatureInvalid)
        }),
{
}

/// A certificate-signed letter (what `with_certificate` builds) is valid
/// exactly when its certificate is valid and the certificate verifies the
/// letter's hash over its fingerprint.
pub proof fn lemma_certificate_signed_validates<T: Fingerprint, C>(l: Letter<T, C>, a: Answers)
    requires
        l.spec_signature().spec_parent() is Some,
    ensures
        (spec_run(l.spec_start(), a) == Step::Valid) <==> (a.parent_trust && a.parent_signature),
{
}

/// A letter whose certificate is not valid is rejected with `ParentInvalid`,
/// whatever its own signature holds: a broken link is reported as a broken
/// parent by everything signed below it.
pub proof fn lemma_invalid_parent_rejects<T: Fingerprint, C>(l: Letter<T, C>, a: Answers)
    requires
        l.spec_signature().spec_parent() is Some,
        !a.parent_trust,
    ensures
        spec_run(l.spec_start(), a) == Step::Invalid(ValidationError::ParentInvalid),
{
}

/// Validation always ends: after the validator's answers there is no
/// question left.
pub proof fn lemma_validation_ends<T: Fingerprint, C>(l: Letter<T, C>, a: Answers)
    ensures
        !(spec_run(l.spec_start(), a) is Ask),
{
}

/// Replacing the content of a letter of strings keeps its signature and the
/// questions that validation asks, but they are then asked of different
/// bytes: the old signature is checked against the new content.
pub proof fn lemma_tampered_content<C>(signed: Letter<&str, C>, tampered: Letter<&str, C>)
    requires
        tampered.spec_signature() == signed.spec_signature(),
        tampered.spec_content()@ != signed.spec_content()@,
    ensures
        tampered.spec_start() == signed.spec_start(),
        tampered.fingerprint_view() != signed.fingerprint_view(),
{
    lemma_str_fingerprint_injective(tampered.spec_content(), signed.spec_content());
}

/// Why a revocation check failed.
#[derive(PartialEq, Eq, Structural, Debug, Clone, Copy)]
pub enum RevokeError {
    Revoked,
    ServerUnavailable,
}

/// A letter's fingerprint is its content's.
impl<T: Fingerprint, C> Fingerprint for Letter<T, C> {
    open spec fn fingerprint_view(&self) -> Seq<u8> {
        self.spec_content().fingerprint_view()
    }

    fn fingerprint(&self) -> (r: Vec<u8>) {
        self.content.fingerprint()
    }
}

/// A letter reads as its content.
impl<T: Fingerprint, C> core::ops::Deref for Letter<T, C> {
    type Target = T;

    fn deref(&self) -> (r: &T)
        ensures
            *r == self.spec_content(),
    {
        self.get()
    }
}

} // verus!
