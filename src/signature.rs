use vstd::prelude::*;

verus! {

/// A signature over a letter's fingerprint: either made directly with the
/// master key (no parent), or made by the parent certificate `C`.
#[derive(Debug)]
pub struct Signature<C> {
    hash: Vec<u8>,
    parent: Option<Box<C>>,
}

impl<C> Signature<C> {
    /// The signature bytes.
    pub closed spec fn spec_hash(&self) -> Seq<u8> {
        self.hash@
    }

    /// The certificate that made the signature, if any.
    pub closed spec fn spec_parent(&self) -> Option<C> {
        match self.parent {
            Some(p) => Some(*p),
            None => None,
        }
    }

    /// A signature made with the master key.
    pub fn new(hash: Vec<u8>) -> (r: Signature<C>)
        ensures
            r.spec_hash() == hash@,
            r.spec_parent() is None,
    {
        Signature { hash, parent: None }
    }

    /// A signature made by the certificate `parent`.
    pub fn with_parent(parent: Box<C>, hash: Vec<u8>) -> (r: Signature<C>)
        ensures
            r.spec_hash() == hash@,
            r.spec_parent() == Some(*parent),
    {
        Signature { hash, parent: Some(parent) }
    }

    /// True iff the signature has no parent certificate.
    pub fn is_signed_by_master(&self) -> (r: bool)
        ensures
            r == (self.spec_parent() is None),
    {
        self.parent.is_none()
    }

    /// The parent certificate, or `None` for a master signature.
    pub fn parent(&self) -> (r: Option<&C>)
        ensures
            r == match self.spec_parent() {
                Some(p) => Some(&p),
                None => None::<&C>,
            },
    {
        match &self.parent {
            Some(p) => Some(&**p),
            None => None,
        }
    }

    /// The signature bytes.
    pub fn hash(&self) -> (r: &Vec<u8>)
        ensures
            r@ == self.spec_hash(),
    {
        &self.hash
    }
}

} // verus!
