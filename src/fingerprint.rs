use vstd::prelude::*;
use vstd::string::StringSliceAdditionalSpecFns;

verus! {

/// Content that can be reduced to a canonical byte sequence, the material
/// that gets signed and verified.
pub trait Fingerprint {
    /// The bytes that `fingerprint` returns.
    spec fn fingerprint_view(&self) -> Seq<u8>;

    fn fingerprint(&self) -> (r: Vec<u8>)
        ensures
            r@ == self.fingerprint_view(),
    ;
}

/// A string is fingerprinted by its UTF-8 bytes.
impl<'a> Fingerprint for &'a str {
    open spec fn fingerprint_view(&self) -> Seq<u8> {
        (**self).spec_bytes()
    }

    fn fingerprint(&self) -> (r: Vec<u8>) {
        let b: &[u8] = (**self).as_bytes();
        vstd::slice::slice_to_vec(b)
    }
}

/// A byte vector is its own fingerprint.
impl Fingerprint for Vec<u8> {
    open spec fn fingerprint_view(&self) -> Seq<u8> {
        self@
    }

    fn fingerprint(&self) -> (r: Vec<u8>) {
        self.clone()
    }
}

/// Two strings with different characters have different fingerprints, so a
/// signature over one is a signature over different bytes than the other.
pub proof fn lemma_str_fingerprint_injective(a: &str, b: &str)
    requires
        a@ != b@,
    ensures
        a.fingerprint_view() != b.fingerprint_view(),
{
    vstd::utf8::encode_utf8_decode_utf8(a@);
    vstd::utf8::encode_utf8_decode_utf8(b@);
}

} // verus!
