//! Holders of sensitive values that overwrite their contents when released.
use vstd::prelude::*;

verus! {

/// Relies on `Zeroize::zeroize` for `String`: the bytes are overwritten with zeros
/// and the string is left empty.
#[verifier::external_body]
fn wipe_text(s: &mut String)
    ensures
        final(s)@ == Seq::<char>::empty(),
    opens_invariants none
    no_unwind
{
    zeroize::Zeroize::zeroize(s)
}

/// Relies on `Zeroize::zeroize` for byte arrays: every byte is overwritten with zero.
#[verifier::external_body]
fn wipe_bytes<const N: usize>(b: &mut [u8; N])
    ensures
        forall|i: int| 0 <= i < N ==> final(b)@[i] == 0u8,
    opens_invariants none
    no_unwind
{
    zeroize::Zeroize::zeroize(b)
}

/// Text that is overwritten when it goes out of scope, on every path.
pub struct SecretText {
    text: String,
}

impl SecretText {
    pub closed spec fn view(&self) -> Seq<char> {
        self.text@
    }

    /// Takes ownership of `text`.
    pub fn new(text: String) -> (r: SecretText)
        ensures
            r.view() == text@,
    {
        SecretText { text }
    }

    /// The text held.
    pub fn as_str(&self) -> (r: &str)
        ensures
            r@ == self.view(),
    {
        self.text.as_str()
    }
}

impl Drop for SecretText {
    fn drop(&mut self)
        opens_invariants none
        no_unwind
    {
        wipe_text(&mut self.text);
    }
}

/// A fixed number of bytes, overwritten with zeros when they go out of scope.
pub struct SecretBytes<const N: usize> {
    bytes: [u8; N],
}

impl<const N: usize> SecretBytes<N> {
    pub closed spec fn view(&self) -> Seq<u8> {
        self.bytes@
    }

    /// Takes ownership of `bytes`.
    pub fn new(bytes: [u8; N]) -> (r: SecretBytes<N>)
        ensures
            r.view() == bytes@,
    {
        SecretBytes { bytes }
    }

    /// Overwrites the byte at `i` with `v`.
    pub fn set(&mut self, i: usize, v: u8)
        requires
            i < N,
        ensures
            final(self).view() == old(self).view().update(i as int, v),
    {
        self.bytes.set(i, v);
    }

    /// The bytes held.
    pub fn bytes(&self) -> (r: &[u8; N])
        ensures
            r@ == self.view(),
    {
        &self.bytes
    }
}

impl<const N: usize> Drop for SecretBytes<N> {
    fn drop(&mut self)
        opens_invariants none
        no_unwind
    {
        wipe_bytes(&mut self.bytes);
    }
}

} // verus!
