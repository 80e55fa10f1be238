//! Null-terminated byte strings, the only form in which text reaches the
//! engine.

use crate::error::Error;
use vstd::prelude::*;
use vstd::slice::slice_to_vec;
use vstd::string::StringSliceAdditionalSpecFns;

verus! {

/// The byte that ends a string on the engine's side.
pub const NUL: u8 = 0;

/// Whether `text` holds a null byte. Such a text has no null-terminated
/// form: the engine would read it as ending at that byte.
pub open spec fn has_nul(text: Seq<u8>) -> bool {
    exists|i: int| 0 <= i < text.len() && text[i] == NUL
}

/// The null-terminated form of `text`.
pub open spec fn terminated(text: Seq<u8>) -> Seq<u8> {
    text.push(NUL)
}

/// A text in null-terminated form. Its view is the text itself, without the
/// terminator.
#[derive(Debug)]
pub struct CBytes {
    bytes: Vec<u8>,
}

impl View for CBytes {
    type V = Seq<u8>;

    closed spec fn view(&self) -> Seq<u8> {
        self.bytes@.drop_last()
    }
}

impl CBytes {
    #[verifier::type_invariant]
    spec fn terminated_once(self) -> bool {
        &&& self.bytes@.len() > 0
        &&& self.bytes@.last() == NUL
        &&& !has_nul(self.bytes@.drop_last())
    }

    /// Brings `text` into null-terminated form. Fails with `ConfigError`
    /// exactly when `text` holds a null byte.
    pub fn new(text: &[u8]) -> (made: Result<CBytes, Error>)
        ensures
            made is Err <==> has_nul(text@),
            made matches Err(e) ==> e == Error::ConfigError,
            made matches Ok(c) ==> c@ == text@,
    {
        let mut i: usize = 0;
        while i < text.len()
            invariant
                i <= text.len(),
                forall|j: int| 0 <= j < i ==> text@[j] != NUL,
            decreases text.len() - i,
        {
            if text[i] == NUL {
                return Err(Error::ConfigError);
            }
            i += 1;
        }
        let mut bytes = slice_to_vec(text);
        bytes.push(NUL);
        assert(bytes@.drop_last() == text@);
        Ok(CBytes { bytes })
    }

    /// Brings the bytes of `text` into null-terminated form. Fails with
    /// `ConfigError` exactly when one of them is null.
    pub fn from_str(text: &str) -> (made: Result<CBytes, Error>)
        ensures
            made is Err <==> has_nul(text.spec_bytes()),
            made matches Err(e) ==> e == Error::ConfigError,
            made matches Ok(c) ==> c@ == text.spec_bytes(),
    {
        CBytes::new(text.as_bytes())
    }

    /// The text followed by its terminator, as the engine reads it. The
    /// terminator is the only null byte in it.
    pub fn as_bytes_with_nul(&self) -> (bytes: &[u8])
        ensures
            bytes@ == terminated(self@),
            !has_nul(self@),
    {
        proof {
            use_type_invariant(self);
            assert(self.bytes@ == self.bytes@.drop_last().push(NUL));
        }
        self.bytes.as_slice()
    }

    /// The number of bytes of the text, the terminator not counted.
    pub fn len(&self) -> (n: usize)
        ensures
            n == self@.len(),
    {
        proof {
            use_type_invariant(self);
        }
        self.bytes.len() - 1
    }
}

} // verus!
