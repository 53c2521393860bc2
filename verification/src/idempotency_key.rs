//! Validation and wrapping of the caller-supplied idempotency key token.

use vstd::prelude::*;
use vstd::string::StrSliceExecFns;

verus! {

/// Keys must be strictly shorter than this many characters.
pub const MAX_KEY_LENGTH: usize = 50;

/// Why a raw key token was rejected.
#[derive(Debug, Clone, Copy, PartialEq, Eq, Structural)]
pub enum ValidationError {
    /// The raw token was empty.
    EmptyKey,
    /// The raw token was `MAX_KEY_LENGTH` characters or longer.
    TooLong,
}

/// A raw token is acceptable when it is non-empty and strictly shorter than
/// `MAX_KEY_LENGTH` characters (Unicode scalar count, not bytes).
pub open spec fn valid_key(s: Seq<char>) -> bool {
    0 < s.len() < MAX_KEY_LENGTH
}

/// An opaque, validated idempotency key token.
///
/// Immutable once constructed; the only constructor is [`IdempotencyKey::try_from`],
/// so every value of this type satisfies [`valid_key`].
#[derive(Debug)]
pub struct IdempotencyKey {
    token: String,
}

impl Clone for IdempotencyKey {
    fn clone(&self) -> (r: Self)
        ensures
            r@ == self@,
    {
        proof {
            use_type_invariant(self);
        }
        IdempotencyKey { token: self.token.clone() }
    }
}

impl View for IdempotencyKey {
    type V = Seq<char>;

    closed spec fn view(&self) -> Seq<char> {
        self.token@
    }
}

impl IdempotencyKey {
    #[verifier::type_invariant]
    spec fn type_inv(self) -> bool {
        valid_key(self.token@)
    }

    /// Validates a raw token: empty tokens are rejected with `EmptyKey`,
    /// tokens of `MAX_KEY_LENGTH` or more characters with `TooLong`; any other
    /// token is wrapped unchanged (no normalization, no trimming).
    pub fn try_from(raw: String) -> (r: Result<IdempotencyKey, ValidationError>)
        ensures
            match r {
                Ok(key) => valid_key(raw@) && key@ == raw@,
                Err(ValidationError::EmptyKey) => raw@.len() == 0,
                Err(ValidationError::TooLong) => raw@.len() >= MAX_KEY_LENGTH,
            },
    {
        let len = raw.as_str().unicode_len();
        if len == 0 {
            Err(ValidationError::EmptyKey)
        } else if len >= MAX_KEY_LENGTH {
            Err(ValidationError::TooLong)
        } else {
            Ok(IdempotencyKey { token: raw })
        }
    }

    /// Returns the wrapped token, unchanged; it is always a valid key.
    pub fn into(self) -> (r: String)
        ensures
            r@ == self@,
            valid_key(self@),
    {
        proof {
            use_type_invariant(&self);
        }
        self.token
    }

    /// Borrows the wrapped token, unchanged; it is always a valid key.
    pub fn as_str(&self) -> (r: &str)
        ensures
            r@ == self@,
            valid_key(self@),
    {
        proof {
            use_type_invariant(self);
        }
        self.token.as_str()
    }

    /// Two keys are equal exactly when their tokens are.
    pub fn key_eq(&self, other: &IdempotencyKey) -> (r: bool)
        ensures
            r == (self@ == other@),
    {
        self.token == other.token
    }
}

} // verus!
