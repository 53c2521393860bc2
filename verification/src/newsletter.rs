//! The newsletter publishing submission: the one caller-facing payload that
//! feeds the engine. The boundary layer receives it as an HTML form; here it
//! is taken apart and its key token validated before the engine is consulted.

use crate::idempotency_key::{valid_key, IdempotencyKey, ValidationError, MAX_KEY_LENGTH};
use vstd::prelude::*;

verus! {

/// A newsletter publishing submission, as handed over by the form boundary.
#[derive(Debug)]
pub struct FormData {
    pub title: String,
    pub text_content: String,
    pub html_content: String,
    pub idempotency_key: String,
}

/// The issue content of a submission, once its key token is validated.
#[derive(Debug)]
pub struct NewsletterIssue {
    pub title: String,
    pub text_content: String,
    pub html_content: String,
}

impl FormData {
    /// Takes the submission apart: the issue content passes through
    /// unchanged, and the raw key token is validated into an
    /// [`IdempotencyKey`] or rejected (see [`IdempotencyKey::try_from`]).
    pub fn into_parts(self) -> (r: Result<(NewsletterIssue, IdempotencyKey), ValidationError>)
        ensures
            match r {
                Ok(p) => p.0.title@ == self.title@ && p.0.text_content@ == self.text_content@
                    && p.0.html_content@ == self.html_content@ && valid_key(self.idempotency_key@)
                    && p.1@ == self.idempotency_key@,
                Err(ValidationError::EmptyKey) => self.idempotency_key@.len() == 0,
                Err(ValidationError::TooLong) => self.idempotency_key@.len() >= MAX_KEY_LENGTH,
            },
    {
        let FormData { title, text_content, html_content, idempotency_key } = self;
        match IdempotencyKey::try_from(idempotency_key) {
            Ok(key) => Ok((NewsletterIssue { title, text_content, html_content }, key)),
            Err(e) => Err(e),
        }
    }
}

} // verus!
