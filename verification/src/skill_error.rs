//! Per-skill errors collected while discovering skills.
use vstd::prelude::*;
use crate::text::{append_str, concat};

verus! {

/// Error associated with a specific skill directory.
#[derive(Debug, Clone)]
pub struct SkillError {
    pub dir: String,
    /// The error's display text.
    pub err: String,
}

impl SkillError {
    /// The display text: `<dir>: <err>`.
    pub fn message(&self) -> (r: String)
        ensures
            r@ == self.dir@ + ": "@ + self.err@,
    {
        let mut m = concat(self.dir.as_str(), ": ");
        append_str(&mut m, self.err.as_str());
        m
    }
}

} // verus!
