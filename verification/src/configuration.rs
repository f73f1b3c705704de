//! The settings that select a locale.

use vstd::prelude::*;

verus! {

/// The locale that the application runs in.
#[derive(Debug)]
pub struct ApplicationConfig {
    pub language: String,
    pub country: String,
}

impl Clone for ApplicationConfig {
    fn clone(&self) -> (copy: Self)
        ensures
            copy.language@ == self.language@,
            copy.country@ == self.country@,
    {
        ApplicationConfig { language: self.language.clone(), country: self.country.clone() }
    }
}

} // verus!
