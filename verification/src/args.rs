//! What the user can choose on the command line.

use crate::text::{or_default, text_or};
use vstd::prelude::*;
use vstd::string::*;

verus! {

/// The command line's choices.
#[derive(Debug, Clone, Default, PartialEq, Eq)]
pub struct Args {
    /// The namespace to look at.
    pub namespace: Option<String>,
}

impl Args {
    /// The namespace to look at: the one that was named, or `default`.
    pub fn target_namespace(&self) -> (namespace: String)
        ensures
            namespace@ == or_default(self.namespace.deep_view(), "default"@),
    {
        String::from_str(text_or(&self.namespace, "default"))
    }
}

} // verus!
