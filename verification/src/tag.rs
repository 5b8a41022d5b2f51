//! Tags: short non-blank labels used for filtering content.

use crate::error::DomainError;
use crate::text::{all_white, is_blank};
use vstd::prelude::*;

verus! {

/// A label for filtering and categorization; `new` refuses blank text.
#[derive(Debug, Clone, PartialEq, Eq, Hash)]
pub struct Tag {
    value: String,
}

impl View for Tag {
    type V = Seq<char>;

    closed spec fn view(&self) -> Seq<char> {
        self.value@
    }
}

impl Tag {
    /// A tag with the given text; blank text is a validation error.
    pub fn new(value: &str) -> (r: Result<Tag, DomainError>)
        ensures
            all_white(value@) ==> (r matches Err(DomainError::Validation(m)) && m@
                == "Tag cannot be empty"@),
            !all_white(value@) ==> (r matches Ok(t) && t@ == value@),
    {
        if is_blank(value) {
            Err(DomainError::validation("Tag cannot be empty"))
        } else {
            Ok(Tag { value: value.to_owned() })
        }
    }

    /// The text of this tag.
    pub fn as_str(&self) -> (r: &str)
        ensures
            r@ == self@,
    {
        self.value.as_str()
    }
}

} // verus!
