//! String conversion helpers: empty text as "no value".

use vstd::prelude::*;

verus! {

/// `None` for an empty string, otherwise the string itself (whitespace is
/// not empty).
pub fn none_if_empty(value: &str) -> (r: Option<&str>)
    ensures
        value@.len() == 0 ==> r is None,
        value@.len() > 0 ==> r == Some(value),
{
    if value.is_empty() {
        None
    } else {
        Some(value)
    }
}

/// `None` for an empty string, otherwise the string itself.
pub fn some_if_not_empty(value: String) -> (r: Option<String>)
    ensures
        value@.len() == 0 ==> r is None,
        value@.len() > 0 ==> r == Some(value),
{
    if value.as_str().is_empty() {
        None
    } else {
        Some(value)
    }
}

/// Extension trait for strings providing `into_option` as a method.
pub trait StringExt: Sized {
    /// `None` if empty, otherwise `Some(self)`.
    fn into_option(self) -> Option<String>;
}

impl StringExt for String {
    fn into_option(self) -> (r: Option<String>)
        ensures
            self@.len() == 0 ==> r is None,
            self@.len() > 0 ==> r == Some(self),
    {
        some_if_not_empty(self)
    }
}

} // verus!
