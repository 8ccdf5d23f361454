//! The HTTP verbs a route annotation may carry, and the parser for their
//! lowercase tokens.

use vstd::prelude::*;

verus! {

/// The six HTTP verbs supported by route annotations.
#[derive(Clone, Copy, PartialEq, Eq, Structural, Debug)]
pub enum Method {
    Get,
    Post,
    Put,
    Patch,
    Delete,
    Head,
}

/// Which `Method` a case-sensitive lowercase token denotes, if any.
pub open spec fn spec_parse_method(s: Seq<char>) -> Option<Method> {
    if s == "get"@ {
        Some(Method::Get)
    } else if s == "post"@ {
        Some(Method::Post)
    } else if s == "put"@ {
        Some(Method::Put)
    } else if s == "patch"@ {
        Some(Method::Patch)
    } else if s == "delete"@ {
        Some(Method::Delete)
    } else if s == "head"@ {
        Some(Method::Head)
    } else {
        None
    }
}

impl Method {
    /// Parses a case-sensitive lowercase verb token; any other token is
    /// unsupported and yields `None`.
    pub fn parse(s: &String) -> (m: Option<Method>)
        ensures
            m == spec_parse_method(s@),
    {
        if *s == "get".to_owned() {
            Some(Method::Get)
        } else if *s == "post".to_owned() {
            Some(Method::Post)
        } else if *s == "put".to_owned() {
            Some(Method::Put)
        } else if *s == "patch".to_owned() {
            Some(Method::Patch)
        } else if *s == "delete".to_owned() {
            Some(Method::Delete)
        } else if *s == "head".to_owned() {
            Some(Method::Head)
        } else {
            None
        }
    }
}

} // verus!
