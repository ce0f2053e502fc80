use vstd::prelude::*;

verus! {

/// The failures that the query and mutation operations report.
///
/// The first seven variants are typed, expected outcomes that a caller can
/// react to. `Internal` stands for a violated module invariant or an
/// out-of-range access that the operations detect and refuse instead of
/// failing abruptly; the detail of the fault is deliberately not carried.
#[derive(Clone, Copy, Debug, PartialEq, Eq, Structural)]
pub enum Error {
    /// An index argument was not a well-formed decimal number in range.
    InvalidIndex,
    /// A function index did not resolve to a function of the module.
    FunctionNotFound,
    /// A type index resolved to a type that is not class-shaped.
    NotAnObject,
    /// The module carries no debug file table at all.
    NoDebugInfo,
    /// The named file is not present in the debug file table.
    FileNotFound,
    /// No class carries the requested name.
    NameNotFound,
    /// More than one class carries the requested name.
    AmbiguousName,
    /// An internal fault: a broken invariant or an out-of-range access.
    Internal,
}

impl Error {
    /// A human-readable description of the failure.
    pub fn message(&self) -> (r: &'static str)
        ensures
            self is InvalidIndex ==> r@ == "index is not a valid decimal number"@,
            self is FunctionNotFound ==> r@ == "function not found"@,
            self is NotAnObject ==> r@ == "index is not an object"@,
            self is NoDebugInfo ==> r@ == "no debug files found"@,
            self is FileNotFound ==> r@ == "file not found"@,
            self is NameNotFound ==> r@ == "no class with that name found"@,
            self is AmbiguousName ==> r@ == "multiple classes with that name found"@,
            self is Internal ==> r@ == "an internal fault occurred"@,
    {
        match self {
            Error::InvalidIndex => "index is not a valid decimal number",
            Error::FunctionNotFound => "function not found",
            Error::NotAnObject => "index is not an object",
            Error::NoDebugInfo => "no debug files found",
            Error::FileNotFound => "file not found",
            Error::NameNotFound => "no class with that name found",
            Error::AmbiguousName => "multiple classes with that name found",
            Error::Internal => "an internal fault occurred",
        }
    }
}

} // verus!
