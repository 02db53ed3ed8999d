//! The closed set of failures that the runtime reports.
use vstd::prelude::*;

verus! {

/// A failure as plain data: the kind and the text it carries.
pub enum Failure {
    /// A value of one variant was asked for as another.
    Type { expected: Seq<char>, actual: Seq<char> },
    /// No scope of the chain binds the name.
    Lookup { name: Seq<char> },
    /// The name is bound to a plain value where a function is needed.
    NotAFunction { name: Seq<char> },
    /// No implementation of the function takes that many arguments.
    ArityMismatch { name: Seq<char> },
}

impl Failure {
    /// The text shown to the user for this failure.
    pub open spec fn message(self) -> Seq<char> {
        match self {
            Failure::Type { expected, actual } => "Wrong type: expected "@ + expected + ", got "@
                + actual,
            Failure::Lookup { name } => name + " not found"@,
            Failure::NotAFunction { name } => name + " is not a function"@,
            Failure::ArityMismatch { name } => "Wrong number of args for "@ + name,
        }
    }
}

/// A value of one variant was asked for as another.
#[derive(Debug, PartialEq, Eq)]
pub struct TypeError<'a> {
    actual: &'a str,
    expected: &'a str,
}

impl<'a> TypeError<'a> {
    /// The name of the type that was asked for.
    pub closed spec fn expected(&self) -> Seq<char> {
        self.expected@
    }

    /// The name of the type that the value has.
    pub closed spec fn actual(&self) -> Seq<char> {
        self.actual@
    }

    /// The message for the user.
    pub fn to_string(&self) -> (s: String)
        ensures
            s@ == (Failure::Type { expected: self.expected(), actual: self.actual() }).message(),
    {
        let mut s = String::from_str("Wrong type: expected ");
        s.append(self.expected);
        s.append(", got ");
        s.append(self.actual);
        s
    }
}

/// A name that no scope of the chain binds.
#[derive(Debug, PartialEq, Eq)]
pub struct LookupError<'a> {
    name: &'a str,
}

impl<'a> LookupError<'a> {
    /// The name that was looked up.
    pub closed spec fn name(&self) -> Seq<char> {
        self.name@
    }

    /// The message for the user.
    pub fn to_string(&self) -> (s: String)
        ensures
            s@ == (Failure::Lookup { name: self.name() }).message(),
    {
        let mut s = String::from_str(self.name);
        s.append(" not found");
        s
    }
}

/// A name bound to a plain value where a function is needed.
#[derive(Debug, PartialEq, Eq)]
pub struct NotAFunctionError<'a> {
    name: &'a str,
}

impl<'a> NotAFunctionError<'a> {
    /// The name that is bound to a plain value.
    pub closed spec fn name(&self) -> Seq<char> {
        self.name@
    }

    /// The message for the user.
    pub fn to_string(&self) -> (s: String)
        ensures
            s@ == (Failure::NotAFunction { name: self.name() }).message(),
    {
        let mut s = String::from_str(self.name);
        s.append(" is not a function");
        s
    }
}

/// A call with a number of arguments that no implementation takes.
#[derive(Debug, PartialEq, Eq)]
pub struct ArityMismatchError<'a> {
    name: &'a str,
}

impl<'a> ArityMismatchError<'a> {
    /// The name of the function that was called.
    pub closed spec fn name(&self) -> Seq<char> {
        self.name@
    }

    /// The message for the user.
    pub fn to_string(&self) -> (s: String)
        ensures
            s@ == (Failure::ArityMismatch { name: self.name() }).message(),
    {
        let mut s = String::from_str("Wrong number of args for ");
        s.append(self.name);
        s
    }
}

/// Every failure that the runtime reports. All of them are recoverable.
#[derive(Debug, PartialEq, Eq)]
pub enum ErrType<'a> {
    TypeError(TypeError<'a>),
    LookupError(LookupError<'a>),
    NotAFunctionError(NotAFunctionError<'a>),
    ArityMismatchError(ArityMismatchError<'a>),
}

impl<'a> View for ErrType<'a> {
    type V = Failure;

    open spec fn view(&self) -> Failure {
        match self {
            ErrType::TypeError(e) => Failure::Type { expected: e.expected(), actual: e.actual() },
            ErrType::LookupError(e) => Failure::Lookup { name: e.name() },
            ErrType::NotAFunctionError(e) => Failure::NotAFunction { name: e.name() },
            ErrType::ArityMismatchError(e) => Failure::ArityMismatch { name: e.name() },
        }
    }
}

impl<'a> ErrType<'a> {
    /// The failure of finding a value of type `actual` where one of type
    /// `expected` is needed.
    pub fn type_error(expected: &'a str, actual: &'a str) -> (e: ErrType<'a>)
        ensures
            e@ == (Failure::Type { expected: expected@, actual: actual@ }),
    {
        ErrType::TypeError(TypeError { expected, actual })
    }

    /// The failure of finding no binding for `name`.
    pub fn lookup(name: &'a str) -> (e: ErrType<'a>)
        ensures
            e@ == (Failure::Lookup { name: name@ }),
    {
        ErrType::LookupError(LookupError { name })
    }

    /// The failure of finding `name` bound to a plain value where a function
    /// is needed.
    pub fn not_a_function(name: &'a str) -> (e: ErrType<'a>)
        ensures
            e@ == (Failure::NotAFunction { name: name@ }),
    {
        ErrType::NotAFunctionError(NotAFunctionError { name })
    }

    /// The failure of finding no implementation of `name` for the number of
    /// arguments of a call.
    pub fn arity_mismatch(name: &'a str) -> (e: ErrType<'a>)
        ensures
            e@ == (Failure::ArityMismatch { name: name@ }),
    {
        ErrType::ArityMismatchError(ArityMismatchError { name })
    }

    /// The message for the user.
    pub fn to_string(&self) -> (s: String)
        ensures
            s@ == self@.message(),
    {
        match self {
            ErrType::TypeError(e) => e.to_string(),
            ErrType::LookupError(e) => e.to_string(),
            ErrType::NotAFunctionError(e) => e.to_string(),
            ErrType::ArityMismatchError(e) => e.to_string(),
        }
    }
}

} // verus!
