use vstd::prelude::*;

verus! {

/// The two failure kinds of an update run.
///
/// `Config` is raised before any network or filesystem activity, when a
/// required setup field is missing; `Update` covers every genuine failure
/// during the update itself (bad response status, missing metadata field,
/// no matching asset, I/O failure). The carried string gives the context.
#[derive(Debug)]
pub enum Error {
    Config(String),
    Update(String),
}

impl Error {
    /// Whether this is a configuration error.
    pub fn is_config(&self) -> (r: bool)
        ensures
            r == (self is Config),
    {
        match self {
            Error::Config(_) => true,
            Error::Update(_) => false,
        }
    }

    /// The context message carried by the error.
    pub fn message(&self) -> (r: &str)
        ensures
            r@ == self.spec_message(),
    {
        match self {
            Error::Config(m) => m.as_str(),
            Error::Update(m) => m.as_str(),
        }
    }

    /// The carried message, as a sequence of characters.
    pub open spec fn spec_message(&self) -> Seq<char> {
        match self {
            Error::Config(m) => m@,
            Error::Update(m) => m@,
        }
    }
}

} // verus!
