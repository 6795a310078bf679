use vstd::prelude::*;

verus! {

/// An instrument identifier: an opaque, case-preserving token that does not
/// change once it is made.
///
/// Two tickers are the same instrument exactly when their text is the same.
#[derive(Debug, Eq, Hash)]
pub struct Ticker(String);

impl View for Ticker {
    type V = Seq<char>;

    /// The identifier's text.
    closed spec fn view(&self) -> Seq<char> {
        self.0@
    }
}

impl PartialEq for Ticker {
    /// Whether the two have the same text.
    fn eq(&self, other: &Self) -> (r: bool) {
        self.0 == other.0
    }
}

impl vstd::std_specs::cmp::PartialEqSpecImpl for Ticker {
    open spec fn obeys_eq_spec() -> bool {
        true
    }

    open spec fn eq_spec(&self, other: &Self) -> bool {
        self@ == other@
    }
}

impl Clone for Ticker {
    fn clone(&self) -> (r: Self)
        ensures
            r == *self,
    {
        Ticker(self.0.clone())
    }
}

impl From<&str> for Ticker {
    /// The ticker with the given text.
    fn from(t: &str) -> (r: Self)
        ensures
            r@ == t@,
    {
        Ticker::new(t.to_owned())
    }
}

// What `from` returns is stated by its own `ensures`, over the view: no
// ticker can be named in specifications by its text alone.
impl vstd::std_specs::convert::FromSpecImpl<&str> for Ticker {
    open spec fn obeys_from_spec() -> bool {
        false
    }

    open spec fn from_spec(t: &str) -> Ticker {
        arbitrary()
    }
}

impl std::str::FromStr for Ticker {
    type Err = std::convert::Infallible;

    /// Every text is a ticker.
    fn from_str(s: &str) -> (r: Result<Self, Self::Err>)
        ensures
            r matches Ok(ticker) && ticker@ == s@,
    {
        Ok(Ticker::new(s.to_owned()))
    }
}

impl AsRef<str> for Ticker {
    /// The identifier's text.
    fn as_ref(&self) -> (r: &str)
        ensures
            r@ == self@,
    {
        self.0.as_str()
    }
}

impl Ticker {
    /// Wraps the given text, unchanged.
    pub fn new(ticker: String) -> (r: Self)
        ensures
            r@ == ticker@,
    {
        Ticker(ticker)
    }

    /// A copy of the identifier's text.
    pub fn to_string(&self) -> (r: String)
        ensures
            r@ == self@,
    {
        self.0.clone()
    }

    /// The identifier's text.
    pub fn as_str(&self) -> (r: &str)
        ensures
            r@ == self@,
    {
        self.0.as_str()
    }
}

} // verus!
