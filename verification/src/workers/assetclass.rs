//! The asset classes as the feed provider names its endpoints.
use vstd::prelude::*;
use vstd::string::*;

verus! {

#[derive(Clone, Copy, Debug, PartialEq, Eq, Structural)]
pub enum AssetClass {
    Crypto,
    Forex,
    Equity,
}

impl AssetClass {
    /// The endpoint name: `crypto`, `fx` or `iex`.
    pub open spec fn endpoint(self) -> Seq<char> {
        match self {
            AssetClass::Crypto => "crypto"@,
            AssetClass::Forex => "fx"@,
            AssetClass::Equity => "iex"@,
        }
    }

    /// The class as its `Display` prints it.
    pub fn to_string(&self) -> (r: String)
        ensures
            r@ == self.endpoint(),
    {
        match self {
            AssetClass::Crypto => String::from_str("crypto"),
            AssetClass::Forex => String::from_str("fx"),
            AssetClass::Equity => String::from_str("iex"),
        }
    }
}

} // verus!
