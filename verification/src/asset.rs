//! The asset classes shared by the trading and data services.
use vstd::prelude::*;
use vstd::string::*;
use crate::text::{lowercase_text, to_lowercase, ascii_lower, is_ascii_text};

verus! {

/// The three markets the platform covers.
#[derive(Clone, Copy, Debug, PartialEq, Eq, Structural, Hash)]
pub enum AssetClass {
    Crypto,
    Forex,
    Equity,
}

impl AssetClass {
    /// The lowercase name of the class, used as a measurement name and in text.
    pub open spec fn name(self) -> Seq<char> {
        match self {
            AssetClass::Crypto => "crypto"@,
            AssetClass::Forex => "forex"@,
            AssetClass::Equity => "equity"@,
        }
    }

    /// The measurement (table) name under which the class's data is stored.
    pub fn measurement(&self) -> (r: &'static str)
        ensures
            r@ == self.name(),
    {
        match self {
            AssetClass::Crypto => "crypto",
            AssetClass::Forex => "forex",
            AssetClass::Equity => "equity",
        }
    }

    /// The class as text, as its `Display` prints it.
    pub fn to_string(&self) -> (r: String)
        ensures
            r@ == self.name(),
    {
        String::from_str(self.measurement())
    }

    /// The class that a lowercased name denotes, `crypto_data` being an alias.
    pub open spec fn from_lowercase(lower: Seq<char>) -> Option<AssetClass> {
        if lower == "crypto"@ || lower == "crypto_data"@ {
            Some(AssetClass::Crypto)
        } else if lower == "forex"@ {
            Some(AssetClass::Forex)
        } else if lower == "equity"@ {
            Some(AssetClass::Equity)
        } else {
            None
        }
    }

    /// Reads a class from a name already in lowercase.
    pub fn parse_lowercase(lower: &str) -> (r: Option<AssetClass>)
        ensures
            r == AssetClass::from_lowercase(lower@),
    {
        let lower = String::from_str(lower);
        if lower == String::from_str("crypto") || lower == String::from_str("crypto_data") {
            Some(AssetClass::Crypto)
        } else if lower == String::from_str("forex") {
            Some(AssetClass::Forex)
        } else if lower == String::from_str("equity") {
            Some(AssetClass::Equity)
        } else {
            None
        }
    }

    /// `FromStr`: reads a class from its name in any letter case; anything
    /// else is refused with `Unknown AssetClass: ` and the text.
    pub fn from_str(s: &str) -> (r: Result<AssetClass, String>)
        ensures
            AssetClass::from_lowercase(lowercase_text(s@)) matches Some(c) ==> r == Ok::<
                AssetClass,
                String,
            >(c),
            AssetClass::from_lowercase(lowercase_text(s@)) is None ==> (r matches Err(e) && e@
                == "Unknown AssetClass: "@ + s@),
            forall|c: AssetClass| s@ == c.name() ==> r == Ok::<AssetClass, String>(c),
    {
        let lower = to_lowercase(s);
        proof {
            assert forall|c: AssetClass| s@ == c.name() implies AssetClass::from_lowercase(
                lowercase_text(s@),
            ) == Some(c) by {
                lemma_asset_class_round_trip(c);
            }
        }
        match AssetClass::parse_lowercase(lower.as_str()) {
            Some(c) => Ok(c),
            None => {
                let mut msg = String::from_str("Unknown AssetClass: ");
                msg.append(s);
                Err(msg)
            },
        }
    }
}

/// Reading back the name that a class prints gives the class again.
pub proof fn lemma_asset_class_round_trip(c: AssetClass)
    ensures
        is_ascii_text(c.name()),
        c.name().map_values(|ch: char| ascii_lower(ch)) == c.name(),
        AssetClass::from_lowercase(c.name()) == Some(c),
{
    reveal_strlit("crypto");
    reveal_strlit("crypto_data");
    reveal_strlit("forex");
    reveal_strlit("equity");
    assert(c.name().map_values(|ch: char| ascii_lower(ch)) =~= c.name());
    match c {
        AssetClass::Crypto => {},
        AssetClass::Forex => {
            assert("forex"@[0] != "crypto"@[0]);
            assert("forex"@.len() != "crypto_data"@.len());
        },
        AssetClass::Equity => {
            assert("equity"@[0] != "crypto"@[0]);
            assert("equity"@.len() != "crypto_data"@.len());
            assert("equity"@[0] != "forex"@[0]);
        },
    }
}

} // verus!
