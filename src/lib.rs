//! A typed client for the Match-V5 and Summoner-V4 endpoints of the League of
//! Legends web API: endpoint resolution, query encoding, response
//! classification, and the data model with a decoder from a JSON tree and an
//! encoder back to one.
//!
//! Sending requests and parsing JSON text are left to the caller: the library
//! builds each URL, classifies what a send returned, and decodes the parsed
//! body.
use vstd::prelude::*;

pub mod decimal;
pub mod error;
pub mod json;
pub mod league;

verus! {

/// The lower-case form of an ASCII upper-case letter; every other character
/// is kept.
pub open spec fn lower_char(c: char) -> char {
    if 'A' <= c && c <= 'Z' {
        ((c as u32) + 32) as char
    } else {
        c
    }
}

/// A string with every ASCII upper-case letter turned to lower case.
pub open spec fn lower_ascii(s: Seq<char>) -> Seq<char> {
    s.map_values(|c: char| lower_char(c))
}

/// A routing value for the platform-scoped Summoner-V4 calls.
#[derive(Debug, Clone, Copy, PartialEq, Eq, Structural)]
pub enum Platform {
    BR1,
    EUN1,
    EUW1,
    JP1,
    KR,
    LA1,
    LA2,
    NA1,
    OC1,
    TR1,
    RU,
}
impl Platform {
    /// The platform's name as the API spells it.
    pub open spec fn spec_name(self) -> Seq<char> {
        match self {
            Platform::BR1 => "BR1"@,
            Platform::EUN1 => "EUN1"@,
            Platform::EUW1 => "EUW1"@,
            Platform::JP1 => "JP1"@,
            Platform::KR => "KR"@,
            Platform::LA1 => "LA1"@,
            Platform::LA2 => "LA2"@,
            Platform::NA1 => "NA1"@,
            Platform::OC1 => "OC1"@,
            Platform::TR1 => "TR1"@,
            Platform::RU => "RU"@,
        }
    }

    /// The platform's name.
    pub fn to_string(&self) -> (r: String)
        ensures
            r@ == self.spec_name(),
    {
        let s = match self {
            Platform::BR1 => "BR1",
            Platform::EUN1 => "EUN1",
            Platform::EUW1 => "EUW1",
            Platform::JP1 => "JP1",
            Platform::KR => "KR",
            Platform::LA1 => "LA1",
            Platform::LA2 => "LA2",
            Platform::NA1 => "NA1",
            Platform::OC1 => "OC1",
            Platform::TR1 => "TR1",
            Platform::RU => "RU",
        };
        String::from_str(s)
    }

    /// The platform's name in lower case, as it stands in a host name.
    pub fn host_label(&self) -> (r: String)
        ensures
            r@ == lower_ascii(self.spec_name()),
    {
        let s = match self {
            Platform::BR1 => {
                proof {
                    reveal_strlit("BR1");
                    reveal_strlit("br1");
                    assert(lower_ascii("BR1"@) =~= "br1"@);
                }
                "br1"
            },
            Platform::EUN1 => {
                proof {
                    reveal_strlit("EUN1");
                    reveal_strlit("eun1");
                    assert(lower_ascii("EUN1"@) =~= "eun1"@);
                }
                "eun1"
            },
            Platform::EUW1 => {
                proof {
                    reveal_strlit("EUW1");
                    reveal_strlit("euw1");
                    assert(lower_ascii("EUW1"@) =~= "euw1"@);
                }
                "euw1"
            },
            Platform::JP1 => {
                proof {
                    reveal_strlit("JP1");
                    reveal_strlit("jp1");
                    assert(lower_ascii("JP1"@) =~= "jp1"@);
                }
                "jp1"
            },
            Platform::KR => {
                proof {
                    reveal_strlit("KR");
                    reveal_strlit("kr");
                    assert(lower_ascii("KR"@) =~= "kr"@);
                }
                "kr"
            },
            Platform::LA1 => {
                proof {
                    reveal_strlit("LA1");
                    reveal_strlit("la1");
                    assert(lower_ascii("LA1"@) =~= "la1"@);
                }
                "la1"
            },
            Platform::LA2 => {
                proof {
                    reveal_strlit("LA2");
                    reveal_strlit("la2");
                    assert(lower_ascii("LA2"@) =~= "la2"@);
                }
                "la2"
            },
            Platform::NA1 => {
                proof {
                    reveal_strlit("NA1");
                    reveal_strlit("na1");
                    assert(lower_ascii("NA1"@) =~= "na1"@);
                }
                "na1"
            },
            Platform::OC1 => {
                proof {
                    reveal_strlit("OC1");
                    reveal_strlit("oc1");
                    assert(lower_ascii("OC1"@) =~= "oc1"@);
                }
                "oc1"
            },
            Platform::TR1 => {
                proof {
                    reveal_strlit("TR1");
                    reveal_strlit("tr1");
                    assert(lower_ascii("TR1"@) =~= "tr1"@);
                }
                "tr1"
            },
            Platform::RU => {
                proof {
                    reveal_strlit("RU");
                    reveal_strlit("ru");
                    assert(lower_ascii("RU"@) =~= "ru"@);
                }
                "ru"
            },
        };
        String::from_str(s)
    }
}

/// A routing value for the region-scoped Match-V5 calls.
#[derive(Debug, Clone, Copy, PartialEq, Eq, Structural)]
pub enum Region {
    AMERICAS,
    ASIA,
    EUROPE,
}
impl Region {
    /// The region's name as the API spells it.
    pub open spec fn spec_name(self) -> Seq<char> {
        match self {
            Region::AMERICAS => "AMERICAS"@,
            Region::ASIA => "ASIA"@,
            Region::EUROPE => "EUROPE"@,
        }
    }

    /// The region's name.
    pub fn to_string(&self) -> (r: String)
        ensures
            r@ == self.spec_name(),
    {
        let s = match self {
            Region::AMERICAS => "AMERICAS",
            Region::ASIA => "ASIA",
            Region::EUROPE => "EUROPE",
        };
        String::from_str(s)
    }

    /// The region's name in lower case, as it stands in a host name.
    pub fn host_label(&self) -> (r: String)
        ensures
            r@ == lower_ascii(self.spec_name()),
    {
        let s = match self {
            Region::AMERICAS => {
                proof {
                    reveal_strlit("AMERICAS");
                    reveal_strlit("americas");
                    assert(lower_ascii("AMERICAS"@) =~= "americas"@);
                }
                "americas"
            },
            Region::ASIA => {
                proof {
                    reveal_strlit("ASIA");
                    reveal_strlit("asia");
                    assert(lower_ascii("ASIA"@) =~= "asia"@);
                }
                "asia"
            },
            Region::EUROPE => {
                proof {
                    reveal_strlit("EUROPE");
                    reveal_strlit("europe");
                    assert(lower_ascii("EUROPE"@) =~= "europe"@);
                }
                "europe"
            },
        };
        String::from_str(s)
    }
}

/// A character that may stand in an HTTP header value: a tab, or any
/// character from the space on but DEL. A character outside ASCII is encoded
/// in bytes that are all at least 128, which a header value accepts.
pub open spec fn header_char_ok(c: char) -> bool {
    c == '\t' || (c as u32 >= 32 && c as u32 != 127)
}

/// A key that can be sent as the value of the `X-Riot-Token` header.
pub open spec fn valid_api_key(key: Seq<char>) -> bool {
    forall|i: int| 0 <= i < key.len() ==> header_char_ok(#[trigger] key[i])
}

/// Relies on `reqwest::header::HeaderValue::from_str` (the `http` crate's):
/// it accepts a string exactly when each of its bytes is a tab, or at least
/// 32 and not 127.
#[verifier::external_body]
fn header_value_accepts(key: &str) -> (r: bool)
    ensures
        r == valid_api_key(key@),
{
    reqwest::header::HeaderValue::from_str(key).is_ok()
}

/// Whether `key` can authenticate a client; a client cannot be built
/// from any other key.
pub fn is_valid_key(key: &str) -> (r: bool)
    ensures
        r == valid_api_key(key@),
{
    header_value_accepts(key)
}

} // verus!
