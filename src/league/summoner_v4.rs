//! Summoner-V4: the summoner record with its decoder and encoder, and the
//! platform-scoped endpoint.
use vstd::prelude::*;
use crate::error::{undecodable_message, Error};
use crate::json::{
    get_str, get_u16, get_u64, key_lt_at, push_member, str_at, u16_at, u64_at, Json,
};
use crate::{lower_ascii, valid_api_key, Platform};

verus! {

/// A summoner's identity record.
#[derive(Debug, Clone, PartialEq, Default)]
pub struct SummonerResponse {
    pub id: String,
    pub account_id: String,
    pub puuid: String,
    pub name: String,
    pub profile_icon_id: u16,
    pub revision_date: u64,
    pub summoner_level: u16,
}

impl SummonerResponse {
    /// `j` holds this value under the API's keys.
    #[verifier::opaque]
    pub open spec fn json_matches(self, j: Json) -> bool {
        &&& str_at(j, "id"@) == Some(self.id@)
        &&& str_at(j, "accountId"@) == Some(self.account_id@)
        &&& str_at(j, "puuid"@) == Some(self.puuid@)
        &&& str_at(j, "name"@) == Some(self.name@)
        &&& u16_at(j, "profileIconId"@) == Some(self.profile_icon_id)
        &&& u64_at(j, "revisionDate"@) == Some(self.revision_date)
        &&& u16_at(j, "summonerLevel"@) == Some(self.summoner_level)
    }

    /// `j` is an object that decodes as this type: every key that is not
    /// optional is there, and every value has the declared shape.
    #[verifier::opaque]
    pub open spec fn json_valid(j: Json) -> bool {
        &&& str_at(j, "id"@) is Some
        &&& str_at(j, "accountId"@) is Some
        &&& str_at(j, "puuid"@) is Some
        &&& str_at(j, "name"@) is Some
        &&& u16_at(j, "profileIconId"@) is Some
        &&& u64_at(j, "revisionDate"@) is Some
        &&& u16_at(j, "summonerLevel"@) is Some
    }

    /// Decodes `j`; fails with a message error exactly where `j` is not a
    /// valid encoding.
    pub fn from_json(j: &Json) -> (r: Result<SummonerResponse, Error>)
        ensures
            r is Ok <==> SummonerResponse::json_valid(*j),
            r matches Ok(x) ==> x.json_matches(*j),
            r matches Err(e) ==> e is Message,
    {
        proof {
            reveal(SummonerResponse::json_valid);
            reveal(SummonerResponse::json_matches);
        }
        let id = get_str(j, "id")?;
        let account_id = get_str(j, "accountId")?;
        let puuid = get_str(j, "puuid")?;
        let name = get_str(j, "name")?;
        let profile_icon_id = get_u16(j, "profileIconId")?;
        let revision_date = get_u64(j, "revisionDate")?;
        let summoner_level = get_u16(j, "summonerLevel")?;
        Ok(SummonerResponse {
            id,
            account_id,
            puuid,
            name,
            profile_icon_id,
            revision_date,
            summoner_level,
        })
    }
}


impl SummonerResponse {
    /// Decodes the body of a reply with status 200: `body` is the parsed
    /// document, or the parser's description of why the text is no JSON.
    pub fn from_body(body: Result<Json, String>) -> (r: Result<SummonerResponse, Error>)
        ensures
            match body {
                Err(desc) => r matches Err(Error::Message(m)) && m@ == undecodable_message(desc@),
                Ok(j) => {
                    &&& r is Ok <==> SummonerResponse::json_valid(j)
                    &&& r matches Ok(x) ==> x.json_matches(j)
                    &&& r matches Err(e) ==> e is Message
                },
            },
    {
        match body {
            Err(desc) => Err(Error::undecodable(desc.as_str())),
            Ok(j) => SummonerResponse::from_json(&j),
        }
    }
}

/// The base URL of the Summoner-V4 endpoints of `platform`.
pub open spec fn summoner_endpoint(platform: Platform) -> Seq<char> {
    "https://"@ + lower_ascii(platform.spec_name()) + ".api.riotgames.com/lol/summoner/v4/summoners"@
}

/// A client of the platform-scoped Summoner-V4 endpoints: the base URL of its
/// platform and the key that authenticates its calls.
#[derive(Debug)]
pub struct SummonerV4 {
    endpoint: String,
    key: String,
}

impl SummonerV4 {
    /// The base URL that the calls go to.
    pub closed spec fn endpoint_view(&self) -> Seq<char> {
        self.endpoint@
    }

    /// The key that authenticates the calls.
    pub closed spec fn key_view(&self) -> Seq<char> {
        self.key@
    }

    /// A client of the endpoints of `platform`, authenticated by `key`.
    pub fn new(key: &str, platform: Platform) -> (r: SummonerV4)
        requires
            valid_api_key(key@),
        ensures
            r.endpoint_view() == summoner_endpoint(platform),
            r.key_view() == key@,
    {
        let host = platform.host_label();
        let base = String::from_str("https://");
        let base = base.concat(host.as_str());
        let base = base.concat(".api.riotgames.com/lol/summoner/v4/summoners");
        SummonerV4 { endpoint: base, key: String::from_str(key) }
    }

    /// The base URL that the calls go to.
    pub fn endpoint(&self) -> (r: String)
        ensures
            r@ == self.endpoint_view(),
    {
        self.endpoint.clone()
    }

    /// The key that authenticates the calls.
    pub fn key(&self) -> (r: String)
        ensures
            r@ == self.key_view(),
    {
        self.key.clone()
    }

    /// `{base}{infix}{id}`.
    fn url(&self, infix: &str, id: &str) -> (r: String)
        ensures
            r@ == self.endpoint_view() + infix@ + id@,
    {
        let url = self.endpoint.clone();
        let url = url.concat(infix);
        url.concat(id)
    }

    /// The URL of the summoner with the encrypted account id
    /// `encrypted_account_id`.
    pub fn by_account_url(&self, encrypted_account_id: &str) -> (r: String)
        ensures
            r@ == self.endpoint_view() + "/by-account/"@ + encrypted_account_id@,
    {
        self.url("/by-account/", encrypted_account_id)
    }

    /// The URL of the summoner named `summoner_name`.
    pub fn by_name_url(&self, summoner_name: &str) -> (r: String)
        ensures
            r@ == self.endpoint_view() + "/by-name/"@ + summoner_name@,
    {
        self.url("/by-name/", summoner_name)
    }

    /// The URL of the summoner with the encrypted PUUID `encrypted_puuid`.
    pub fn by_puuid_url(&self, encrypted_puuid: &str) -> (r: String)
        ensures
            r@ == self.endpoint_view() + "/by-puuid/"@ + encrypted_puuid@,
    {
        self.url("/by-puuid/", encrypted_puuid)
    }

    /// The URL of the summoner with the encrypted summoner id `summoner_id`.
    pub fn by_summoner_id_url(&self, summoner_id: &str) -> (r: String)
        ensures
            r@ == self.endpoint_view() + "/"@ + summoner_id@,
    {
        self.url("/", summoner_id)
    }
}

} // verus!
verus! {

impl SummonerResponse {
    /// This value as a JSON object under the API's keys; it decodes back
    /// to a value with the same fields.
    pub fn into_json(self) -> (r: Json)
        ensures
            r is Obj,
            SummonerResponse::json_valid(r),
            self.json_matches(r),
    {
        proof {
            reveal(SummonerResponse::json_valid);
            reveal(SummonerResponse::json_matches);
        }
        let SummonerResponse {
            id,
            account_id,
            puuid,
            name,
            profile_icon_id,
            revision_date,
            summoner_level,
        } = self;
        let mut members: Vec<(String, Json)> = Vec::new();
        push_member(&mut members, "accountId", Json::Str(account_id));
        proof {
            reveal_strlit("accountId");
            reveal_strlit("id");
            assert(key_lt_at("accountId"@, "id"@, 0));
        }
        push_member(&mut members, "id", Json::Str(id));
        proof {
            reveal_strlit("id");
            reveal_strlit("name");
            assert(key_lt_at("id"@, "name"@, 0));
        }
        push_member(&mut members, "name", Json::Str(name));
        proof {
            reveal_strlit("name");
            reveal_strlit("profileIconId");
            assert(key_lt_at("name"@, "profileIconId"@, 0));
        }
        push_member(&mut members, "profileIconId", Json::Int(profile_icon_id as i128));
        proof {
            reveal_strlit("profileIconId");
            reveal_strlit("puuid");
            assert(key_lt_at("profileIconId"@, "puuid"@, 1));
        }
        push_member(&mut members, "puuid", Json::Str(puuid));
        proof {
            reveal_strlit("puuid");
            reveal_strlit("revisionDate");
            assert(key_lt_at("puuid"@, "revisionDate"@, 0));
        }
        push_member(&mut members, "revisionDate", Json::Int(revision_date as i128));
        proof {
            reveal_strlit("revisionDate");
            reveal_strlit("summonerLevel");
            assert(key_lt_at("revisionDate"@, "summonerLevel"@, 0));
        }
        push_member(&mut members, "summonerLevel", Json::Int(summoner_level as i128));
        Json::Obj(members)
    }
}

} // verus!
