//! The badges of a player: what the API answers, and the address to ask at.

use vstd::prelude::*;
use vstd::string::*;
use hyper::Uri;
use crate::client::SteamClient;
use crate::decimal::{decimal_text, push_decimal};
use crate::steam_id::SteamID;
use crate::utils::{api_uri, uri_accepted, ApiError, ErrorKind, AUTHORITY};

verus! {

/// Path of the badges request.
pub const PATH: &'static str = "/IPlayerService/GetBadges/v0001/";

/// One badge of a player.
#[derive(Clone, Debug, PartialEq, Eq)]
pub struct Badge {
    pub badgeid: u32,
    pub level: u32,
    pub completion_time: u32,
    pub communityitemid: Option<String>,
    pub border_color: Option<u32>,
    pub appid: Option<u32>,
    pub xp: u32,
    pub scarcity: u32,
}

/// The badges of a player, with the player's experience and level.
#[derive(Clone, Debug, PartialEq, Eq)]
pub struct Badges {
    pub badges: Vec<Badge>,
    pub player_xp: u32,
    pub player_level: u32,
    pub player_xp_needed_to_level_up: u32,
    pub player_xp_needed_current_level: u32,
}

/// The query of the badges request: the API key, and the identifier of the
/// player in its canonical written form.
pub open spec fn badges_query(api_key: Seq<char>, id: u64) -> Seq<char> {
    "key="@ + api_key + "&steamid="@ + decimal_text(id as nat)
}

/// Path and query of the badges request, with the question mark between.
pub open spec fn badges_path_and_query(api_key: Seq<char>, id: u64) -> Seq<char> {
    PATH@ + "?"@ + badges_query(api_key, id)
}

/// Writes the path and query of the badges request for a player.
pub fn path_and_query(api_key: &str, id: SteamID) -> (r: String)
    ensures
        r@ == badges_path_and_query(api_key@, id@),
{
    let mut out = String::from_str(PATH);
    out.append("?");
    out.append("key=");
    out.append(api_key);
    out.append("&steamid=");
    push_decimal(&mut out, id.to_u64());
    assert(out@ =~= badges_path_and_query(api_key@, id@));
    out
}

impl SteamClient {
    /// The address at which the badges of a player are asked for. Without
    /// an API key there is none: `APIKeyRequired`. With one, the address is
    /// built from the path and query of `badges_path_and_query`, and the
    /// request fails with `InvalidUri` exactly when the URI builder refuses
    /// them.
    pub fn badges_uri(&self, id: SteamID) -> (r: Result<Uri, ApiError>)
        ensures
            match self@ {
                None => r matches Err(e) && e@ == ErrorKind::APIKeyRequired,
                Some(key) => {
                    &&& r is Ok <==> uri_accepted(
                        "https"@,
                        AUTHORITY@,
                        badges_path_and_query(key, id@),
                    )
                    &&& r matches Err(e) ==> e@ == ErrorKind::InvalidUri
                },
            },
    {
        let api_key = match self.api_key() {
            Ok(api_key) => api_key,
            Err(_) => {
                return Err(ApiError::new(ErrorKind::APIKeyRequired));
            },
        };
        let target = path_and_query(api_key.as_str(), id);
        api_uri(target.as_str())
    }
}

} // verus!
