use crate::util::error::{fail_cause, stated_cause, Error, ErrorView};
use crate::util::generic_json::{lemma_array_view, view_of, Json, JsonView};
use vstd::prelude::*;
use vstd::string::*;

verus! {

/// The service that is asked for a player's name and id.
#[derive(Clone, Copy, Debug, PartialEq, Eq, Structural)]
pub enum ApiType {
    Mojang,
    Ashcon,
    PlayerDb,
}

impl Default for ApiType {
    fn default() -> (r: ApiType)
        ensures
            r == ApiType::Mojang,
    {
        ApiType::Mojang
    }
}

/// A player's name and id, the id without dashes where the service is
/// known to write them.
#[derive(Debug, PartialEq, Eq)]
pub struct Response {
    pub username: String,
    pub uuid: String,
}

pub struct ResponseView {
    pub username: Seq<char>,
    pub uuid: Seq<char>,
}

impl DeepView for Response {
    type V = ResponseView;

    open spec fn deep_view(&self) -> ResponseView {
        ResponseView { username: self.username@, uuid: self.uuid@ }
    }
}

/// `text` without its dashes.
pub open spec fn without_dashes(text: Seq<char>) -> Seq<char>
    decreases text.len(),
{
    if text.len() == 0 {
        Seq::empty()
    } else if text.last() == '-' {
        without_dashes(text.drop_last())
    } else {
        without_dashes(text.drop_last()).push(text.last())
    }
}

/// The address at which a service answers for a name or an id.
pub open spec fn lookup_address(api: ApiType, id: Seq<char>, is_uuid: bool) -> Seq<char> {
    match api {
        ApiType::Mojang => if is_uuid {
            "https://api.mojang.com/user/profiles/"@ + id + "/names"@
        } else {
            "https://api.mojang.com/users/profiles/minecraft/"@ + id
        },
        ApiType::Ashcon => "https://api.ashcon.app/mojang/v2/user/"@ + id,
        ApiType::PlayerDb => "https://playerdb.co/api/player/minecraft/"@ + id,
    }
}

/// The text of a member, or the empty text where the member is missing or
/// no string.
pub open spec fn text_or_empty(found: Option<JsonView>) -> Seq<char> {
    match found {
        Some(JsonView::Str(text)) => text,
        _ => Seq::empty(),
    }
}

/// The member `name` of the member `player` of the member `data`.
pub open spec fn player_member(json: JsonView, name: Seq<char>) -> Option<JsonView> {
    match json.member("data"@) {
        Some(data) => match data.member("player"@) {
            Some(player) => player.member(name),
            None => None,
        },
        None => None,
    }
}

/// The last element of an array, if the value is one and has any.
pub open spec fn last_element(json: JsonView) -> Option<JsonView> {
    match json {
        JsonView::Array(items) => if items.len() > 0 {
            Some(items.last())
        } else {
            None
        },
        _ => None,
    }
}

/// The player that a service's answer describes.
pub open spec fn described_player(api: ApiType, id: Seq<char>, is_uuid: bool, json: JsonView)
    -> ResponseView {
    match api {
        ApiType::Mojang => if is_uuid {
            ResponseView {
                username: text_or_empty(
                    match last_element(json) {
                        Some(last) => last.member("name"@),
                        None => None,
                    },
                ),
                uuid: id,
            }
        } else {
            ResponseView {
                username: text_or_empty(json.member("name"@)),
                uuid: text_or_empty(json.member("id"@)),
            }
        },
        ApiType::Ashcon => ResponseView {
            username: text_or_empty(json.member("username"@)),
            uuid: without_dashes(text_or_empty(json.member("uuid"@))),
        },
        ApiType::PlayerDb => ResponseView {
            username: text_or_empty(player_member(json, "username"@)),
            uuid: without_dashes(text_or_empty(player_member(json, "id"@))),
        },
    }
}

/// The name of the member in which a service states why it failed.
pub open spec fn cause_member(api: ApiType) -> Seq<char> {
    match api {
        ApiType::Mojang => "errorMessage"@,
        ApiType::Ashcon => "reason"@,
        ApiType::PlayerDb => "code"@,
    }
}

/// What a service's answer amounts to. With status 200 it is the player
/// described, or a `Parse` error where the body is no JSON; with any other
/// status it is a `Status` error with the cause stated.
pub open spec fn lookup_result(
    api: ApiType,
    id: Seq<char>,
    is_uuid: bool,
    status: u16,
    body: Option<JsonView>,
) -> Result<ResponseView, ErrorView> {
    if status == 200 {
        match body {
            Some(json) => Ok(described_player(api, id, is_uuid, json)),
            None => Err(ErrorView::Parse("not JSON"@)),
        }
    } else {
        Err(ErrorView::Status(status, stated_cause(body, cause_member(api))))
    }
}

/// A copy of `text` without its dashes.
pub fn strip_dashes(text: &str) -> (r: String)
    ensures
        r@ == without_dashes(text@),
{
    let n = text.unicode_len();
    let mut out = String::new();
    let mut i: usize = 0;
    assert(text@.take(0) =~= Seq::<char>::empty());
    while i < n
        invariant
            i <= n,
            n == text@.len(),
            out@ == without_dashes(text@.take(i as int)),
        decreases n - i,
    {
        assert(text@.take(i + 1).drop_last() =~= text@.take(i as int));
        assert(text@.take(i + 1).last() == text@[i as int]);
        if text.get_char(i) != '-' {
            let piece = text.substring_char(i, i + 1);
            out.append(piece);
            assert(piece@ =~= seq![text@[i as int]]);
            assert(out@ =~= without_dashes(text@.take(i as int)).push(text@[i as int]));
        }
        i += 1;
    }
    assert(text@.take(n as int) =~= text@);
    out
}

/// The address at which a service answers for a name or an id.
pub fn lookup_url(api: ApiType, id: &str, is_uuid: bool) -> (r: String)
    ensures
        r@ == lookup_address(api, id@, is_uuid),
{
    match api {
        ApiType::Mojang => {
            if is_uuid {
                let mut url = String::from_str("https://api.mojang.com/user/profiles/");
                url.append(id);
                url.append("/names");
                url
            } else {
                let mut url = String::from_str("https://api.mojang.com/users/profiles/minecraft/");
                url.append(id);
                url
            }
        },
        ApiType::Ashcon => {
            let mut url = String::from_str("https://api.ashcon.app/mojang/v2/user/");
            url.append(id);
            url
        },
        ApiType::PlayerDb => {
            let mut url = String::from_str("https://playerdb.co/api/player/minecraft/");
            url.append(id);
            url
        },
    }
}

fn text_of(found: Option<&Json>) -> (r: &str)
    ensures
        r@ == text_or_empty(view_of(found)),
{
    match found {
        Some(Json::Str(text)) => text.as_str(),
        _ => {
            proof {
                reveal_strlit("");
            }
            assert(""@ =~= Seq::<char>::empty());
            ""
        },
    }
}

fn player_entry<'a>(json: &'a Json, name: &str) -> (r: Option<&'a Json>)
    ensures
        view_of(r) == player_member(json@, name@),
{
    match json.get("data") {
        Some(data) => match data.get("player") {
            Some(player) => player.get(name),
            None => None,
        },
        None => None,
    }
}

fn last_entry(json: &Json) -> (r: Option<&Json>)
    ensures
        view_of(r) == last_element(json@),
{
    match json {
        Json::Array(items) => {
            proof {
                lemma_array_view(*items);
            }
            if items.len() > 0 {
                Some(&items[items.len() - 1])
            } else {
                None
            }
        },
        _ => None,
    }
}

/// Turns a service's answer into the player it describes, or into the
/// error it amounts to. `body` is the answer's body where it is JSON.
pub fn read_lookup(api: ApiType, id: &str, is_uuid: bool, status: u16, body: Option<&Json>) -> (r:
    Result<Response, Error>)
    ensures
        match r {
            Ok(player) => lookup_result(api, id@, is_uuid, status, view_of(body)) == Ok::<
                ResponseView,
                ErrorView,
            >(player.deep_view()),
            Err(error) => lookup_result(api, id@, is_uuid, status, view_of(body)) == Err::<
                ResponseView,
                ErrorView,
            >(error@),
        },
{
    if status != 200 {
        let member = match api {
            ApiType::Mojang => "errorMessage",
            ApiType::Ashcon => "reason",
            ApiType::PlayerDb => "code",
        };
        return Err(Error::Status(status, fail_cause(body, member)));
    }
    let json = match body {
        Some(json) => json,
        None => {
            return Err(Error::Parse(String::from_str("not JSON")));
        },
    };
    Ok(
        match api {
            ApiType::Mojang => {
                if is_uuid {
                    let last = match last_entry(json) {
                        Some(last) => last.get("name"),
                        None => None,
                    };
                    Response { username: text_of(last).to_owned(), uuid: id.to_owned() }
                } else {
                    Response {
                        username: text_of(json.get("name")).to_owned(),
                        uuid: text_of(json.get("id")).to_owned(),
                    }
                }
            },
            ApiType::Ashcon => Response {
                username: text_of(json.get("username")).to_owned(),
                uuid: strip_dashes(text_of(json.get("uuid"))),
            },
            ApiType::PlayerDb => Response {
                username: text_of(player_entry(json, "username")).to_owned(),
                uuid: strip_dashes(text_of(player_entry(json, "id"))),
            },
        },
    )
}

} // verus!
