//! Signed access tokens: the claims they carry, how claims are laid out as
//! a JSON object, and the calls that sign and check a token.

use crate::api_error::{ApiError, ErrorKind};
use crate::text::texts;
use vstd::prelude::*;

verus! {

/// Seconds of clock skew that expiry checks allow.
pub const EXPIRY_LEEWAY_SECONDS: i64 = 60;

/// The claims of an access token.
#[derive(Clone, Debug)]
pub struct Claims {
    /// Subject: the user's identifier, as UUID text.
    pub sub: String,
    pub username: String,
    /// Expiry, in Unix seconds.
    pub exp: usize,
    /// A fresh identifier per token.
    pub jti: String,
    /// Names of the roles the user held when the token was issued.
    pub roles: Vec<String>,
    /// Names of the permissions those roles granted.
    pub permissions: Vec<String>,
}

/// The claims of an access token, as mathematical values.
pub struct ClaimsView {
    pub sub: Seq<char>,
    pub username: Seq<char>,
    pub exp: usize,
    pub jti: Seq<char>,
    pub roles: Seq<Seq<char>>,
    pub permissions: Seq<Seq<char>>,
}

impl View for Claims {
    type V = ClaimsView;

    open spec fn view(&self) -> ClaimsView {
        ClaimsView {
            sub: self.sub@,
            username: self.username@,
            exp: self.exp,
            jti: self.jti@,
            roles: texts(self.roles@),
            permissions: texts(self.permissions@),
        }
    }
}

/// An element of a JSON array, as far as claims are concerned.
pub enum JsonItem {
    Text(Seq<char>),
    Other,
}

/// A member of a JSON object, as far as claims are concerned: a string, a
/// number that fits 64 unsigned bits, an array, or anything else.
pub enum JsonMember {
    Text(Seq<char>),
    Number(u64),
    List(Seq<JsonItem>),
    Other,
}

/// `serde_json::Value`: a JSON value, read and written through the
/// functions below only.
#[verifier::external_type_specification]
#[verifier::external_body]
pub struct ExJsonValue(serde_json::Value);

/// The error type of `jsonwebtoken`, carried through unread.
#[verifier::external_type_specification]
#[verifier::external_body]
pub struct ExJwtError(jsonwebtoken::errors::Error);

/// The members of a JSON value that is an object, by key; the empty map
/// for any other JSON value.
pub uninterp spec fn json_members(v: serde_json::Value) -> Map<Seq<char>, JsonMember>;

/// Whether a JSON value is an object.
pub uninterp spec fn json_is_object(v: serde_json::Value) -> bool;

/// The members of an object that has none.
pub open spec fn no_members() -> Map<Seq<char>, JsonMember> {
    Map::empty()
}

/// The items of an array as strings.
pub open spec fn text_items(list: Seq<Seq<char>>) -> Seq<JsonItem> {
    list.map_values(|t: Seq<char>| JsonItem::Text(t))
}

/// The string stored under a key, if the member is a string.
pub open spec fn text_of(members: Map<Seq<char>, JsonMember>, key: Seq<char>) -> Option<Seq<char>> {
    if members.contains_key(key) {
        match members[key] {
            JsonMember::Text(t) => Some(t),
            _ => None,
        }
    } else {
        None
    }
}

/// The number stored under a key, if the member is such a number.
pub open spec fn number_of(members: Map<Seq<char>, JsonMember>, key: Seq<char>) -> Option<u64> {
    if members.contains_key(key) {
        match members[key] {
            JsonMember::Number(n) => Some(n),
            _ => None,
        }
    } else {
        None
    }
}

/// The items stored under a key, if the member is an array.
pub open spec fn items_of(members: Map<Seq<char>, JsonMember>, key: Seq<char>) -> Option<
    Seq<JsonItem>,
> {
    if members.contains_key(key) {
        match members[key] {
            JsonMember::List(items) => Some(items),
            _ => None,
        }
    } else {
        None
    }
}

/// The strings stored under a key, if the member is an array of strings only.
pub open spec fn text_list_of(members: Map<Seq<char>, JsonMember>, key: Seq<char>) -> Option<
    Seq<Seq<char>>,
> {
    match items_of(members, key) {
        Some(items) => if exists|list: Seq<Seq<char>>| items == text_items(list) {
            Some(choose|list: Seq<Seq<char>>| items == text_items(list))
        } else {
            None
        },
        None => None,
    }
}

/// `Value::Object(Map::new())`: an object without members.
#[verifier::external_body]
fn json_empty_object() -> (v: serde_json::Value)
    ensures
        json_is_object(v),
        json_members(v) == no_members(),
{
    serde_json::Value::Object(serde_json::Map::new())
}

/// `Map::insert` of a string member: the member under `key` becomes the
/// string, the others stay.
#[verifier::external_body]
fn json_set_text(v: &mut serde_json::Value, key: &str, text: &str)
    requires
        json_is_object(*old(v)),
    ensures
        json_is_object(*final(v)),
        json_members(*final(v)) == json_members(*old(v)).insert(key@, JsonMember::Text(text@)),
{
    if let Some(members) = v.as_object_mut() {
        members.insert(key.to_owned(), serde_json::Value::String(text.to_owned()));
    }
}

/// `Map::insert` of a number member.
#[verifier::external_body]
fn json_set_number(v: &mut serde_json::Value, key: &str, n: u64)
    requires
        json_is_object(*old(v)),
    ensures
        json_is_object(*final(v)),
        json_members(*final(v)) == json_members(*old(v)).insert(key@, JsonMember::Number(n)),
{
    if let Some(members) = v.as_object_mut() {
        members.insert(key.to_owned(), serde_json::Value::from(n));
    }
}

/// `Map::insert` of an array of strings.
#[verifier::external_body]
fn json_set_text_list(v: &mut serde_json::Value, key: &str, list: &Vec<String>)
    requires
        json_is_object(*old(v)),
    ensures
        json_is_object(*final(v)),
        json_members(*final(v)) == json_members(*old(v)).insert(
            key@,
            JsonMember::List(text_items(texts(list@))),
        ),
{
    if let Some(members) = v.as_object_mut() {
        members.insert(key.to_owned(), serde_json::Value::from(list.clone()));
    }
}

/// `Value::get` of a key: the string under it, where the member is a string.
#[verifier::external_body]
fn json_text(v: &serde_json::Value, key: &str) -> (r: Option<String>)
    ensures
        match r {
            Some(s) => text_of(json_members(*v), key@) == Some(s@),
            None => text_of(json_members(*v), key@) is None,
        },
{
    match v.get(key) {
        Some(serde_json::Value::String(s)) => Some(s.clone()),
        _ => None,
    }
}

/// `Value::get` of a key and `Number::as_u64`: the number under it, where
/// the member is a number that fits 64 unsigned bits.
#[verifier::external_body]
fn json_number(v: &serde_json::Value, key: &str) -> (r: Option<u64>)
    ensures
        r == number_of(json_members(*v), key@),
{
    match v.get(key) {
        Some(serde_json::Value::Number(n)) => n.as_u64(),
        _ => None,
    }
}

/// `Value::get` of a key: the length of the array under it, where the
/// member is an array.
#[verifier::external_body]
fn json_list_len(v: &serde_json::Value, key: &str) -> (r: Option<usize>)
    ensures
        match r {
            Some(n) => items_of(json_members(*v), key@) matches Some(items) && items.len() == n,
            None => items_of(json_members(*v), key@) is None,
        },
{
    match v.get(key) {
        Some(serde_json::Value::Array(items)) => Some(items.len()),
        _ => None,
    }
}

/// `Value::get` of a key and of an index: the string at that place of the
/// array under the key, where there is one.
#[verifier::external_body]
fn json_list_text(v: &serde_json::Value, key: &str, index: usize) -> (r: Option<String>)
    ensures
        match r {
            Some(s) => items_of(json_members(*v), key@) matches Some(items) && index < items.len()
                && items[index as int] == JsonItem::Text(s@),
            None => !(items_of(json_members(*v), key@) matches Some(items) && index < items.len()
                && items[index as int] is Text),
        },
{
    match v.get(key) {
        Some(member) => match member.get(index) {
            Some(serde_json::Value::String(s)) => Some(s.clone()),
            _ => None,
        },
        None => None,
    }
}

/// Whether every member is a string, a number or an array of strings.
pub open spec fn plain_members(members: Map<Seq<char>, JsonMember>) -> bool {
    forall|k: Seq<char>| #[trigger]
        members.contains_key(k) ==> match members[k] {
            JsonMember::Text(_) => true,
            JsonMember::Number(_) => true,
            JsonMember::List(items) => exists|list: Seq<Seq<char>>| items == text_items(list),
            JsonMember::Other => false,
        }
}

/// The HS256 token that carries the given members as its payload, signed
/// with the given secret; `None` where signing fails.
pub uninterp spec fn jwt_signed(members: Map<Seq<char>, JsonMember>, secret: Seq<char>) -> Option<
    Seq<char>,
>;

/// The payload members of a token whose HS256 signature is valid under the
/// secret, whose `exp`, `iss` and `aud` claims are present, and whose
/// issuer and audience are the given ones; `None` for any other text.
/// Expiry is not looked at.
pub uninterp spec fn jwt_verified(
    token: Seq<char>,
    secret: Seq<char>,
    issuer: Seq<char>,
    audience: Seq<char>,
) -> Option<Map<Seq<char>, JsonMember>>;

/// `jsonwebtoken::encode` with the default header (HS256) and a key made
/// from the secret's bytes. For an object of plain members the token is
/// determined by the members and the secret.
#[verifier::external_body]
fn jwt_encode(payload: &serde_json::Value, secret: &str) -> (r: Result<
    String,
    jsonwebtoken::errors::Error,
>)
    requires
        json_is_object(*payload),
        plain_members(json_members(*payload)),
    ensures
        match r {
            Ok(token) => jwt_signed(json_members(*payload), secret@) == Some(token@),
            Err(_) => jwt_signed(json_members(*payload), secret@) is None,
        },
{
    jsonwebtoken::encode(
        &jsonwebtoken::Header::default(),
        payload,
        &jsonwebtoken::EncodingKey::from_secret(secret.as_bytes()),
    )
}

/// `jsonwebtoken::decode` under the default validation (HS256) with the
/// `exp`, `iss` and `aud` claims required, the issuer and the audience set
/// and the crate's own expiry check switched off, so that the result does not depend on the
/// clock; the payload is handed back as a JSON value. A text without a
/// full stop is no token: the crate splits a token at full stops first.
#[verifier::external_body]
fn jwt_decode(token: &str, secret: &str, issuer: &str, audience: &str) -> (r: Result<
    serde_json::Value,
    jsonwebtoken::errors::Error,
>)
    ensures
        match r {
            Ok(v) => jwt_verified(token@, secret@, issuer@, audience@) == Some(json_members(v)),
            Err(_) => jwt_verified(token@, secret@, issuer@, audience@) is None,
        },
        !token@.contains('.') ==> r is Err,
{
    let mut validation = jsonwebtoken::Validation::default();
    validation.validate_exp = false;
    validation.set_required_spec_claims(&["exp", "iss", "aud"]);
    validation.set_issuer(&[issuer]);
    validation.set_audience(&[audience]);
    let key = jsonwebtoken::DecodingKey::from_secret(secret.as_bytes());
    match jsonwebtoken::decode::<serde_json::Value>(token, &key, &validation) {
        Ok(data) => Ok(data.claims),
        Err(e) => Err(e),
    }
}

/// The JSON object that carries a set of claims, bound to an issuer and
/// an audience.
pub open spec fn claims_members(c: ClaimsView, issuer: Seq<char>, audience: Seq<char>) -> Map<
    Seq<char>,
    JsonMember,
> {
    no_members().insert("sub"@, JsonMember::Text(c.sub)).insert(
        "username"@,
        JsonMember::Text(c.username),
    ).insert("exp"@, JsonMember::Number(c.exp as u64)).insert("jti"@, JsonMember::Text(c.jti)).insert(
        "roles"@,
        JsonMember::List(text_items(c.roles)),
    ).insert("permissions"@, JsonMember::List(text_items(c.permissions))).insert(
        "iss"@,
        JsonMember::Text(issuer),
    ).insert("aud"@, JsonMember::Text(audience))
}

/// The claims that a JSON object carries: all six members must be there
/// with their types, and the expiry must fit the machine word. Members
/// under other keys, the issuer and the audience among them, are not
/// looked at here.
pub open spec fn claims_of(members: Map<Seq<char>, JsonMember>) -> Option<ClaimsView> {
    match (
        text_of(members, "sub"@),
        text_of(members, "username"@),
        number_of(members, "exp"@),
        text_of(members, "jti"@),
        text_list_of(members, "roles"@),
        text_list_of(members, "permissions"@),
    ) {
        (Some(sub), Some(username), Some(exp), Some(jti), Some(roles), Some(permissions)) => if exp
            <= usize::MAX {
            Some(ClaimsView { sub, username, exp: exp as usize, jti, roles, permissions })
        } else {
            None
        },
        _ => None,
    }
}

/// Two lists of strings with the same items are the same list.
pub proof fn lemma_text_items_injective(a: Seq<Seq<char>>, b: Seq<Seq<char>>)
    requires
        text_items(a) == text_items(b),
    ensures
        a == b,
{
    assert(a.len() == text_items(a).len());
    assert(b.len() == text_items(b).len());
    assert forall|i: int| 0 <= i < a.len() implies a[i] == b[i] by {
        assert(text_items(a)[i] == JsonItem::Text(a[i]));
        assert(text_items(b)[i] == JsonItem::Text(b[i]));
    }
    assert(a =~= b);
}

/// The strings under a key are the given list where the member is the
/// array of exactly those strings.
pub proof fn lemma_text_list_of_items(
    members: Map<Seq<char>, JsonMember>,
    key: Seq<char>,
    list: Seq<Seq<char>>,
)
    requires
        items_of(members, key) == Some(text_items(list)),
    ensures
        text_list_of(members, key) == Some(list),
{
    let items = text_items(list);
    let chosen = choose|l: Seq<Seq<char>>| items == text_items(l);
    lemma_text_items_injective(chosen, list);
}

/// The keys of the token's members are pairwise different.
pub proof fn lemma_claim_keys_differ()
    ensures
        "sub"@ != "username"@,
        "sub"@ != "exp"@,
        "sub"@ != "jti"@,
        "sub"@ != "roles"@,
        "sub"@ != "permissions"@,
        "sub"@ != "iss"@,
        "sub"@ != "aud"@,
        "username"@ != "exp"@,
        "username"@ != "jti"@,
        "username"@ != "roles"@,
        "username"@ != "permissions"@,
        "username"@ != "iss"@,
        "username"@ != "aud"@,
        "exp"@ != "jti"@,
        "exp"@ != "roles"@,
        "exp"@ != "permissions"@,
        "exp"@ != "iss"@,
        "exp"@ != "aud"@,
        "jti"@ != "roles"@,
        "jti"@ != "permissions"@,
        "jti"@ != "iss"@,
        "jti"@ != "aud"@,
        "roles"@ != "permissions"@,
        "roles"@ != "iss"@,
        "roles"@ != "aud"@,
        "permissions"@ != "iss"@,
        "permissions"@ != "aud"@,
        "iss"@ != "aud"@,
{
    reveal_strlit("sub");
    reveal_strlit("username");
    reveal_strlit("exp");
    reveal_strlit("jti");
    reveal_strlit("roles");
    reveal_strlit("permissions");
    reveal_strlit("iss");
    reveal_strlit("aud");
    assert("sub"@.len() == 3);
    assert("username"@.len() == 8);
    assert("exp"@.len() == 3);
    assert("jti"@.len() == 3);
    assert("roles"@.len() == 5);
    assert("permissions"@.len() == 11);
    assert("iss"@.len() == 3);
    assert("aud"@.len() == 3);
    assert("sub"@[0] == 's');
    assert("exp"@[0] == 'e');
    assert("jti"@[0] == 'j');
    assert("iss"@[0] == 'i');
    assert("aud"@[0] == 'a');
    assert("sub"@[1] == 'u');
    assert("iss"@[1] == 's');
}

/// Laying claims out as a JSON object and reading them back gives the
/// same claims.
pub proof fn lemma_claims_round_trip(c: ClaimsView, issuer: Seq<char>, audience: Seq<char>)
    ensures
        claims_of(claims_members(c, issuer, audience)) == Some(c),
        plain_members(claims_members(c, issuer, audience)),
        text_of(claims_members(c, issuer, audience), "iss"@) == Some(issuer),
        text_of(claims_members(c, issuer, audience), "aud"@) == Some(audience),
{
    lemma_claim_keys_differ();
    let m = claims_members(c, issuer, audience);
    assert(items_of(m, "roles"@) == Some(text_items(c.roles)));
    assert(items_of(m, "permissions"@) == Some(text_items(c.permissions)));
    lemma_text_list_of_items(m, "roles"@, c.roles);
    lemma_text_list_of_items(m, "permissions"@, c.permissions);
    assert(text_of(m, "sub"@) == Some(c.sub));
    assert(text_of(m, "username"@) == Some(c.username));
    assert(text_of(m, "jti"@) == Some(c.jti));
    assert(number_of(m, "exp"@) == Some(c.exp as u64));
    assert((c.exp as u64) as usize == c.exp);
    assert forall|k: Seq<char>| #[trigger] m.contains_key(k) implies match m[k] {
        JsonMember::Text(_) => true,
        JsonMember::Number(_) => true,
        JsonMember::List(items) => exists|list: Seq<Seq<char>>| items == text_items(list),
        JsonMember::Other => false,
    } by {
        if k == "roles"@ {
            assert(m[k] == JsonMember::List(text_items(c.roles)));
        } else if k == "permissions"@ {
            assert(m[k] == JsonMember::List(text_items(c.permissions)));
        }
    }
}

/// Lays claims out as a JSON object, bound to an issuer and an audience.
pub fn claims_to_json(claims: &Claims, issuer: &str, audience: &str) -> (v: serde_json::Value)
    ensures
        json_is_object(v),
        json_members(v) == claims_members(claims@, issuer@, audience@),
{
    let mut v = json_empty_object();
    json_set_text(&mut v, "sub", claims.sub.as_str());
    json_set_text(&mut v, "username", claims.username.as_str());
    json_set_number(&mut v, "exp", claims.exp as u64);
    json_set_text(&mut v, "jti", claims.jti.as_str());
    json_set_text_list(&mut v, "roles", &claims.roles);
    json_set_text_list(&mut v, "permissions", &claims.permissions);
    json_set_text(&mut v, "iss", issuer);
    json_set_text(&mut v, "aud", audience);
    v
}

/// Reads the array of strings under a key.
fn read_text_list(v: &serde_json::Value, key: &str) -> (r: Option<Vec<String>>)
    ensures
        match r {
            Some(list) => text_list_of(json_members(*v), key@) == Some(texts(list@)),
            None => text_list_of(json_members(*v), key@) is None,
        },
{
    let ghost members = json_members(*v);
    let n: usize = match json_list_len(v, key) {
        Some(n) => n,
        None => {
            return None;
        },
    };
    let ghost items = items_of(members, key@).unwrap();
    let mut out: Vec<String> = Vec::new();
    let mut i: usize = 0;
    while i < n
        invariant
            i <= n,
            n == items.len(),
            members == json_members(*v),
            items_of(members, key@) == Some(items),
            out.len() == i,
            forall|j: int| 0 <= j < i ==> items[j] == JsonItem::Text(#[trigger] out@[j]@),
        decreases n - i,
    {
        match json_list_text(v, key, i) {
            Some(s) => {
                out.push(s);
            },
            None => {
                proof {
                    if exists|list: Seq<Seq<char>>| items == text_items(list) {
                        let list = choose|list: Seq<Seq<char>>| items == text_items(list);
                        assert(text_items(list)[i as int] == JsonItem::Text(list[i as int]));
                    }
                }
                return None;
            },
        }
        i = i + 1;
    }
    proof {
        assert(items =~= text_items(texts(out@)));
        lemma_text_list_of_items(members, key@, texts(out@));
    }
    Some(out)
}

/// Reads claims from a JSON object; `None` where a member is missing or
/// has another type.
pub fn claims_from_json(v: &serde_json::Value) -> (r: Option<Claims>)
    ensures
        match r {
            Some(c) => claims_of(json_members(*v)) == Some(c@),
            None => claims_of(json_members(*v)) is None,
        },
{
    let sub = match json_text(v, "sub") {
        Some(s) => s,
        None => {
            return None;
        },
    };
    let username = match json_text(v, "username") {
        Some(s) => s,
        None => {
            return None;
        },
    };
    let exp: u64 = match json_number(v, "exp") {
        Some(n) => n,
        None => {
            return None;
        },
    };
    let jti = match json_text(v, "jti") {
        Some(s) => s,
        None => {
            return None;
        },
    };
    let roles = match read_text_list(v, "roles") {
        Some(l) => l,
        None => {
            return None;
        },
    };
    let permissions = match read_text_list(v, "permissions") {
        Some(l) => l,
        None => {
            return None;
        },
    };
    if exp > usize::MAX as u64 {
        return None;
    }
    Some(Claims { sub, username, exp: exp as usize, jti, roles, permissions })
}

/// Signs claims into an access token that is bound to an issuer and an
/// audience. The token is the one that the claims, the issuer, the
/// audience and the secret determine; a failure to sign is an internal
/// error.
pub fn encode_claims(claims: &Claims, secret: &str, issuer: &str, audience: &str) -> (r: Result<
    String,
    ApiError,
>)
    ensures
        match jwt_signed(claims_members(claims@, issuer@, audience@), secret@) {
            Some(token) => r matches Ok(t) && t@ == token,
            None => r matches Err(e) && e.kind == ErrorKind::InternalError,
        },
{
    let payload = claims_to_json(claims, issuer, audience);
    proof {
        lemma_claims_round_trip(claims@, issuer@, audience@);
    }
    match jwt_encode(&payload, secret) {
        Ok(token) => Ok(token),
        Err(_) => Err(ApiError::new(ErrorKind::InternalError, "生成 Access Token 失败")),
    }
}

/// The claims of a token that passes the signature, issuer and audience
/// checks and carries all six claims; expiry is not looked at.
pub open spec fn token_claims(
    token: Seq<char>,
    secret: Seq<char>,
    issuer: Seq<char>,
    audience: Seq<char>,
) -> Option<ClaimsView> {
    match jwt_verified(token, secret, issuer, audience) {
        Some(members) => claims_of(members),
        None => None,
    }
}

/// Checks a token's signature, issuer and audience and reads its claims.
pub fn decode_claims(token: &str, secret: &str, issuer: &str, audience: &str) -> (r: Option<Claims>)
    ensures
        match r {
            Some(c) => token_claims(token@, secret@, issuer@, audience@) == Some(c@),
            None => token_claims(token@, secret@, issuer@, audience@) is None,
        },
        !token@.contains('.') ==> r is None,
{
    match jwt_decode(token, secret, issuer, audience) {
        Ok(v) => claims_from_json(&v),
        Err(_) => None,
    }
}

/// Whether a token with the given expiry is expired at `now`: expiry is
/// more than the leeway behind the clock.
pub open spec fn is_expired(exp: usize, now: i64) -> bool {
    exp < now - EXPIRY_LEEWAY_SECONDS
}

/// Whether a token with the given expiry is expired at `now`.
pub fn expired_at(exp: usize, now: i64) -> (r: bool)
    ensures
        r == is_expired(exp, now),
{
    if now < EXPIRY_LEEWAY_SECONDS {
        false
    } else {
        let limit: u64 = (now - EXPIRY_LEEWAY_SECONDS) as u64;
        (exp as u64) < limit
    }
}

} // verus!
