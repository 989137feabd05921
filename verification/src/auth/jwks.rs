//! Signing keys and key sets, and the choice of the key that a token names.

use serde_json::Value;
use vstd::prelude::*;
use vstd::string::{StrSliceExecFns, StringExecFns};

use crate::auth::token::{decode_token_header, encoded_header, TokenHeader, TokenHeaderView};
use crate::error::AuthError;
use crate::json::{
    get_member, json_of, parse_json, parsed_json, text_list_member, text_member, texts_view, Json,
};
use crate::text::same_text;

verus! {

/// One public signing key of the authority.
#[derive(Debug)]
pub struct JWK {
    /// The algorithm that the key is meant for.
    pub alg: String,
    /// The type of the key.
    pub kty: String,
    /// What the key is used for; the member `use` of the published key.
    pub use_as: String,
    /// The RSA modulus, a big integer in base64url.
    pub n: String,
    /// The RSA public exponent, a big integer in base64url.
    pub e: String,
    /// The identifier by which tokens name the key.
    pub kid: String,
    /// The thumbprint of the key's certificate.
    pub x5t: String,
    /// The certificate chain of the key.
    pub x5c: Vec<String>,
}

/// A signing key as a mathematical value.
pub ghost struct JwkView {
    pub alg: Seq<char>,
    pub kty: Seq<char>,
    pub use_as: Seq<char>,
    pub n: Seq<char>,
    pub e: Seq<char>,
    pub kid: Seq<char>,
    pub x5t: Seq<char>,
    pub x5c: Seq<Seq<char>>,
}

impl View for JWK {
    type V = JwkView;

    open spec fn view(&self) -> JwkView {
        JwkView {
            alg: self.alg@,
            kty: self.kty@,
            use_as: self.use_as@,
            n: self.n@,
            e: self.e@,
            kid: self.kid@,
            x5t: self.x5t@,
            x5c: texts_view(self.x5c@),
        }
    }
}

impl Clone for JWK {
    fn clone(&self) -> (copy: JWK)
        ensures
            copy@ == self@,
    {
        let x5c = self.x5c.clone();
        assert(texts_view(x5c@) =~= texts_view(self.x5c@));
        JWK {
            alg: self.alg.clone(),
            kty: self.kty.clone(),
            use_as: self.use_as.clone(),
            n: self.n.clone(),
            e: self.e.clone(),
            kid: self.kid.clone(),
            x5t: self.x5t.clone(),
            x5c,
        }
    }
}

/// The keys that an authority publishes, in the order in which it lists them.
#[derive(Debug)]
pub struct JWKS {
    pub keys: Vec<JWK>,
}

impl View for JWKS {
    type V = Seq<JwkView>;

    open spec fn view(&self) -> Seq<JwkView> {
        Seq::new(self.keys@.len(), |i: int| self.keys@[i]@)
    }
}

impl Clone for JWKS {
    fn clone(&self) -> (copy: JWKS)
        ensures
            copy@ == self@,
    {
        let mut keys: Vec<JWK> = Vec::new();
        let mut at: usize = 0;
        while at < self.keys.len()
            invariant
                at <= self.keys@.len(),
                keys@.len() == at,
                forall|i: int| 0 <= i < at ==> #[trigger] keys@[i]@ == self.keys@[i]@,
            decreases self.keys@.len() - at,
        {
            keys.push(self.keys[at].clone());
            at += 1;
        }
        let copy = JWKS { keys };
        assert(copy@ =~= self@);
        copy
    }
}

/// Whether a document has the shape of a signing key: seven members that are
/// strings and a certificate chain that is a list of strings.
pub open spec fn is_key(document: Json) -> bool {
    &&& document.text_member("alg"@) is Some
    &&& document.text_member("kty"@) is Some
    &&& document.text_member("use"@) is Some
    &&& document.text_member("n"@) is Some
    &&& document.text_member("e"@) is Some
    &&& document.text_member("kid"@) is Some
    &&& document.text_member("x5t"@) is Some
    &&& document.text_list_member("x5c"@) is Some
}

/// The signing key that a document of that shape holds.
pub open spec fn key_of(document: Json) -> JwkView
    recommends
        is_key(document),
{
    JwkView {
        alg: document.text_member("alg"@)->0,
        kty: document.text_member("kty"@)->0,
        use_as: document.text_member("use"@)->0,
        n: document.text_member("n"@)->0,
        e: document.text_member("e"@)->0,
        kid: document.text_member("kid"@)->0,
        x5t: document.text_member("x5t"@)->0,
        x5c: document.text_list_member("x5c"@)->0,
    }
}

/// Whether a document has the shape of a key set: an object whose member
/// `keys` is a list of signing keys.
pub open spec fn is_key_set(document: Json) -> bool {
    document.member("keys"@) matches Some(Json::List(items)) && forall|i: int|
        0 <= i < items.len() ==> is_key(#[trigger] items[i])
}

/// The keys that a document of that shape holds, in its order.
pub open spec fn key_set_of(document: Json) -> Seq<JwkView>
    recommends
        is_key_set(document),
{
    let items = document.member("keys"@)->0->List_0;
    Seq::new(items.len(), |i: int| key_of(items[i]))
}

/// How an attempt to fetch the key set from the authority ended.
#[derive(Debug)]
pub enum FetchOutcome {
    /// No response came: the authority could not be reached.
    Unreachable,
    /// No response came within the time allowed.
    TimedOut,
    /// A response came, with this status code and this body.
    Response { status: u16, body: Vec<u8> },
}

/// The key set that a fetch yields: there is one where a response came with
/// a success status and a body that is a key set, whole; there is none
/// otherwise, and never a part of one.
pub open spec fn fetched_keys(outcome: FetchOutcome) -> Option<Seq<JwkView>> {
    match outcome {
        FetchOutcome::Response { status, body } => if 200 <= status < 300 {
            match parsed_json(body@) {
                Some(document) => if is_key_set(document) {
                    Some(key_set_of(document))
                } else {
                    None
                },
                None => None,
            }
        } else {
            None
        },
        _ => None,
    }
}

/// Where an authority publishes its key set: `.well-known/jwks.json` below
/// the authority's base address, which may or may not end with a slash.
pub open spec fn key_set_address(authority: Seq<char>) -> Seq<char> {
    if authority.len() > 0 && authority.last() == '/' {
        authority + ".well-known/jwks.json"@
    } else {
        authority + "/.well-known/jwks.json"@
    }
}

/// The address from which the key set of an authority is fetched.
pub fn jwks_uri(authority: &str) -> (uri: String)
    ensures
        uri@ == key_set_address(authority@),
{
    let length = authority.unicode_len();
    let mut uri = authority.to_owned();
    if length > 0 && authority.get_char(length - 1) == '/' {
        uri.append(".well-known/jwks.json");
    } else {
        uri.append("/.well-known/jwks.json");
    }
    uri
}

impl JWK {
    /// Reads a signing key from a JSON document; there is none where a member
    /// is missing or has the wrong type.
    pub fn from_json(document: &Value) -> (key: Option<JWK>)
        ensures
            match key {
                Some(k) => is_key(json_of(*document)) && k@ == key_of(json_of(*document)),
                None => !is_key(json_of(*document)),
            },
    {
        let alg = text_member(document, "alg")?;
        let kty = text_member(document, "kty")?;
        let use_as = text_member(document, "use")?;
        let n = text_member(document, "n")?;
        let e = text_member(document, "e")?;
        let kid = text_member(document, "kid")?;
        let x5t = text_member(document, "x5t")?;
        let x5c = text_list_member(document, "x5c")?;
        Some(JWK { alg, kty, use_as, n, e, kid, x5t, x5c })
    }
}

/// Whether the key at `index` is the one that `kid` selects: it has that
/// identifier and no key before it has.
pub open spec fn selects(keys: Seq<JwkView>, kid: Seq<char>, index: int) -> bool {
    &&& 0 <= index < keys.len()
    &&& keys[index].kid == kid
    &&& forall|j: int| 0 <= j < index ==> (#[trigger] keys[j]).kid != kid
}

/// Whether some key has the identifier `kid`.
pub open spec fn has_key(keys: Seq<JwkView>, kid: Seq<char>) -> bool {
    exists|i: int| 0 <= i < keys.len() && (#[trigger] keys[i]).kid == kid
}

/// The key that `kid` selects: the first one with that identifier.
pub open spec fn select_key(keys: Seq<JwkView>, kid: Seq<char>) -> Option<JwkView> {
    if exists|i: int| selects(keys, kid, i) {
        Some(keys[choose|i: int| selects(keys, kid, i)])
    } else {
        None
    }
}

/// The key that a token with the header `header` is to be verified with.
pub open spec fn key_for_header(keys: Seq<JwkView>, header: Option<TokenHeaderView>) -> Option<
    JwkView,
> {
    match header {
        Some(h) => select_key(keys, h.key_id()),
        None => None,
    }
}

/// The view of an optional key.
pub open spec fn key_view(key: Option<JWK>) -> Option<JwkView> {
    match key {
        Some(k) => Some(k@),
        None => None,
    }
}

/// At most one index is selected, and one is selected exactly when some key
/// has the identifier.
pub proof fn lemma_selection(keys: Seq<JwkView>, kid: Seq<char>)
    ensures
        forall|i: int, j: int| selects(keys, kid, i) && selects(keys, kid, j) ==> i == j,
        has_key(keys, kid) <==> exists|i: int| selects(keys, kid, i),
        has_key(keys, kid) <==> select_key(keys, kid) is Some,
        select_key(keys, kid) matches Some(key) ==> key.kid == kid,
{
    if has_key(keys, kid) {
        let some = choose|i: int| 0 <= i < keys.len() && (#[trigger] keys[i]).kid == kid;
        lemma_first_match(keys, kid, some);
    }
}

/// Below any index whose key has the identifier lies a selected index.
proof fn lemma_first_match(keys: Seq<JwkView>, kid: Seq<char>, index: int)
    requires
        0 <= index < keys.len(),
        keys[index].kid == kid,
    ensures
        exists|i: int| 0 <= i <= index && selects(keys, kid, i),
    decreases index,
{
    if exists|j: int| 0 <= j < index && (#[trigger] keys[j]).kid == kid {
        let j = choose|j: int| 0 <= j < index && (#[trigger] keys[j]).kid == kid;
        lemma_first_match(keys, kid, j);
    } else {
        assert(selects(keys, kid, index));
    }
}

impl JWKS {
    /// A key set without keys.
    pub fn empty() -> (keys: JWKS)
        ensures
            keys@ == Seq::<JwkView>::empty(),
    {
        let keys = JWKS { keys: Vec::new() };
        assert(keys@ =~= Seq::<JwkView>::empty());
        keys
    }

    /// Reads a key set from a JSON document; there is none where the document
    /// has no list of keys or one of the keys is none.
    pub fn from_json(document: &Value) -> (key_set: Option<JWKS>)
        ensures
            match key_set {
                Some(k) => is_key_set(json_of(*document)) && k@ == key_set_of(json_of(*document)),
                None => !is_key_set(json_of(*document)),
            },
    {
        let list = match get_member(document, "keys") {
            None => { return None; },
            Some(list) => list,
        };
        let items = match list.as_array() {
            None => { return None; },
            Some(items) => items,
        };
        let ghost documents = Seq::new(items@.len(), |i: int| json_of(items@[i]));
        let mut keys: Vec<JWK> = Vec::new();
        let mut at: usize = 0;
        while at < items.len()
            invariant
                at <= items@.len(),
                documents == Seq::new(items@.len(), |i: int| json_of(items@[i])),
                json_of(*document).member("keys"@) == Some(Json::List(documents)),
                keys@.len() == at,
                forall|i: int|
                    0 <= i < at ==> is_key(#[trigger] documents[i]) && keys@[i]@ == key_of(
                        documents[i],
                    ),
            decreases items@.len() - at,
        {
            match JWK::from_json(&items[at]) {
                None => {
                    assert(!is_key(documents[at as int]));
                    assert(json_of(*document).member("keys"@)->0->List_0 == documents);
                    return None;
                },
                Some(key) => {
                    keys.push(key);
                },
            }
            at += 1;
        }
        let key_set = JWKS { keys };
        assert(key_set@ =~= key_set_of(json_of(*document)));
        Some(key_set)
    }

    /// The key set that a fetch yields, or the failure to obtain one.
    pub fn from_fetch(outcome: &FetchOutcome) -> (key_set: Result<JWKS, AuthError>)
        ensures
            match key_set {
                Ok(k) => fetched_keys(*outcome) == Some(k@),
                Err(e) => e == AuthError::AuthorityUnavailable && fetched_keys(*outcome) is None,
            },
    {
        match outcome {
            FetchOutcome::Response { status, body } => {
                if *status < 200 || *status >= 300 {
                    return Err(AuthError::AuthorityUnavailable);
                }
                let document = match parse_json(body.as_slice()) {
                    None => { return Err(AuthError::AuthorityUnavailable); },
                    Some(document) => document,
                };
                match JWKS::from_json(&document) {
                    Some(key_set) => Ok(key_set),
                    None => Err(AuthError::AuthorityUnavailable),
                }
            },
            _ => Err(AuthError::AuthorityUnavailable),
        }
    }

    /// The key set that a process starts with: the fetched one, or an empty
    /// one where the fetch failed.
    pub fn at_startup(outcome: &FetchOutcome) -> (key_set: JWKS)
        ensures
            key_set@ == match fetched_keys(*outcome) {
                Some(keys) => keys,
                None => Seq::empty(),
            },
    {
        match JWKS::from_fetch(outcome) {
            Ok(key_set) => key_set,
            Err(_) => JWKS::empty(),
        }
    }

    /// The position of the first key whose identifier is `kid`.
    pub fn position(&self, kid: &str) -> (found: Option<usize>)
        ensures
            match found {
                Some(index) => selects(self@, kid@, index as int),
                None => !has_key(self@, kid@),
            },
    {
        let mut at: usize = 0;
        while at < self.keys.len()
            invariant
                at <= self.keys@.len(),
                forall|j: int| 0 <= j < at ==> (#[trigger] self@[j]).kid != kid@,
            decreases self.keys@.len() - at,
        {
            if same_text(self.keys[at].kid.as_str(), kid) {
                return Some(at);
            }
            at += 1;
        }
        None
    }

    /// The first key whose identifier is `kid`.
    pub fn select(&self, kid: &str) -> (found: Option<JWK>)
        ensures
            key_view(found) == select_key(self@, kid@),
    {
        proof {
            lemma_selection(self@, kid@);
        }
        match self.position(kid) {
            Some(index) => Some(self.keys[index].clone()),
            None => None,
        }
    }

    /// The key that a token with the header `header` is to be verified with:
    /// the first one with the identifier that the header declares, or with
    /// the empty identifier where it declares none; no key where the token has
    /// no header.
    pub fn key_for(&self, header: Option<&TokenHeader>) -> (found: Option<JWK>)
        ensures
            key_view(found) == key_for_header(
                self@,
                match header {
                    Some(h) => Some(h@),
                    None => None,
                },
            ),
    {
        match header {
            None => None,
            Some(h) => match &h.kid {
                Some(kid) => self.select(kid.as_str()),
                None => self.select(String::new().as_str()),
            },
        }
    }
}

/// Finds the key that `token` names in its header, without checking the
/// token's signature.
pub fn get_jwk_for_token(token: &str, jwks: &JWKS) -> (found: Option<JWK>)
    ensures
        key_view(found) == key_for_header(jwks@, encoded_header(token@)),
{
    let header = decode_token_header(token);
    jwks.key_for(header.as_ref())
}

} // verus!
