//! The requests to the music server: who asks, the token that proves it, and
//! the address of each request. Sending them is the host's part.

use vstd::prelude::*;
use crate::config::Config;
use crate::player::MICROS_PER_SECOND;
use crate::text::{opt_text, push_text, same_text};

verus! {

/// The longest address, key or value, in characters, that is put into a
/// request.
pub const URL_LIMIT: usize = 1_048_576;

/// The MD5 digest of a text's bytes, written as 32 hexadecimal digits in
/// lowercase.
pub uninterp spec fn md5_hex(text: Seq<char>) -> Seq<char>;

/// The address `url`, read as the `url` crate reads it, with the pair of
/// `key` and `value` added to its query and written out again; `None` where
/// `url` is no address.
pub uninterp spec fn paired_url(url: Seq<char>, key: Seq<char>, value: Seq<char>) -> Option<
    Seq<char>,
>;

/// `md5::compute` and the digest's lowercase hexadecimal form: the result is
/// a function of the text alone, and the contract gives it its name.
#[verifier::external_body]
fn md5_token(text: &str) -> (r: String)
    ensures
        r@ == md5_hex(text@),
{
    format!("{:x}", md5::compute(text))
}

/// `Url::parse`, `Url::query_pairs_mut` with `append_pair`, and the address
/// as a `String`: the result is a function of the three texts alone, and the
/// contract gives it its name. The texts are kept far below the size at
/// which the crate gives up.
#[verifier::external_body]
fn url_with_pair(url: &str, key: &str, value: &str) -> (r: Option<String>)
    requires
        url@.len() <= URL_LIMIT,
        key@.len() <= URL_LIMIT,
        value@.len() <= URL_LIMIT,
    ensures
        opt_text(r) == paired_url(url@, key@, value@),
{
    let mut parsed = url::Url::parse(url).ok()?;
    parsed.query_pairs_mut().append_pair(key, value);
    Some(String::from(parsed))
}

/// Why a request could not be made.
#[derive(Debug, Clone, Copy, PartialEq, Eq, Structural)]
pub enum ClientError {
    /// The server's address with the request's path is no address, or the
    /// request is too long.
    InvalidUrl,
}

/// Who asks the server, and where the server is.
#[derive(Debug)]
pub struct SubsonicClient {
    pub base_url: String,
    pub username: String,
    pub password: String,
    pub secret: String,
}

/// Views of a list of pairs of key and value.
pub open spec fn pairs_view(v: Seq<(String, String)>) -> Seq<(Seq<char>, Seq<char>)> {
    Seq::new(v.len(), |i: int| (v[i].0@, v[i].1@))
}

/// The pairs that every request carries: the user, the token, which is the
/// digest of the password followed by the secret, the secret as the token's
/// salt, the version of the protocol, the name of the client, and the format
/// of the answer.
pub open spec fn auth_pairs(username: Seq<char>, password: Seq<char>, secret: Seq<char>) -> Seq<
    (Seq<char>, Seq<char>),
> {
    seq![
        ("u"@, username),
        ("t"@, md5_hex(password + secret)),
        ("s"@, secret),
        ("v"@, "1.16.1"@),
        ("c"@, "sonicrust"@),
        ("f"@, "json"@),
    ]
}

/// Whether a text is short enough to be put into a request.
pub open spec fn fits(s: Seq<char>) -> bool {
    s.len() <= URL_LIMIT
}

/// An address with pairs added to its query, one after the other; `None` as
/// soon as the address is none or something is too long.
pub open spec fn with_pairs(url: Option<Seq<char>>, pairs: Seq<(Seq<char>, Seq<char>)>) -> Option<
    Seq<char>,
>
    decreases pairs.len(),
{
    if pairs.len() == 0 {
        url
    } else {
        match with_pairs(url, pairs.drop_last()) {
            Some(t) => if fits(t) && fits(pairs.last().0) && fits(pairs.last().1) {
                paired_url(t, pairs.last().0, pairs.last().1)
            } else {
                None
            },
            None => None,
        }
    }
}

/// The address of a request: the server's address, the path of the
/// request, and the pairs of the request behind those that every request
/// carries.
pub open spec fn request_address(
    base_url: Seq<char>,
    endpoint: Seq<char>,
    pairs: Seq<(Seq<char>, Seq<char>)>,
) -> Option<Seq<char>> {
    with_pairs(Some(base_url + "/rest/"@ + endpoint), pairs)
}

/// The length of a track in microseconds, from its length in seconds as the
/// server gives it: zero where the server gives none, and the greatest or
/// least length that can be written down where the product cannot.
pub open spec fn length_in_micros(seconds: Option<i64>) -> int {
    match seconds {
        Some(s) => {
            let wide = s * MICROS_PER_SECOND;
            if wide > i64::MAX {
                i64::MAX as int
            } else if wide < i64::MIN {
                i64::MIN as int
            } else {
                wide
            }
        },
        None => 0,
    }
}

/// Computes the length of a track in microseconds.
pub fn song_duration(seconds: Option<i64>) -> (r: i64)
    ensures
        r == length_in_micros(seconds),
{
    match seconds {
        Some(s) => {
            let wide: i128 = s as i128 * 1_000_000i128;
            if wide > i64::MAX as i128 {
                i64::MAX
            } else if wide < i64::MIN as i128 {
                i64::MIN
            } else {
                wide as i64
            }
        },
        None => 0,
    }
}

/// Whether the server's answer to a report says that it was taken.
pub fn scrobble_accepted(status: &str) -> (r: bool)
    ensures
        r == (status@ == "ok"@),
{
    same_text(status, "ok")
}

fn pair(key: &str, value: &str) -> (p: (String, String))
    ensures
        p.0@ == key@,
        p.1@ == value@,
{
    (String::from_str(key), String::from_str(value))
}

impl SubsonicClient {
    /// The client of a configuration.
    pub fn new(config: &Config) -> (c: Self)
        ensures
            c.base_url@ == config.server_url@,
            c.username@ == config.username@,
            c.password@ == config.password@,
            c.secret@ == config.secret@,
    {
        SubsonicClient {
            base_url: config.server_url.clone(),
            username: config.username.clone(),
            password: config.password.clone(),
            secret: config.secret.clone(),
        }
    }

    /// The pairs that every request carries.
    pub fn get_auth_params(&self) -> (params: Vec<(String, String)>)
        ensures
            pairs_view(params@) == auth_pairs(self.username@, self.password@, self.secret@),
    {
        let mut salted = String::new();
        push_text(&mut salted, self.password.as_str());
        push_text(&mut salted, self.secret.as_str());
        assert(salted@ =~= self.password@ + self.secret@);
        let token = md5_token(salted.as_str());
        let mut params: Vec<(String, String)> = Vec::new();
        params.push(pair("u", self.username.as_str()));
        params.push(pair("t", token.as_str()));
        params.push(pair("s", self.secret.as_str()));
        params.push(pair("v", "1.16.1"));
        params.push(pair("c", "sonicrust"));
        params.push(pair("f", "json"));
        assert(pairs_view(params@) =~= auth_pairs(self.username@, self.password@, self.secret@));
        params
    }

    /// The address of the request `endpoint` with the pairs `extra` behind
    /// those that every request carries.
    pub fn request_url(&self, endpoint: &str, extra: &Vec<(String, String)>) -> (r: Result<
        String,
        ClientError,
    >)
        ensures
            match r {
                Ok(url) => Some(url@),
                Err(_) => None,
            } == request_address(
                self.base_url@,
                endpoint@,
                auth_pairs(self.username@, self.password@, self.secret@) + pairs_view(extra@),
            ),
    {
        let mut url = String::new();
        push_text(&mut url, self.base_url.as_str());
        push_text(&mut url, "/rest/");
        push_text(&mut url, endpoint);
        assert(url@ =~= self.base_url@ + "/rest/"@ + endpoint@);
        let auth = self.get_auth_params();
        let ghost start = Some(url@);
        proof {
            lemma_pairs_in_turn(start, pairs_view(auth@), pairs_view(extra@));
            lemma_none_stays(pairs_view(extra@));
        }
        let with_auth = match add_pairs(url.as_str(), &auth) {
            Some(u) => u,
            None => {
                return Err(ClientError::InvalidUrl);
            },
        };
        let url = match add_pairs(with_auth.as_str(), extra) {
            Some(u) => u,
            None => {
                return Err(ClientError::InvalidUrl);
            },
        };
        Ok(url)
    }

    /// The address from which the track `id` is streamed.
    pub fn get_stream_url(&self, id: &str) -> (r: Result<String, ClientError>)
        ensures
            match r {
                Ok(url) => Some(url@),
                Err(_) => None,
            } == request_address(
                self.base_url@,
                "stream"@,
                auth_pairs(self.username@, self.password@, self.secret@) + seq![("id"@, id@)],
            ),
    {
        let mut extra: Vec<(String, String)> = Vec::new();
        extra.push(pair("id", id));
        assert(pairs_view(extra@) =~= seq![("id"@, id@)]);
        self.request_url("stream", &extra)
    }

    /// The address of the cover art of the item `id`.
    pub fn get_cover_art_url(&self, id: &str) -> (r: Result<String, ClientError>)
        ensures
            match r {
                Ok(url) => Some(url@),
                Err(_) => None,
            } == request_address(
                self.base_url@,
                "getCoverArt"@,
                auth_pairs(self.username@, self.password@, self.secret@) + seq![("id"@, id@)],
            ),
    {
        let mut extra: Vec<(String, String)> = Vec::new();
        extra.push(pair("id", id));
        assert(pairs_view(extra@) =~= seq![("id"@, id@)]);
        self.request_url("getCoverArt", &extra)
    }
}

/// Adds a pair to the query of an address, if everything is short enough.
fn add_pair(url: String, key: &str, value: &str) -> (r: Option<String>)
    ensures
        opt_text(r) == if fits(url@) && fits(key@) && fits(value@) {
            paired_url(url@, key@, value@)
        } else {
            None
        },
{
    if url.as_str().unicode_len() <= URL_LIMIT && key.unicode_len() <= URL_LIMIT
        && value.unicode_len() <= URL_LIMIT {
        url_with_pair(url.as_str(), key, value)
    } else {
        None
    }
}

/// Adds pairs to the query of an address, one after the other.
fn add_pairs(address: &str, pairs: &Vec<(String, String)>) -> (r: Option<String>)
    ensures
        opt_text(r) == with_pairs(Some(address@), pairs_view(pairs@)),
{
    let ghost start = Some(address@);
    let ghost all = pairs_view(pairs@);
    let mut url = String::from_str(address);
    let mut i: usize = 0;
    assert(all.subrange(0, 0) =~= Seq::<(Seq<char>, Seq<char>)>::empty());
    while i < pairs.len()
        invariant
            i <= pairs.len(),
            all == pairs_view(pairs@),
            start == Some(address@),
            with_pairs(start, all.subrange(0, i as int)) == Some(url@),
        decreases pairs.len() - i,
    {
        proof {
            let upto = all.subrange(0, i as int + 1);
            assert(upto.drop_last() =~= all.subrange(0, i as int));
            assert(upto.last() == (pairs@[i as int].0@, pairs@[i as int].1@));
        }
        match add_pair(url, pairs[i].0.as_str(), pairs[i].1.as_str()) {
            Some(next) => {
                url = next;
            },
            None => {
                proof {
                    lemma_failure_stays(start, all, i as int + 1);
                }
                return None;
            },
        }
        i += 1;
    }
    assert(all.subrange(0, pairs.len() as int) =~= all);
    Some(url)
}

/// Adding pairs, and then more pairs, is adding all of them in turn.
pub proof fn lemma_pairs_in_turn(
    url: Option<Seq<char>>,
    first: Seq<(Seq<char>, Seq<char>)>,
    then: Seq<(Seq<char>, Seq<char>)>,
)
    ensures
        with_pairs(with_pairs(url, first), then) == with_pairs(url, first + then),
    decreases then.len(),
{
    if then.len() == 0 {
        assert(first + then =~= first);
    } else {
        lemma_pairs_in_turn(url, first, then.drop_last());
        assert((first + then).drop_last() =~= first + then.drop_last());
        assert((first + then).last() == then.last());
    }
}

/// Pairs added to no address give no address.
pub proof fn lemma_none_stays(pairs: Seq<(Seq<char>, Seq<char>)>)
    ensures
        with_pairs(None, pairs) is None,
    decreases pairs.len(),
{
    if pairs.len() > 0 {
        lemma_none_stays(pairs.drop_last());
    }
}

/// Once adding pairs has failed, adding more does not mend it.
pub proof fn lemma_failure_stays(
    url: Option<Seq<char>>,
    pairs: Seq<(Seq<char>, Seq<char>)>,
    n: int,
)
    requires
        0 <= n <= pairs.len(),
        with_pairs(url, pairs.subrange(0, n)) is None,
    ensures
        with_pairs(url, pairs) is None,
    decreases pairs.len() - n,
{
    if n < pairs.len() {
        let upto = pairs.subrange(0, n + 1);
        assert(upto.drop_last() =~= pairs.subrange(0, n));
        lemma_failure_stays(url, pairs, n + 1);
    } else {
        assert(pairs.subrange(0, n) =~= pairs);
    }
}

} // verus!
