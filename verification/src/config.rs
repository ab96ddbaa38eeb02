//! What an application registers with the provider: its client id, the
//! redirect URI of its loopback listener, and the scopes it asks for.

use crate::text::{
    begins_with, chars_of, opt_text, rows, split, split_at, starts_with, string_of, tail, texts,
};
use vstd::prelude::*;
use vstd::string::StringExecFns;

verus! {

/// The provider's authorization endpoint.
pub const AUTHORIZE_ENDPOINT: &'static str = "https://accounts.spotify.com/authorize";

/// The provider's token endpoint.
pub const TOKEN_ENDPOINT: &'static str = "https://accounts.spotify.com/api/token";

/// The redirect URI registered for the loopback listener.
pub const REDIRECT_URI: &'static str = "http://127.0.0.1:8080";

/// The scheme of a redirect URI that a loopback listener can serve.
pub const HTTP_SCHEME: &'static str = "http://";

/// How long, in seconds, an attempt waits for the redirect unless the
/// configuration says otherwise: five minutes.
pub const DEFAULT_MAX_WAIT: u64 = 300;

/// Scope for reading the user's saved tracks.
pub const SCOPE_LIBRARY_READ: &'static str = "user-library-read";

/// Scope for reading the user's private playlists.
pub const SCOPE_PLAYLIST_READ_PRIVATE: &'static str = "playlist-read-private";

/// The client's registration with the provider, and how long an attempt
/// may wait for the redirect.
pub struct SpotifyConfig {
    pub client_id: String,
    pub redirect_uri: String,
    pub scopes: Vec<String>,
    /// The longest wait for the redirect, in seconds.
    pub max_wait: u64,
}

/// A configuration as plain values.
pub struct SpotifyConfigView {
    pub client_id: Seq<char>,
    pub redirect_uri: Seq<char>,
    pub scopes: Seq<Seq<char>>,
    pub max_wait: u64,
}

impl View for SpotifyConfig {
    type V = SpotifyConfigView;

    open spec fn view(&self) -> SpotifyConfigView {
        SpotifyConfigView {
            client_id: self.client_id@,
            redirect_uri: self.redirect_uri@,
            scopes: texts(self.scopes@),
            max_wait: self.max_wait,
        }
    }
}

/// The texts of `parts` with a single space between neighbours.
pub open spec fn joined(parts: Seq<Seq<char>>) -> Seq<char>
    decreases parts.len(),
{
    if parts.len() == 0 {
        Seq::empty()
    } else if parts.len() == 1 {
        parts[0]
    } else {
        joined(parts.drop_last()) + seq![' '] + parts.last()
    }
}

/// Joins scopes into the single space-separated text that a request or a
/// token record carries.
pub fn join_scopes(scopes: &Vec<String>) -> (out: String)
    ensures
        out@ == joined(texts(scopes@)),
{
    let mut out = String::new();
    let mut i: usize = 0;
    while i < scopes.len()
        invariant
            i <= scopes@.len(),
            out@ == joined(texts(scopes@).take(i as int)),
        decreases scopes@.len() - i,
    {
        let ghost before = texts(scopes@).take(i as int);
        let ghost next = texts(scopes@).take(i + 1);
        if i > 0 {
            out.append(" ");
        }
        out.append(scopes[i].as_str());
        proof {
            reveal_strlit(" ");
            assert(next.drop_last() =~= before);
        }
        i = i + 1;
    }
    assert(texts(scopes@).take(i as int) =~= texts(scopes@));
    out
}

/// The host and port of what follows the scheme of a URI: what precedes
/// the path, the query and the fragment.
pub open spec fn authority_of(rest: Seq<char>) -> Seq<char> {
    split_at(split_at(split_at(rest, '/')[0], '?')[0], '#')[0]
}

/// The address at which a listener serves the redirect URI `uri`: the host
/// and port of an `http://` URI. There is none for another scheme, nor
/// where host and port are empty.
pub open spec fn listen_address_of(uri: Seq<char>) -> Option<Seq<char>> {
    if begins_with(uri, HTTP_SCHEME@) && authority_of(uri.skip(HTTP_SCHEME@.len() as int)).len()
        > 0 {
        Some(authority_of(uri.skip(HTTP_SCHEME@.len() as int)))
    } else {
        None
    }
}

/// The first piece of `text` cut at `sep`.
fn first_piece(text: &Vec<char>, sep: char) -> (piece: Vec<char>)
    ensures
        piece@ == split_at(text@, sep)[0],
{
    let mut pieces = split(text, sep);
    pieces.swap_remove(0)
}

/// The address to bind for a redirect URI.
pub fn listen_address(redirect_uri: &str) -> (address: Option<String>)
    ensures
        opt_text(address) == listen_address_of(redirect_uri@),
{
    let chars = chars_of(redirect_uri);
    let scheme = chars_of(HTTP_SCHEME);
    if !starts_with(&chars, &scheme) {
        return None;
    }
    let rest = tail(&chars, scheme.len());
    let authority = first_piece(&first_piece(&first_piece(&rest, '/'), '?'), '#');
    if authority.len() == 0 {
        return None;
    }
    let address = string_of(&authority, 0, authority.len());
    Some(address)
}

impl SpotifyConfig {
    /// The configuration of the client `client_id`, with the loopback
    /// redirect URI, the two read scopes and the default wait.
    pub fn new(client_id: String) -> (config: SpotifyConfig)
        ensures
            config@.client_id == client_id@,
            config@.redirect_uri == REDIRECT_URI@,
            config@.scopes == seq![SCOPE_LIBRARY_READ@, SCOPE_PLAYLIST_READ_PRIVATE@],
            config@.max_wait == DEFAULT_MAX_WAIT,
    {
        let mut scopes: Vec<String> = Vec::new();
        scopes.push(SCOPE_LIBRARY_READ.to_owned());
        scopes.push(SCOPE_PLAYLIST_READ_PRIVATE.to_owned());
        let config = SpotifyConfig {
            client_id,
            redirect_uri: REDIRECT_URI.to_owned(),
            scopes,
            max_wait: DEFAULT_MAX_WAIT,
        };
        config
    }

    /// The address that the loopback listener binds, taken from the
    /// redirect URI.
    pub fn listen_address(&self) -> (address: Option<String>)
        ensures
            opt_text(address) == listen_address_of(self@.redirect_uri),
    {
        listen_address(self.redirect_uri.as_str())
    }

    /// The scopes as one space-separated text.
    pub fn scope(&self) -> (out: String)
        ensures
            out@ == joined(self@.scopes),
    {
        join_scopes(&self.scopes)
    }
}

} // verus!
