//! The server a client talks to: the URL it was given, and the URLs derived from it.

use vstd::prelude::*;
use crate::urls::{
    derive_url, derived_url, is_derivable_url, is_web_url, scheme_of, url_with_path, url_with_scheme,
};

verus! {

/// The server a client is set to. The URL, when there is one, is held as its
/// serialization, and it has a web scheme or is a `file` URL with a host (the client builds
/// it from `https://` and the domain the user typed), so that the derived URLs can be made.
pub struct ServerState {
    url: Option<String>,
}

impl View for ServerState {
    type V = Option<Seq<char>>;

    closed spec fn view(&self) -> Option<Seq<char>> {
        match self.url {
            Some(u) => Some(u@),
            None => None,
        }
    }
}

/// The view of an optional string.
pub open spec fn opt_view(s: Option<String>) -> Option<Seq<char>> {
    match s {
        Some(t) => Some(t@),
        None => None,
    }
}

/// The URL derived from the server's URL, if the client is set to a server.
pub open spec fn derived_from(server: Option<Seq<char>>, scheme: Seq<char>, path: Seq<char>) -> Option<
    Seq<char>,
> {
    match server {
        Some(u) => Some(derived_url(u, scheme, path)),
        None => None,
    }
}

impl ServerState {
    #[verifier::type_invariant]
    spec fn holds_web_url(self) -> bool {
        self.url matches Some(u) ==> is_derivable_url(u@)
    }

    /// Sets the server's URL, or forgets it.
    pub fn set_url(&mut self, url: Option<String>)
        requires
            url matches Some(u) ==> is_derivable_url(u@),
        ensures
            final(self)@ == opt_view(url),
    {
        self.url = url;
    }

    /// Where media is uploaded: the server's URL with the scheme `https` and the path `upload`.
    pub fn upload_url(&self) -> (r: Option<String>)
        ensures
            opt_view(r) == derived_from(self@, "https"@, "upload"@),
            r matches Some(s) ==> is_web_url(s@) && scheme_of(s@) == "https"@,
    {
        proof {
            use_type_invariant(self);
        }
        match &self.url {
            Some(u) => Some(derive_url(u.as_str(), "https", "upload")),
            None => None,
        }
    }

    /// The websocket endpoint: the server's URL with the scheme `wss` and the path `ws`.
    pub fn ws_url(&self) -> (r: Option<String>)
        ensures
            opt_view(r) == derived_from(self@, "wss"@, "ws"@),
            r matches Some(s) ==> is_web_url(s@) && scheme_of(s@) == "wss"@,
    {
        proof {
            use_type_invariant(self);
        }
        match &self.url {
            Some(u) => Some(derive_url(u.as_str(), "wss", "ws")),
            None => None,
        }
    }

    /// Where an uploaded file is served: the server's URL with the scheme `https` and the
    /// path `uploads/` followed by the name the upload answered with.
    pub fn remote_media(&self, remote_path: String) -> (r: Option<String>)
        ensures
            opt_view(r) == derived_from(self@, "https"@, "uploads/"@ + remote_path@),
            r matches Some(s) ==> is_web_url(s@) && scheme_of(s@) == "https"@,
    {
        proof {
            use_type_invariant(self);
        }
        match &self.url {
            Some(u) => {
                let path = "uploads/".to_owned().concat(remote_path.as_str());
                Some(derive_url(u.as_str(), "https", path.as_str()))
            },
            None => None,
        }
    }
}

impl Default for ServerState {
    fn default() -> (s: Self)
        ensures
            s@ is None,
    {
        ServerState { url: None }
    }
}

/// A derived URL exists exactly when a server is set, and is the server's URL with the
/// scheme set and then the path set.
pub proof fn lemma_derived_from(server: Option<Seq<char>>, scheme: Seq<char>, path: Seq<char>)
    ensures
        derived_from(server, scheme, path) is Some <==> server is Some,
        server matches Some(u) ==> derived_from(server, scheme, path) == Some(
            url_with_path(url_with_scheme(u, scheme).unwrap(), path).unwrap(),
        ),
{
}

} // verus!
