use vstd::prelude::*;
use vstd::string::StringExecFns;

verus! {

/// What to connect to: a base URL, the stream to subscribe, optional extra
/// query parameters given as raw `key=value` strings, and an optional
/// access token. Immutable for the lifetime of a listen.
#[derive(Debug, Clone)]
pub struct WebSocket {
    pub url: String,
    pub stream: String,
    pub params: Option<Vec<String>>,
    pub access_token: Option<String>,
}

/// The query text the extra parameters add: each one verbatim after its
/// own `&`, in the order given.
pub open spec fn extra_params_spec(params: Seq<Seq<char>>) -> Seq<char>
    decreases params.len(),
{
    if params.len() == 0 {
        Seq::empty()
    } else {
        extra_params_spec(params.drop_last()) + "&"@ + params.last()
    }
}

/// The query text the access token adds, when there is one.
pub open spec fn token_part(token: Option<Seq<char>>) -> Seq<char> {
    match token {
        Some(t) => "&access_token="@ + t,
        None => Seq::empty(),
    }
}

/// The query text of the extra parameters, when any were given.
pub open spec fn params_part(params: Option<Seq<Seq<char>>>) -> Seq<char> {
    match params {
        Some(ps) => extra_params_spec(ps),
        None => Seq::empty(),
    }
}

/// The full URL a listen connects to: the base, a `?`, then the stream
/// name, the access token when present, and each extra parameter, in that
/// order, joined by `&`.
pub open spec fn listen_url_spec(
    url: Seq<char>,
    stream: Seq<char>,
    params: Option<Seq<Seq<char>>>,
    token: Option<Seq<char>>,
) -> Seq<char> {
    url + "?stream="@ + stream + token_part(token) + params_part(params)
}

impl WebSocket {
    /// The extra parameters as sequences, when any were given.
    pub open spec fn params_view(&self) -> Option<Seq<Seq<char>>> {
        match &self.params {
            Some(ps) => Some(ps.deep_view()),
            None => None,
        }
    }

    /// The access token as a sequence, when there is one.
    pub open spec fn token_view(&self) -> Option<Seq<char>> {
        match &self.access_token {
            Some(t) => Some(t@),
            None => None,
        }
    }

    /// The URL this endpoint's sessions connect to.
    pub open spec fn url_view(&self) -> Seq<char> {
        listen_url_spec(self.url@, self.stream@, self.params_view(), self.token_view())
    }

    pub fn new(
        url: String,
        stream: String,
        params: Option<Vec<String>>,
        access_token: Option<String>,
    ) -> (r: Self)
        ensures
            r.url == url,
            r.stream == stream,
            r.params == params,
            r.access_token == access_token,
    {
        Self { url, stream, params, access_token }
    }

    /// Build the URL one listen uses for every session it opens.
    pub fn listen_url(&self) -> (r: String)
        ensures
            r@ == self.url_view(),
    {
        let mut url = self.url.clone();
        url.append("?stream=");
        url.append(self.stream.as_str());
        match &self.access_token {
            Some(token) => {
                url.append("&access_token=");
                url.append(token.as_str());
                proof {
                    assert(url@ =~= self.url@ + "?stream="@ + self.stream@ + token_part(
                        self.token_view(),
                    ));
                }
            },
            None => {
                proof {
                    assert(url@ =~= self.url@ + "?stream="@ + self.stream@ + token_part(
                        self.token_view(),
                    ));
                }
            },
        }
        match &self.params {
            Some(params) => {
                let ghost head = self.url@ + "?stream="@ + self.stream@ + token_part(
                    self.token_view(),
                );
                let mut i: usize = 0;
                proof {
                    assert(url@ =~= head + extra_params_spec(params.deep_view().take(0)));
                }
                while i < params.len()
                    invariant
                        i <= params.len(),
                        url@ == head + extra_params_spec(params.deep_view().take(i as int)),
                    decreases params.len() - i,
                {
                    url.append("&");
                    url.append(params[i].as_str());
                    proof {
                        let dv = params.deep_view();
                        assert(dv.take(i + 1).drop_last() =~= dv.take(i as int));
                        assert(dv.take(i + 1).last() == dv[i as int]);
                        assert(url@ =~= head + extra_params_spec(dv.take(i + 1)));
                    }
                    i += 1;
                }
                proof {
                    assert(params.deep_view().take(params@.len() as int) =~= params.deep_view());
                    assert(url@ =~= self.url_view());
                }
            },
            None => {
                proof {
                    assert(url@ =~= self.url_view());
                }
            },
        }
        url
    }
}

/// The URL is the base and the query joined by a single `?`, the stream
/// parameter always first, the token before every extra parameter, and the
/// extra parameters verbatim in the order given.
pub proof fn lemma_listen_url_order(
    url: Seq<char>,
    stream: Seq<char>,
    params: Seq<Seq<char>>,
    token: Seq<char>,
)
    ensures
        listen_url_spec(url, stream, None, None) == url + "?stream="@ + stream,
        listen_url_spec(url, stream, None, Some(token)) == url + "?stream="@ + stream
            + "&access_token="@ + token,
        listen_url_spec(url, stream, Some(params), Some(token)) == url + "?stream="@ + stream
            + "&access_token="@ + token + extra_params_spec(params),
{
    assert(listen_url_spec(url, stream, None, None) =~= url + "?stream="@ + stream);
    assert(listen_url_spec(url, stream, None, Some(token)) =~= url + "?stream="@ + stream
        + "&access_token="@ + token);
    assert(listen_url_spec(url, stream, Some(params), Some(token)) =~= url + "?stream="@ + stream
        + "&access_token="@ + token + extra_params_spec(params));
}

} // verus!
