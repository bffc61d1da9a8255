//! Streamhook: the decision logic of a Twitch chat bot, verified with Verus.
//!
//! The library holds what the bot computes: the URLs and request bodies it
//! sends, the token refresh flows as state machines, the handling of the
//! OAuth redirect, the SQL it runs, the configuration store and the command
//! line dispatch. Performing the requests, the database work and the file
//! reads is left to the caller.
use vstd::prelude::*;

pub mod auth;
pub mod cli;
pub mod config;
pub mod database;
pub mod server;
pub mod twitch_api;

verus! {

/// What the command line asks the program to do.
#[derive(Debug, Clone, Copy, PartialEq, Eq, Structural)]
pub enum StreamhookMessage {
    Streamer,
    Start,
}

/// Name of the environment variable that holds the Twitch client id.
pub const CLIENT_ID: &'static str = "STREAMHOOK_CLIENT_ID";

/// Name of the environment variable that holds the Twitch client secret.
pub const CLIENT_SECRET: &'static str = "STREAMHOOK_CLIENT_SECRET";

/// The parts of a URL, put together by [`build_url`].
pub struct Url {
    pub protocol: String,
    pub domain: String,
    pub path: Option<String>,
    pub parameters: Option<Vec<String>>,
}

/// The concatenation of a sequence of strings, in order.
pub open spec fn concat_all(parts: Seq<Seq<char>>) -> Seq<char>
    decreases parts.len(),
{
    if parts.len() == 0 {
        Seq::empty()
    } else {
        concat_all(parts.drop_last()) + parts.last()
    }
}

/// The views of a vector of strings.
pub open spec fn string_views(v: Seq<String>) -> Seq<Seq<char>> {
    v.map_values(|s: String| s@)
}

/// The text of a URL: `protocol://domain/`, then the path, then every
/// parameter in order, each written as it is.
pub open spec fn url_text(
    protocol: Seq<char>,
    domain: Seq<char>,
    path: Option<Seq<char>>,
    parameters: Option<Seq<Seq<char>>>,
) -> Seq<char> {
    protocol + "://"@ + domain + "/"@ + match path {
        Some(p) => p,
        None => Seq::empty(),
    } + match parameters {
        Some(ps) => concat_all(ps),
        None => Seq::empty(),
    }
}

impl Url {
    /// The path of the URL as a sequence of characters, if it has one.
    pub open spec fn path_view(&self) -> Option<Seq<char>> {
        match self.path {
            Some(p) => Some(p@),
            None => None,
        }
    }

    /// The parameters of the URL as sequences of characters, if it has any.
    pub open spec fn parameters_view(&self) -> Option<Seq<Seq<char>>> {
        match self.parameters {
            Some(ps) => Some(string_views(ps@)),
            None => None,
        }
    }

    /// The text that [`build_url`] makes of this URL.
    pub open spec fn text(&self) -> Seq<char> {
        url_text(self.protocol@, self.domain@, self.path_view(), self.parameters_view())
    }
}

/// Appends every string of `parts` to `out`, in order.
fn append_all(out: &mut String, parts: &Vec<String>)
    ensures
        final(out)@ == old(out)@ + concat_all(string_views(parts@)),
{
    let ghost start = out@;
    let ghost views = string_views(parts@);
    let mut i: usize = 0;
    while i < parts.len()
        invariant
            i <= parts.len(),
            views == string_views(parts@),
            out@ == start + concat_all(views.take(i as int)),
        decreases parts.len() - i,
    {
        assert(views.take(i + 1).drop_last() =~= views.take(i as int));
        out.append(parts[i].as_str());
        i = i + 1;
    }
    assert(views.take(parts.len() as int) =~= views);
}

/// Puts a URL together: `protocol://domain/`, then the path, then the
/// parameters, each written as it is, with no separator added.
pub fn build_url(url: Url) -> (text: String)
    ensures
        text@ == url.text(),
{
    let mut text = String::from_str(url.protocol.as_str());
    text.append("://");
    text.append(url.domain.as_str());
    text.append("/");
    let ghost head = text@;
    match &url.path {
        Some(path) => {
            text.append(path.as_str());
        },
        None => {
            assert(text@ == head + Seq::<char>::empty());
        },
    }
    let ghost with_path = text@;
    match &url.parameters {
        Some(parameters) => {
            append_all(&mut text, parameters);
        },
        None => {
            assert(text@ == with_path + Seq::<char>::empty());
        },
    }
    text
}

/// Adding a parameter to a URL appends it, as it is, to the end of the
/// URL's text; the rest of the text is unchanged.
pub proof fn lemma_parameter_appends(
    protocol: Seq<char>,
    domain: Seq<char>,
    path: Option<Seq<char>>,
    parameters: Seq<Seq<char>>,
    parameter: Seq<char>,
)
    ensures
        url_text(protocol, domain, path, Some(parameters.push(parameter))) == url_text(
            protocol,
            domain,
            path,
            Some(parameters),
        ) + parameter,
{
    assert(parameters.push(parameter).drop_last() =~= parameters);
    assert(concat_all(parameters.push(parameter)) == concat_all(parameters) + parameter);
    assert(url_text(protocol, domain, path, Some(parameters.push(parameter))) =~= url_text(
        protocol,
        domain,
        path,
        Some(parameters),
    ) + parameter);
}

/// A URL without path or parameters is `protocol://domain/`, and one whose
/// parameter list is empty reads as one without parameters.
pub proof fn lemma_bare_url(protocol: Seq<char>, domain: Seq<char>, path: Option<Seq<char>>)
    ensures
        url_text(protocol, domain, None, None) == protocol + "://"@ + domain + "/"@,
        url_text(protocol, domain, path, Some(Seq::empty())) == url_text(protocol, domain, path, None),
        path matches Some(p) ==> url_text(protocol, domain, path, None) == url_text(
            protocol,
            domain,
            None,
            None,
        ) + p,
{
    assert(url_text(protocol, domain, None, None) =~= protocol + "://"@ + domain + "/"@);
}

} // verus!
