//! Everything about a login that a different robot might want to change.

use crate::text::{blank, is_blank, opt_view};
use crate::time::Span;
use vstd::prelude::*;
use vstd::string::*;

verus! {

/// Hugging Face's first-party device-code OAuth client.
///
/// `huggingface_hub`'s `DEVICE_CODE_OAUTH_CLIENT_ID`, which is what `hf auth login` uses. Public
/// — no secret, and none can be sent — and it takes no `scope` parameter, so the token it issues
/// carries everything Hugging Face grants. A *public* device-code client registered to your own
/// org is one [`Config::client_id`] away, and the right thing to do before a robot ships.
pub const HUGGINGFACE_CLIENT_ID: &'static str = "26be6b09-91c5-47da-9861-d2d2bb7a7e36";

/// Hugging Face.
pub const HUGGINGFACE: &'static str = "https://huggingface.co";

/// The variable `huggingface_hub` itself reads to point at a mirror. [`Config::from_env`].
pub const ENDPOINT_VAR: &'static str = "HF_ENDPOINT";

/// What is sent as the user agent, unless a robot names itself.
pub const USER_AGENT: &'static str = "hf-robot-account/0.1.0";

/// Everything about a login that a different robot might want to change.
#[derive(Debug, PartialEq, Eq)]
pub struct Config {
    /// Where Hugging Face is. [`HUGGINGFACE`], or a mirror.
    pub endpoint: String,
    /// Which OAuth client to authenticate as. [`HUGGINGFACE_CLIENT_ID`], or your org's own.
    pub client_id: String,
    /// Sent on every request. Name your robot here — it is what a Hub-side log will show.
    pub user_agent: String,
    /// How long one HTTP round trip to Hugging Face gets.
    pub http_timeout: Span,
    /// Renew a token with less than this left.
    pub refresh_when_under: Span,
    /// How often [`maintain`](crate::maintain) wakes to look at the token's remaining life.
    pub maintain_interval: Span,
}

/// A [`Config`], with its texts as sequences of characters.
pub struct ConfigView {
    pub endpoint: Seq<char>,
    pub client_id: Seq<char>,
    pub user_agent: Seq<char>,
    pub http_timeout: Span,
    pub refresh_when_under: Span,
    pub maintain_interval: Span,
}

impl View for Config {
    type V = ConfigView;

    open spec fn view(&self) -> ConfigView {
        ConfigView {
            endpoint: self.endpoint@,
            client_id: self.client_id@,
            user_agent: self.user_agent@,
            http_timeout: self.http_timeout,
            refresh_when_under: self.refresh_when_under,
            maintain_interval: self.maintain_interval,
        }
    }
}

impl ConfigView {
    /// The defaults, against an endpoint: twenty seconds for a round trip, renewal in the last
    /// week of a token's life, a look at it every six hours.
    pub open spec fn at(endpoint: Seq<char>) -> ConfigView {
        ConfigView {
            endpoint,
            client_id: HUGGINGFACE_CLIENT_ID@,
            user_agent: USER_AGENT@,
            http_timeout: Span { secs: 20, nanos: 0 },
            refresh_when_under: Span { secs: 604_800, nanos: 0 },
            maintain_interval: Span { secs: 21_600, nanos: 0 },
        }
    }

    /// The defaults.
    pub open spec fn standard() -> ConfigView {
        ConfigView::at(HUGGINGFACE@)
    }

    /// The defaults, with an endpoint that the environment names, if it names one that is not
    /// blank.
    pub open spec fn from_env(endpoint: Option<Seq<char>>) -> ConfigView {
        match endpoint {
            Some(e) => if blank(e) {
                ConfigView::standard()
            } else {
                ConfigView::at(e)
            },
            None => ConfigView::standard(),
        }
    }
}

impl Clone for Config {
    fn clone(&self) -> (r: Config)
        ensures
            r == *self,
    {
        Config {
            endpoint: self.endpoint.clone(),
            client_id: self.client_id.clone(),
            user_agent: self.user_agent.clone(),
            http_timeout: self.http_timeout,
            refresh_when_under: self.refresh_when_under,
            maintain_interval: self.maintain_interval,
        }
    }
}

impl Default for Config {
    fn default() -> (r: Config)
        ensures
            r@ == ConfigView::standard(),
    {
        Config {
            endpoint: HUGGINGFACE.to_owned(),
            client_id: HUGGINGFACE_CLIENT_ID.to_owned(),
            user_agent: USER_AGENT.to_owned(),
            http_timeout: Span::from_secs(20),
            refresh_when_under: Span::from_secs(7 * 24 * 60 * 60),
            maintain_interval: Span::from_secs(6 * 60 * 60),
        }
    }
}

impl Config {
    /// [`Config::default`], with what [`ENDPOINT_VAR`] is set to honoured if it is not blank.
    ///
    /// `endpoint` is the value of that variable, or `None` where it has none. Separate from
    /// `default` because a library that reads the environment behind its caller's back is a
    /// surprise.
    pub fn from_env(endpoint: Option<String>) -> (r: Config)
        ensures
            r@ == ConfigView::from_env(opt_view(endpoint)),
    {
        match endpoint {
            Some(e) => if is_blank(e.as_str()) {
                Config::default()
            } else {
                Config::at(e)
            },
            None => Config::default(),
        }
    }

    /// As [`Config::default`], against a named endpoint. For tests, mostly.
    pub fn at(endpoint: String) -> (r: Config)
        ensures
            r@ == ConfigView::at(endpoint@),
    {
        let standard = Config::default();
        Config { endpoint, ..standard }
    }
}

} // verus!
