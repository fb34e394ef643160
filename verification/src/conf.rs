//! Where the inference server is and which model it is asked for.

use vstd::prelude::*;
use vstd::string::*;
use crate::text::{decimal, decimal_text};

verus! {

/// Host, port and model of the inference server.
#[derive(Debug)]
pub struct Config {
    pub host: String,
    pub port: u16,
    pub model: String,
}

/// A [`Config`] with its texts as sequences of characters.
pub struct ConfigView {
    pub host: Seq<char>,
    pub port: u16,
    pub model: Seq<char>,
}

impl View for Config {
    type V = ConfigView;

    open spec fn view(&self) -> ConfigView {
        ConfigView { host: self.host@, port: self.port, model: self.model@ }
    }
}

/// The configuration in force where none has been stored: the server on this
/// machine, at its usual port, with the `llama2` model.
pub open spec fn default_config() -> ConfigView {
    ConfigView { host: "localhost"@, port: 11434, model: "llama2"@ }
}

/// The address of the server's endpoint `path`: `http://`, the host, a colon,
/// the port as a decimal numeral, and the path.
pub open spec fn endpoint_url(config: ConfigView, path: Seq<char>) -> Seq<char> {
    "http://"@ + config.host + ":"@ + decimal(config.port as nat) + path
}

impl Default for Config {
    fn default() -> (config: Config)
        ensures
            config@ == default_config(),
    {
        Config {
            host: String::from_str("localhost"),
            port: 11434,
            model: String::from_str("llama2"),
        }
    }
}

impl Config {
    /// The configuration in force after an attempt to load the stored one,
    /// and whether it still has to be stored. A stored configuration is used
    /// as it is; where there is none, the default is in force and is to be
    /// written out.
    pub fn or_default(stored: Option<Config>) -> (loaded: (Config, bool))
        ensures
            match stored {
                Some(config) => loaded.0 == config && !loaded.1,
                None => loaded.0@ == default_config() && loaded.1,
            },
    {
        match stored {
            Some(config) => (config, false),
            None => (Config::default(), true),
        }
    }

    /// The address of the server's endpoint `path`.
    pub fn endpoint(&self, path: &str) -> (url: String)
        ensures
            url@ == endpoint_url(self@, path@),
    {
        let mut url = String::from_str("http://");
        url.append(self.host.as_str());
        url.append(":");
        url.append(decimal_text(self.port).as_str());
        url.append(path);
        url
    }
}

} // verus!
