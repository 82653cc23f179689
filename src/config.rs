//! Client settings: credentials and the trading mode.

use vstd::prelude::*;

verus! {

/// Immutable configuration object. It has no `Debug` form, so that the
/// secret is never printed.
#[derive(Clone)]
pub struct Config {
    pub alpaca_api_key: String,
    pub alpaca_secret_key: String,
    pub enable_real_trading: bool,
}

/// What a configuration builder holds so far.
pub struct ConfigDraft {
    pub api_key: Option<String>,
    pub secret_key: Option<String>,
    pub enable_real_trading: bool,
}

impl Config {
    pub fn builder() -> (r: ConfigBuilder)
        ensures
            r@ == (ConfigDraft { api_key: None, secret_key: None, enable_real_trading: false }),
    {
        ConfigBuilder::default()
    }
}

/// Creates the final config object.
pub struct ConfigBuilder {
    alpaca_api_key: Option<String>,
    alpaca_secret_key: Option<String>,
    enable_real_trading: bool,
}

impl View for ConfigBuilder {
    type V = ConfigDraft;

    closed spec fn view(&self) -> ConfigDraft {
        ConfigDraft {
            api_key: self.alpaca_api_key,
            secret_key: self.alpaca_secret_key,
            enable_real_trading: self.enable_real_trading,
        }
    }
}

impl Default for ConfigBuilder {
    fn default() -> (r: Self)
        ensures
            r@ == (ConfigDraft { api_key: None, secret_key: None, enable_real_trading: false }),
    {
        ConfigBuilder { alpaca_api_key: None, alpaca_secret_key: None, enable_real_trading: false }
    }
}

impl ConfigBuilder {
    pub fn alpaca_api_key(self, alpaca_api_key: String) -> (r: Self)
        ensures
            r@ == (ConfigDraft { api_key: Some(alpaca_api_key), ..self@ }),
    {
        ConfigBuilder { alpaca_api_key: Some(alpaca_api_key), ..self }
    }

    pub fn alpaca_secret_key(self, alpaca_secret_key: String) -> (r: Self)
        ensures
            r@ == (ConfigDraft { secret_key: Some(alpaca_secret_key), ..self@ }),
    {
        ConfigBuilder { alpaca_secret_key: Some(alpaca_secret_key), ..self }
    }

    pub fn enable_real_trading(self, enable_real_trading: bool) -> (r: Self)
        ensures
            r@ == (ConfigDraft { enable_real_trading, ..self@ }),
    {
        ConfigBuilder { enable_real_trading, ..self }
    }

    /// Completes the configuration; both keys must have been set.
    pub fn build(self) -> (r: Result<Config, &'static str>)
        ensures
            r is Ok <==> self@.api_key is Some && self@.secret_key is Some,
            self@.api_key is None ==> r is Err && r->Err_0@ == "API key must be set"@,
            self@.api_key is Some && self@.secret_key is None ==> r is Err && r->Err_0@
                == "Secret key must be set"@,
            r matches Ok(c) ==> c.alpaca_api_key == self@.api_key->Some_0 && c.alpaca_secret_key
                == self@.secret_key->Some_0 && c.enable_real_trading == self@.enable_real_trading,
    {
        match self.alpaca_api_key {
            None => Err("API key must be set"),
            Some(alpaca_api_key) => match self.alpaca_secret_key {
                None => Err("Secret key must be set"),
                Some(alpaca_secret_key) => Ok(
                    Config {
                        alpaca_api_key,
                        alpaca_secret_key,
                        enable_real_trading: self.enable_real_trading,
                    },
                ),
            },
        }
    }
}

} // verus!
