//! The arguments of the `add` command, and the preset they describe.
use crate::config::{
    opt_text, trim_text, trimmed, FlagConfig, ModelConfig, NetworkConfig, Preset, TimeoutConfig,
};
use crate::provider::ProviderKind;
use vstd::prelude::*;

verus! {

/// What a caller hands over to add a preset, as given on the command line.
#[derive(Debug)]
pub struct AddArgs {
    pub name: String,
    pub provider: ProviderKind,
    pub base_url: String,
    pub auth_token: String,
    pub haiku: String,
    pub sonnet: String,
    pub opus: String,
    pub http_proxy: Option<String>,
    pub api_timeout_ms: Option<String>,
    pub mcp_tool_timeout: Option<String>,
    pub disable_nonessential_traffic: Option<bool>,
}

/// The trimmed text of an optional string.
pub open spec fn trimmed_opt(o: Option<String>) -> Option<Seq<char>> {
    match o {
        Some(s) => Some(trimmed(s@)),
        None => None,
    }
}

/// How a flag is kept in a preset.
pub open spec fn flag_text(b: bool) -> Seq<char> {
    if b {
        "true"@
    } else {
        "false"@
    }
}

/// Whether `p` is the preset that the arguments describe: every text trimmed,
/// an optional group present exactly where one of its values was given.
pub open spec fn preset_from_args(a: AddArgs, p: Preset) -> bool {
    &&& p.provider == a.provider
    &&& p.base_url@ == trimmed(a.base_url@)
    &&& p.auth_token@ == trimmed(a.auth_token@)
    &&& p.models.haiku_model@ == trimmed(a.haiku@)
    &&& p.models.sonnet_model@ == trimmed(a.sonnet@)
    &&& p.models.opus_model@ == trimmed(a.opus@)
    &&& match a.http_proxy {
        Some(x) => p.network matches Some(n) && opt_text(n.http_proxy) == Some(trimmed(x@)),
        None => p.network is None,
    }
    &&& if a.api_timeout_ms is None && a.mcp_tool_timeout is None {
        p.timeouts is None
    } else {
        p.timeouts matches Some(t) && opt_text(t.api_timeout_ms) == trimmed_opt(a.api_timeout_ms)
            && opt_text(t.mcp_tool_timeout) == trimmed_opt(a.mcp_tool_timeout)
    }
    &&& match a.disable_nonessential_traffic {
        Some(b) => p.flags matches Some(f) && opt_text(f.disable_nonessential_traffic) == Some(
            flag_text(b),
        ),
        None => p.flags is None,
    }
}

fn trimmed_owned(s: &str) -> (r: String)
    ensures
        r@ == trimmed(s@),
{
    trim_text(s).to_owned()
}

fn trimmed_option(o: Option<String>) -> (r: Option<String>)
    ensures
        opt_text(r) == trimmed_opt(o),
{
    match o {
        Some(s) => Some(trimmed_owned(s.as_str())),
        None => None,
    }
}

impl AddArgs {
    /// The trimmed name, and the preset that the arguments describe.
    pub fn into_name_and_preset(self) -> (r: (String, Preset))
        ensures
            r.0@ == trimmed(self.name@),
            preset_from_args(self, r.1),
    {
        let name = trimmed_owned(self.name.as_str());
        let network = match self.http_proxy {
            Some(http_proxy) => Some(
                NetworkConfig { http_proxy: Some(trimmed_owned(http_proxy.as_str())) },
            ),
            None => None,
        };
        let timeouts = if self.api_timeout_ms.is_none() && self.mcp_tool_timeout.is_none() {
            None
        } else {
            Some(
                TimeoutConfig {
                    api_timeout_ms: trimmed_option(self.api_timeout_ms),
                    mcp_tool_timeout: trimmed_option(self.mcp_tool_timeout),
                },
            )
        };
        let flags = match self.disable_nonessential_traffic {
            Some(value) => {
                let text = if value {
                    "true".to_owned()
                } else {
                    "false".to_owned()
                };
                Some(FlagConfig { disable_nonessential_traffic: Some(text) })
            },
            None => None,
        };
        let preset = Preset {
            provider: self.provider,
            base_url: trimmed_owned(self.base_url.as_str()),
            auth_token: trimmed_owned(self.auth_token.as_str()),
            models: ModelConfig {
                haiku_model: trimmed_owned(self.haiku.as_str()),
                sonnet_model: trimmed_owned(self.sonnet.as_str()),
                opus_model: trimmed_owned(self.opus.as_str()),
            },
            network,
            timeouts,
            flags,
        };
        (name, preset)
    }
}

} // verus!
