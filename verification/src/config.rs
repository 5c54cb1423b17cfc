//! Where the mimo channel is and how its connections are kept.

use crate::text::{
    decimal, decimal_reads_back, is_digit, parse_unsigned, unsigned_value, without_plus,
};
use vstd::prelude::*;

verus! {

/// All mimo PC traffic terminates at this host.
pub const MIMO_HOST: &'static str = "https://api.miclaw.xiaomi.net";

/// The chat endpoint of the v2 PC transport. The billing router expects these query
/// parameters on every LLM request.
pub const PATH_CHAT: &'static str =
    "/osbot/pc/llm/v2/chat/completions?bizId=xiaoai_pc&featureId=common&isFirstQuery=false";

/// The Responses-shaped endpoint of the v2 PC transport.
pub const PATH_RESPONSES: &'static str =
    "/osbot/pc/llm/v2/responses?bizId=xiaoai_pc&featureId=common&isFirstQuery=false";

/// The commercialization quota that the expert-mode UI shows.
pub const PATH_QUOTA: &'static str = "/osbot/pc/user/v2/status?bizId=xiaoai_pc&featureId=common";

/// The MCP host service of the PC channel. Kept here so that nothing collides with it.
pub const PATH_MCP_STREAMABLE: &'static str = "/osbot/pc/mcp/v1/streamable";

/// The ceiling for one upstream call, in seconds, where none is set.
pub const DEFAULT_TIMEOUT_SECS: u64 = 600;

/// The upstream base URL: an override where there is one, such as a mock server, and
/// otherwise [`MIMO_HOST`].
pub open spec fn host_of(host_override: Option<String>) -> Seq<char> {
    match host_override {
        Some(host) => host@,
        None => MIMO_HOST@,
    }
}

/// The ceiling for one upstream call, in seconds: a setting where it writes a
/// positive number, and otherwise the default.
pub open spec fn timeout_of(setting: Option<Seq<char>>) -> u64 {
    match setting {
        Some(text) => match unsigned_value(text) {
            Some(secs) if secs > 0 => secs,
            _ => DEFAULT_TIMEOUT_SECS,
        },
        None => DEFAULT_TIMEOUT_SECS,
    }
}

/// The upstream base URL.
pub fn mimo_host(host_override: Option<String>) -> (host: String)
    ensures
        host@ == host_of(host_override),
{
    match host_override {
        Some(host) => host,
        None => MIMO_HOST.to_owned(),
    }
}

/// The ceiling for one upstream call, in seconds. It is generous, because streamed
/// completions run for minutes.
pub fn upstream_timeout(setting: Option<&str>) -> (secs: u64)
    ensures
        secs == timeout_of(
            match setting {
                Some(text) => Some(text@),
                None => None,
            },
        ),
        secs > 0,
{
    match setting {
        Some(text) => match parse_unsigned(text) {
            Some(secs) if secs > 0 => secs,
            _ => DEFAULT_TIMEOUT_SECS,
        },
        None => DEFAULT_TIMEOUT_SECS,
    }
}

/// How the one client for all mimo traffic keeps its connections.
#[derive(Debug, Clone, Copy, PartialEq, Eq)]
pub struct ClientConfig {
    pub gzip: bool,
    pub connect_timeout_secs: u64,
    pub timeout_secs: u64,
    /// Dead peers are found by keepalive.
    pub tcp_keepalive_secs: u64,
    /// Idle connections are kept this long, so that requests that follow each other
    /// skip the handshake.
    pub pool_idle_timeout_secs: u64,
    pub pool_max_idle_per_host: usize,
}

/// The connection settings with the given ceiling for one upstream call.
pub open spec fn config_of(timeout_secs: u64) -> ClientConfig {
    ClientConfig {
        gzip: true,
        connect_timeout_secs: 10,
        timeout_secs,
        tcp_keepalive_secs: 60,
        pool_idle_timeout_secs: 90,
        pool_max_idle_per_host: 8,
    }
}

impl ClientConfig {
    /// The connection settings, with the ceiling for one upstream call as set.
    pub fn new(timeout_setting: Option<&str>) -> (config: ClientConfig)
        ensures
            config == config_of(
                timeout_of(
                    match timeout_setting {
                        Some(text) => Some(text@),
                        None => None,
                    },
                ),
            ),
    {
        ClientConfig {
            gzip: true,
            connect_timeout_secs: 10,
            timeout_secs: upstream_timeout(timeout_setting),
            tcp_keepalive_secs: 60,
            pool_idle_timeout_secs: 90,
            pool_max_idle_per_host: 8,
        }
    }
}

/// A timeout that is set to a positive number of seconds is the one that is used,
/// and a call is never given no time at all.
pub proof fn timeout_setting_is_honoured(secs: u64)
    ensures
        secs > 0 ==> timeout_of(Some(decimal(secs as nat))) == secs,
        secs == 0 ==> timeout_of(Some(decimal(secs as nat))) == DEFAULT_TIMEOUT_SECS,
{
    decimal_reads_back(secs as nat);
    let text = decimal(secs as nat);
    assert(is_digit(text[0]));
    assert(without_plus(text) == text);
}

/// The settings that a client is built from hold the ceiling as it is set: for every positive
/// number of seconds, its numeral gives exactly that ceiling, however large.
pub proof fn configured_ceiling_is_the_one_set(secs: u64)
    requires
        secs > 0,
    ensures
        config_of(timeout_of(Some(decimal(secs as nat)))).timeout_secs == secs,
{
    timeout_setting_is_honoured(secs);
}

/// Whatever the setting, the ceiling is the number that it writes, where it writes a positive
/// one, and ten minutes where it does not or where nothing is set.
pub proof fn ceiling_falls_back_to_ten_minutes(text: Seq<char>)
    ensures
        ({
            let secs = config_of(timeout_of(Some(text))).timeout_secs;
            &&& unsigned_value(text) is Some && unsigned_value(text)->0 > 0 ==> secs
                == unsigned_value(text)->0
            &&& unsigned_value(text) is None || unsigned_value(text)->0 == 0 ==> secs == 10 * 60
        }),
        config_of(timeout_of(None)).timeout_secs == 10 * 60,
        timeout_of(Some(text)) == config_of(timeout_of(Some(text))).timeout_secs,
{
}

/// The ceiling is all that a setting changes: compressed replies are accepted, connecting takes
/// at most ten seconds, peers are probed each minute, and up to eight idle connections of a host
/// are kept for a minute and a half, under every ceiling.
pub proof fn only_the_ceiling_is_set(timeout_secs: u64)
    ensures
        ({
            let config = config_of(timeout_secs);
            &&& config.timeout_secs == timeout_secs
            &&& config.gzip
            &&& config.connect_timeout_secs == 10
            &&& config.tcp_keepalive_secs == 60
            &&& config.pool_idle_timeout_secs == 90
            &&& config.pool_max_idle_per_host == 8
        }),
{
}

/// The host is the override where there is one, whatever it holds, and otherwise the channel's.
pub proof fn host_override_is_used_as_it_is(host_override: Option<String>)
    ensures
        host_override matches Some(host) ==> host_of(host_override) == host@,
        host_override is None ==> host_of(host_override) == "https://api.miclaw.xiaomi.net"@,
{
}

/// At every host the LLM endpoints of the v2 transport are called with the billing parameters,
/// the quota endpoint with those that it takes, and none of them is the MCP service.
pub proof fn endpoints_carry_their_parameters(host: Seq<char>)
    ensures
        host + PATH_CHAT@ == host + "/osbot/pc/llm/v2/chat/completions"@
            + "?bizId=xiaoai_pc&featureId=common"@ + "&isFirstQuery=false"@,
        host + PATH_RESPONSES@ == host + "/osbot/pc/llm/v2/responses"@
            + "?bizId=xiaoai_pc&featureId=common"@ + "&isFirstQuery=false"@,
        host + PATH_QUOTA@ == host + "/osbot/pc/user/v2/status"@
            + "?bizId=xiaoai_pc&featureId=common"@,
        host + PATH_MCP_STREAMABLE@ == host + "/osbot/pc/mcp"@ + "/v1/streamable"@,
{
    reveal_strlit(
        "/osbot/pc/llm/v2/chat/completions?bizId=xiaoai_pc&featureId=common&isFirstQuery=false",
    );
    reveal_strlit(
        "/osbot/pc/llm/v2/responses?bizId=xiaoai_pc&featureId=common&isFirstQuery=false",
    );
    reveal_strlit("/osbot/pc/user/v2/status?bizId=xiaoai_pc&featureId=common");
    reveal_strlit("/osbot/pc/mcp/v1/streamable");
    reveal_strlit("/osbot/pc/llm/v2/chat/completions");
    reveal_strlit("/osbot/pc/llm/v2/responses");
    reveal_strlit("/osbot/pc/user/v2/status");
    reveal_strlit("/osbot/pc/mcp");
    reveal_strlit("/v1/streamable");
    reveal_strlit("?bizId=xiaoai_pc&featureId=common");
    reveal_strlit("&isFirstQuery=false");
    assert(host + PATH_CHAT@ =~= host + "/osbot/pc/llm/v2/chat/completions"@
        + "?bizId=xiaoai_pc&featureId=common"@ + "&isFirstQuery=false"@);
    assert(host + PATH_RESPONSES@ =~= host + "/osbot/pc/llm/v2/responses"@
        + "?bizId=xiaoai_pc&featureId=common"@ + "&isFirstQuery=false"@);
    assert(host + PATH_QUOTA@ =~= host + "/osbot/pc/user/v2/status"@
        + "?bizId=xiaoai_pc&featureId=common"@);
    assert(host + PATH_MCP_STREAMABLE@ =~= host + "/osbot/pc/mcp"@ + "/v1/streamable"@);
}

} // verus!
