//! Service configuration: server binding, broadcast queue capacity, RSS and
//! push defaults, and the hub-URL normalization applied to user-entered URLs.

use vstd::prelude::*;
use vstd::string::*;

verus! {

/// Server bind address, port, and the bounded broadcast channel's capacity.
#[derive(Debug, Clone)]
pub struct ServerConfig {
    pub address: String,
    pub port: u16,
    pub queue_size: usize,
}

impl Default for ServerConfig {
    fn default() -> (c: Self)
        ensures
            c.address@ == "0.0.0.0"@,
            c.port == 1145,
            c.queue_size == 32,
    {
        ServerConfig { address: "0.0.0.0".to_owned(), port: 1145, queue_size: 32 }
    }
}

/// RSS hub base URL and the default polling interval in seconds.
#[derive(Debug, Clone)]
pub struct RssConfig {
    pub rsshub_url: String,
    pub default_interval: u64,
}

impl Default for RssConfig {
    fn default() -> (c: Self)
        ensures
            c.rsshub_url@ == "https://rsshub.app/"@,
            c.default_interval == 3600,
    {
        RssConfig { rsshub_url: "https://rsshub.app/".to_owned(), default_interval: 3600 }
    }
}

/// Default push interval in seconds.
#[derive(Debug, Clone)]
pub struct PushConfig {
    pub default_interval: u64,
}

impl Default for PushConfig {
    fn default() -> (c: Self)
        ensures
            c.default_interval == 3600,
    {
        PushConfig { default_interval: 3600 }
    }
}

/// The whole service configuration, loaded once at startup.
#[derive(Debug, Clone)]
pub struct Config {
    pub server: ServerConfig,
    pub rss: RssConfig,
    pub push: PushConfig,
}

impl Default for Config {
    fn default() -> (c: Self)
        ensures
            c.server.address@ == "0.0.0.0"@,
            c.server.port == 1145,
            c.server.queue_size == 32,
            c.rss.rsshub_url@ == "https://rsshub.app/"@,
            c.rss.default_interval == 3600,
            c.push.default_interval == 3600,
    {
        Config {
            server: ServerConfig::default(),
            rss: RssConfig::default(),
            push: PushConfig::default(),
        }
    }
}

/// A sequence starts with the given prefix.
pub open spec fn spec_has_prefix(s: Seq<char>, p: Seq<char>) -> bool {
    p.len() <= s.len() && s.subrange(0, p.len() as int) == p
}

/// The hub-URL normalization: prepend `https://` unless the URL already names
/// an `http://` or `https://` scheme, and append `/` unless the URL already
/// ends with one.
pub open spec fn spec_url_transform(url: Seq<char>) -> Seq<char> {
    let base = if spec_has_prefix(url, "http://"@) || spec_has_prefix(url, "https://"@) {
        url
    } else {
        "https://"@ + url
    };
    if url.len() > 0 && url.last() == '/' {
        base
    } else {
        base + "/"@
    }
}

fn str_has_prefix(s: &str, prefix: &str) -> (b: bool)
    ensures
        b == spec_has_prefix(s@, prefix@),
{
    let n = prefix.unicode_len();
    let sn = s.unicode_len();
    if sn < n {
        return false;
    }
    let mut i: usize = 0;
    while i < n
        invariant
            0 <= i <= n,
            n == prefix@.len(),
            sn == s@.len(),
            n <= sn,
            forall|j: int| 0 <= j < i ==> s@[j] == prefix@[j],
        decreases n - i,
    {
        if s.get_char(i) != prefix.get_char(i) {
            proof {
                assert(s@.subrange(0, n as int)[i as int] != prefix@[i as int]);
            }
            return false;
        }
        i += 1;
    }
    proof {
        assert(s@.subrange(0, n as int) =~= prefix@);
    }
    true
}

/// Normalize a user-entered hub URL to one with a scheme and a trailing slash.
pub fn rss_hub_url_transform(url: &str) -> (result: String)
    ensures
        result@ == spec_url_transform(url@),
{
    let mut result = String::new();
    if str_has_prefix(url, "http://") || str_has_prefix(url, "https://") {
        result.append(url);
    } else {
        result.append("https://");
        result.append(url);
    }
    let n = url.unicode_len();
    if !(n > 0 && url.get_char(n - 1) == '/') {
        result.append("/");
    }
    proof {
        assert(result@ =~= spec_url_transform(url@));
    }
    result
}

} // verus!
