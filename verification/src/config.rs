//! Process configuration: the sweep interval, the tier table, the connection
//! parameters, and the resolution of the credential file paths with their
//! network-dependent defaults under the home directory.

use crate::policy::{FeeTier, Tiers};
use vstd::prelude::*;
use vstd::string::*;

verus! {

/// The network the node runs on; it picks the directory of the default
/// macaroon path.
#[derive(Clone, Copy, Debug, PartialEq, Eq, Structural)]
pub enum Network {
    Bitcoin,
    Testnet,
    Signet,
    Regtest,
}

/// The chain directory name of a network.
pub open spec fn spec_network_name(n: Network) -> Seq<char> {
    match n {
        Network::Bitcoin => "mainnet"@,
        Network::Testnet => "testnet"@,
        Network::Signet => "signet"@,
        Network::Regtest => "regtest"@,
    }
}

/// The chain directory name of a network.
pub fn network_name(n: &Network) -> (r: &'static str)
    ensures
        r@ == spec_network_name(*n),
{
    match n {
        Network::Bitcoin => "mainnet",
        Network::Testnet => "testnet",
        Network::Signet => "signet",
        Network::Regtest => "regtest",
    }
}

/// `s` with one trailing slash removed, if it ends in one.
pub open spec fn spec_strip_trailing_slash(s: Seq<char>) -> Seq<char> {
    if s.len() > 0 && s.last() == '/' {
        s.drop_last()
    } else {
        s
    }
}

/// Whether `p` is the default certificate path under some home directory.
pub open spec fn is_default_cert_path(p: Seq<char>) -> bool {
    exists|h: Seq<char>| p == #[trigger] spec_strip_trailing_slash(h) + "/.lnd/tls.cert"@
}

/// Whether `p` is the default macaroon path of network `n` under some home
/// directory.
pub open spec fn is_default_macaroon_path(p: Seq<char>, n: Network) -> bool {
    exists|h: Seq<char>|
        p == #[trigger] spec_strip_trailing_slash(h) + "/.lnd/data/chain/bitcoin/"@
            + spec_network_name(n) + "/admin.macaroon"@
}

/// Relies on home::home_dir: the home directory that the environment names,
/// if any, rendered as a path string; `None` when the environment names
/// none. Nothing is assumed of the value.
#[verifier::external_body]
fn home_dir_string() -> (r: Option<String>) {
    home::home_dir().map(|buf| format!("{}", buf.display()))
}

/// `s` with one trailing slash removed, if it ends in one, so that a path
/// segment can be appended with an explicit separator.
fn strip_trailing_slash(s: String) -> (r: String)
    ensures
        r@ == spec_strip_trailing_slash(s@),
{
    let n = s.as_str().unicode_len();
    if n > 0 && s.as_str().get_char(n - 1) == '/' {
        let stripped = s.as_str().substring_char(0, n - 1);
        let r = String::from_str(stripped);
        proof {
            assert(s@.drop_last() =~= s@.subrange(0, n as int - 1));
        }
        r
    } else {
        s
    }
}

/// The default certificate path under the home directory `home`: the home
/// string with one trailing slash removed, then `/.lnd/tls.cert`.
pub fn cert_file_under(home: &str) -> (r: String)
    ensures
        r@ == spec_strip_trailing_slash(home@) + "/.lnd/tls.cert"@,
{
    let stripped = strip_trailing_slash(String::from_str(home));
    stripped.concat("/.lnd/tls.cert")
}

/// The default macaroon path of network `network` under the home directory
/// `home`: the home string with one trailing slash removed, then the chain
/// directory of the network, then `admin.macaroon`.
pub fn macaroon_file_under(home: &str, network: &Network) -> (r: String)
    ensures
        r@ == spec_strip_trailing_slash(home@) + "/.lnd/data/chain/bitcoin/"@
            + spec_network_name(*network) + "/admin.macaroon"@,
{
    let stripped = strip_trailing_slash(String::from_str(home));
    let name = network_name(network);
    stripped.concat("/.lnd/data/chain/bitcoin/").concat(name).concat("/admin.macaroon")
}

/// The default path of the node's TLS certificate, under the home directory
/// the environment names; `None` when the environment names none.
pub fn default_cert_file() -> (r: Option<String>)
    ensures
        (r matches Some(p) ==> is_default_cert_path(p@)),
{
    match home_dir_string() {
        Some(home) => {
            let path = cert_file_under(home.as_str());
            proof {
                assert(path@ == spec_strip_trailing_slash(home@) + "/.lnd/tls.cert"@);
            }
            Some(path)
        },
        None => None,
    }
}

/// The default path of the node's admin macaroon for network `network`,
/// under the home directory the environment names; `None` when the
/// environment names none.
pub fn default_macaroon_file(network: &Network) -> (r: Option<String>)
    ensures
        (r matches Some(p) ==> is_default_macaroon_path(p@, *network)),
{
    match home_dir_string() {
        Some(home) => {
            let path = macaroon_file_under(home.as_str(), network);
            proof {
                assert(path@ == spec_strip_trailing_slash(home@) + "/.lnd/data/chain/bitcoin/"@
                    + spec_network_name(*network) + "/admin.macaroon"@);
            }
            Some(path)
        },
        None => None,
    }
}

/// The process configuration: sweep interval, tier table, connection
/// parameters, and optional credential path overrides.
pub struct Config {
    /// Seconds between two sweeps.
    pub interval: u64,
    /// Fee rate in ppm of the low tier.
    pub low_fee_ppm: u32,
    /// Base fee in msat of the low tier.
    pub low_fee_base: i64,
    /// Fee rate in ppm of the medium tier.
    pub medium_fee_ppm: u32,
    /// Base fee in msat of the medium tier.
    pub medium_fee_base: i64,
    /// Fee rate in ppm of the high tier.
    pub high_fee_ppm: u32,
    /// Base fee in msat of the high tier.
    pub high_fee_base: i64,
    /// Host of the node's RPC server.
    pub lnd_host: String,
    /// Port of the node's RPC server.
    pub lnd_port: u32,
    /// The network the node runs on.
    pub network: Network,
    /// Path override for the TLS certificate file.
    pub cert_file: Option<String>,
    /// Path override for the admin macaroon file.
    pub macaroon_file: Option<String>,
}

impl Config {
    /// The tier table of this configuration.
    pub fn tiers(&self) -> (t: Tiers)
        ensures
            t.low == (FeeTier { fee_rate_ppm: self.low_fee_ppm, base_fee_msat: self.low_fee_base }),
            t.medium == (FeeTier {
                fee_rate_ppm: self.medium_fee_ppm,
                base_fee_msat: self.medium_fee_base,
            }),
            t.high == (FeeTier {
                fee_rate_ppm: self.high_fee_ppm,
                base_fee_msat: self.high_fee_base,
            }),
    {
        Tiers {
            low: FeeTier { fee_rate_ppm: self.low_fee_ppm, base_fee_msat: self.low_fee_base },
            medium: FeeTier {
                fee_rate_ppm: self.medium_fee_ppm,
                base_fee_msat: self.medium_fee_base,
            },
            high: FeeTier { fee_rate_ppm: self.high_fee_ppm, base_fee_msat: self.high_fee_base },
        }
    }

    /// The macaroon path to use: the override if one was given, else the
    /// network's default path under the home directory; `None` only when no
    /// override was given and the environment names no home directory.
    pub fn macaroon_file(&self) -> (r: Option<String>)
        ensures
            match self.macaroon_file {
                Some(f) => r matches Some(p) && p@ == f@,
                None => (r matches Some(p) ==> is_default_macaroon_path(p@, self.network)),
            },
    {
        match &self.macaroon_file {
            Some(f) => Some(f.clone()),
            None => default_macaroon_file(&self.network),
        }
    }

    /// The certificate path to use: the override if one was given, else the
    /// default path under the home directory; `None` only when no override
    /// was given and the environment names no home directory.
    pub fn cert_file(&self) -> (r: Option<String>)
        ensures
            match self.cert_file {
                Some(f) => r matches Some(p) && p@ == f@,
                None => (r matches Some(p) ==> is_default_cert_path(p@)),
            },
    {
        match &self.cert_file {
            Some(f) => Some(f.clone()),
            None => default_cert_file(),
        }
    }
}

} // verus!
