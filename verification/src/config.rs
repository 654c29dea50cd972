//! Typed multi-chain configuration and its resolution rules: which chain
//! entry answers a query by name, and which asset-list source applies
//! under a given active environment.
//!
//! Reading and decoding the underlying documents is a collaborator's job;
//! this module owns the data model and the selection logic.

use vstd::prelude::*;
use crate::text::str_eq;

verus! {

/// One whitelisted asset: display label, ledger code, issuing account
/// identifier.
#[derive(Clone, Debug)]
pub struct Asset {
    pub label: String,
    pub code: String,
    pub issuer: String,
}

impl Asset {
    /// A well-formed asset has a non-empty code and a non-empty issuer.
    pub open spec fn wf(&self) -> bool {
        self.code@.len() > 0 && self.issuer@.len() > 0
    }

    /// Whether this asset meets its invariant.
    pub fn check_wf(&self) -> (r: bool)
        ensures
            r == self.wf(),
    {
        self.code.as_str().unicode_len() > 0 && self.issuer.as_str().unicode_len() > 0
    }
}

/// An ordered list of whitelisted assets.  Duplicates are permitted; the
/// order of the underlying document is kept.
#[derive(Debug)]
pub struct AssetList {
    pub asset: Vec<Asset>,
}

impl AssetList {
    /// Every asset of the list meets the asset invariant.
    pub open spec fn wf(&self) -> bool {
        forall|i: int| 0 <= i < self.asset@.len() ==> self.asset@[i].wf()
    }

    /// Whether every asset of the list meets its invariant.
    pub fn check_wf(&self) -> (r: bool)
        ensures
            r == self.wf(),
    {
        let n = self.asset.len();
        let mut i: usize = 0;
        while i < n
            invariant
                i <= n,
                n == self.asset@.len(),
                forall|j: int| 0 <= j < i ==> self.asset@[j].wf(),
            decreases n - i,
        {
            if !self.asset[i].check_wf() {
                return false;
            }
            i += 1;
        }
        true
    }
}

/// Where a chain's asset list comes from: either one document for every
/// environment, or one document per environment (testnet and public).
#[derive(Clone, Debug)]
pub enum AssetSource {
    Single(String),
    PerEnvironment { testnet: String, public: String },
}

/// The source path selected for an active environment: a single source is
/// taken unconditionally; with per-environment sources, "public" selects
/// the public document and every other value, "testnet" included, selects
/// the testnet document (the explicit fallback policy).
pub open spec fn spec_selected_source(src: AssetSource, env: Seq<char>) -> Seq<char> {
    match src {
        AssetSource::Single(p) => p@,
        AssetSource::PerEnvironment { testnet, public } => if env == "public"@ {
            public@
        } else {
            testnet@
        },
    }
}

/// One blockchain's configuration: chain identifier, network tag,
/// RPC endpoint URL, and the reference to its asset-list source.
#[derive(Clone, Debug)]
pub struct BlockchainConfig {
    pub blockchain: String,
    pub network: String,
    pub endpoint: String,
    pub asset_list: AssetSource,
}

impl BlockchainConfig {
    /// The asset-list source that applies under `environment`.
    pub fn select_asset_source(&self, environment: &str) -> (r: &String)
        ensures
            r@ == spec_selected_source(self.asset_list, environment@),
    {
        match &self.asset_list {
            AssetSource::Single(p) => p,
            AssetSource::PerEnvironment { testnet, public } => {
                if str_eq(environment, "public") {
                    public
                } else {
                    testnet
                }
            },
        }
    }
}

/// The root configuration document: an ordered collection of chain
/// entries, and an optional global active-environment tag.
#[derive(Debug)]
pub struct Config {
    pub blockchain: Vec<BlockchainConfig>,
    pub environment: Option<String>,
}

/// The first entry of `chains` whose chain identifier equals `name`, or
/// `None` when no entry matches.
pub open spec fn spec_resolve(chains: Seq<BlockchainConfig>, name: Seq<char>) -> Option<
    BlockchainConfig,
>
    decreases chains.len(),
{
    if chains.len() == 0 {
        None
    } else if chains[0].blockchain@ == name {
        Some(chains[0])
    } else {
        spec_resolve(chains.drop_first(), name)
    }
}

impl Config {
    /// Chain identifiers are unique within the document.
    pub open spec fn wf(&self) -> bool {
        forall|i: int, j: int|
            0 <= i < j < self.blockchain@.len() ==> self.blockchain@[i].blockchain@
                != self.blockchain@[j].blockchain@
    }

    /// Loading a configuration from a database is not offered: the call
    /// reports `NotImplemented` on every input.
    pub fn from_database(_connection_string: &str) -> (r: Result<Config, ConfigError>)
        ensures
            r matches Err(e) && e matches ConfigError::NotImplemented(m) && m@
                == "Database loading not yet implemented"@,
    {
        Err(
            ConfigError::NotImplemented(
                String::from_str("Database loading not yet implemented"),
            ),
        )
    }

    /// The first chain entry named `name`, or `None` when no entry of the
    /// document carries that chain identifier.
    pub fn get_blockchain(&self, name: &str) -> (r: Option<&BlockchainConfig>)
        ensures
            match r {
                Some(bc) => spec_resolve(self.blockchain@, name@) == Some(*bc),
                None => spec_resolve(self.blockchain@, name@) is None,
            },
    {
        let n = self.blockchain.len();
        let mut i: usize = 0;
        proof {
            assert(self.blockchain@.skip(0) =~= self.blockchain@);
        }
        while i < n
            invariant
                i <= n,
                n == self.blockchain@.len(),
                spec_resolve(self.blockchain@, name@) == spec_resolve(
                    self.blockchain@.skip(i as int),
                    name@,
                ),
            decreases n - i,
        {
            proof {
                assert(self.blockchain@.skip(i as int)[0] == self.blockchain@[i as int]);
                assert(self.blockchain@.skip(i as int).drop_first() =~= self.blockchain@.skip(
                    i as int + 1,
                ));
            }
            if str_eq(self.blockchain[i].blockchain.as_str(), name) {
                return Some(&self.blockchain[i]);
            }
            i += 1;
        }
        proof {
            assert(self.blockchain@.skip(n as int) =~= Seq::<BlockchainConfig>::empty());
        }
        None
    }

    /// All chain entries of the document, in document order.
    pub fn get_all_blockchains(&self) -> (r: &[BlockchainConfig])
        ensures
            r@ == self.blockchain@,
    {
        self.blockchain.as_slice()
    }
}

/// Law: when exactly one entry of `chains` carries the queried chain
/// identifier, resolution returns that entry.
pub proof fn lemma_resolve_unique(chains: Seq<BlockchainConfig>, name: Seq<char>, i: int)
    requires
        0 <= i < chains.len(),
        chains[i].blockchain@ == name,
        forall|j: int| 0 <= j < chains.len() && j != i ==> chains[j].blockchain@ != name,
    ensures
        spec_resolve(chains, name) == Some(chains[i]),
    decreases chains.len(),
{
    if i == 0 {
    } else {
        assert(chains.drop_first()[i - 1] == chains[i]);
        assert(forall|j: int|
            0 <= j < chains.drop_first().len() && j != i - 1 ==> chains.drop_first()[j]
                == chains[j + 1]);
        lemma_resolve_unique(chains.drop_first(), name, i - 1);
    }
}

/// Law: when no entry of `chains` carries the queried chain identifier,
/// resolution returns `None`.
pub proof fn lemma_resolve_absent(chains: Seq<BlockchainConfig>, name: Seq<char>)
    requires
        forall|j: int| 0 <= j < chains.len() ==> chains[j].blockchain@ != name,
    ensures
        spec_resolve(chains, name) is None,
    decreases chains.len(),
{
    if chains.len() > 0 {
        assert(forall|j: int|
            0 <= j < chains.drop_first().len() ==> chains.drop_first()[j] == chains[j + 1]);
        lemma_resolve_absent(chains.drop_first(), name);
    }
}

/// Law: in a well-formed document — chain identifiers unique — an entry
/// carrying the queried chain identifier is returned by resolution, and
/// it is the only entry that can be.
pub proof fn lemma_wf_resolve(c: Config, name: Seq<char>, i: int)
    requires
        c.wf(),
        0 <= i < c.blockchain@.len(),
        c.blockchain@[i].blockchain@ == name,
    ensures
        spec_resolve(c.blockchain@, name) == Some(c.blockchain@[i]),
{
    assert forall|j: int|
        0 <= j < c.blockchain@.len() && j != i implies c.blockchain@[j].blockchain@
        != name by {
        if j < i {
            assert(c.blockchain@[j].blockchain@ != c.blockchain@[i].blockchain@);
        } else {
            assert(c.blockchain@[i].blockchain@ != c.blockchain@[j].blockchain@);
        }
    }
    lemma_resolve_unique(c.blockchain@, name, i);
}

/// Law of the environment selection: with per-environment sources,
/// "testnet" selects the testnet document, "public" the public document,
/// and every unrecognized value falls back to the testnet document.
pub proof fn lemma_environment_selection(src: AssetSource, env: Seq<char>)
    requires
        src matches AssetSource::PerEnvironment { .. },
    ensures
        src matches AssetSource::PerEnvironment { testnet, public } ==> (env == "testnet"@
            ==> spec_selected_source(src, env) == testnet@),
        src matches AssetSource::PerEnvironment { testnet, public } ==> (env == "public"@
            ==> spec_selected_source(src, env) == public@),
        src matches AssetSource::PerEnvironment { testnet, public } ==> (env != "testnet"@ && env
            != "public"@ ==> spec_selected_source(src, env) == testnet@),
{
    reveal_strlit("testnet");
    reveal_strlit("public");
    assert("testnet"@.len() != "public"@.len());
}

/// Errors of configuration loading and resolution.
#[derive(Debug)]
pub enum ConfigError {
    IoError(String),
    ParseError(String),
    NotImplemented(String),
}

impl ConfigError {
    /// A human-readable rendering of the error.
    pub fn describe(&self) -> (r: String)
        ensures
            match self {
                ConfigError::IoError(e) => r@ == "IO Error: "@ + e@,
                ConfigError::ParseError(e) => r@ == "Parse Error: "@ + e@,
                ConfigError::NotImplemented(e) => r@ == "Not Implemented: "@ + e@,
            },
    {
        match self {
            ConfigError::IoError(e) => String::from_str("IO Error: ").concat(e.as_str()),
            ConfigError::ParseError(e) => String::from_str("Parse Error: ").concat(e.as_str()),
            ConfigError::NotImplemented(e) => String::from_str("Not Implemented: ").concat(
                e.as_str(),
            ),
        }
    }
}

} // verus!
