//! Chains and the forms in which a configuration holds them.

use vstd::prelude::*;

pub use crate::chain_file::{load_chain_from_file, ChainLoadError};
use crate::chain_file::{chain_result_is, spec_load_chain_from_file, ChainLoadErrorView};
use crate::constants::APPLICATION_BUILDER_DOMAIN;
use crate::signature::{compute_domain, spec_compute_domain};
use crate::text::{decimal, encode_prefixed, spec_decimal, spec_hex_prefixed};

verus! {

/// The name of a module that signs through this client.
#[derive(Debug, Clone, PartialEq, Eq, Hash)]
pub struct ModuleId(pub String);

impl View for ModuleId {
    type V = Seq<char>;

    open spec fn view(&self) -> Seq<char> {
        self.0@
    }
}

impl From<String> for ModuleId {
    fn from(value: String) -> (id: ModuleId) {
        ModuleId(value)
    }
}

impl vstd::std_specs::convert::FromSpecImpl<String> for ModuleId {
    open spec fn obeys_from_spec() -> bool {
        true
    }

    open spec fn from_spec(value: String) -> ModuleId {
        ModuleId(value)
    }
}

impl ModuleId {
    /// The name as text.
    pub fn as_str(&self) -> (text: &str)
        ensures
            text@ == self@,
    {
        self.0.as_str()
    }

    /// The name as a text of its own.
    pub fn to_string(&self) -> (text: String)
        ensures
            text@ == self@,
    {
        self.0.clone()
    }

    /// Gives up the name for the text that it holds.
    pub fn into_string(self) -> (text: String)
        ensures
            text == self.0,
    {
        self.0
    }
}

/// A token that a module shows to be let in.
#[derive(Debug, Clone, PartialEq, Eq, Hash)]
pub struct Jwt(pub String);

impl View for Jwt {
    type V = Seq<char>;

    open spec fn view(&self) -> Seq<char> {
        self.0@
    }
}

impl From<String> for Jwt {
    fn from(value: String) -> (token: Jwt) {
        Jwt(value)
    }
}

impl vstd::std_specs::convert::FromSpecImpl<String> for Jwt {
    open spec fn obeys_from_spec() -> bool {
        true
    }

    open spec fn from_spec(value: String) -> Jwt {
        Jwt(value)
    }
}

impl Jwt {
    /// The token as text.
    pub fn as_str(&self) -> (text: &str)
        ensures
            text@ == self@,
    {
        self.0.as_str()
    }

    /// The token as a text of its own.
    pub fn to_string(&self) -> (text: String)
        ensures
            text@ == self@,
    {
        self.0.clone()
    }

    /// Gives up the token for the text that it holds.
    pub fn into_string(self) -> (text: String)
        ensures
            text == self.0,
    {
        self.0
    }
}

/// One network: a known one, or one given by its own parameters.
#[derive(Debug, Clone, Copy, Eq, Hash)]
pub enum Chain {
    Mainnet,
    Holesky,
    Helder,
    Custom { genesis_time_secs: u64, slot_time_secs: u64, genesis_fork_version: [u8; 4] },
}

impl PartialEq for Chain {
    fn eq(&self, other: &Self) -> (same: bool) {
        match (self, other) {
            (Chain::Mainnet, Chain::Mainnet) => true,
            (Chain::Holesky, Chain::Holesky) => true,
            (Chain::Helder, Chain::Helder) => true,
            (
                Chain::Custom { genesis_time_secs: t1, slot_time_secs: s1, genesis_fork_version: v1 },
                Chain::Custom { genesis_time_secs: t2, slot_time_secs: s2, genesis_fork_version: v2 },
            ) => {
                let same_version = v1[0] == v2[0] && v1[1] == v2[1] && v1[2] == v2[2] && v1[3]
                    == v2[3];
                proof {
                    if same_version {
                        assert(*v1 =~= *v2);
                    }
                }
                *t1 == *t2 && *s1 == *s2 && same_version
            },
            _ => false,
        }
    }
}

impl vstd::std_specs::cmp::PartialEqSpecImpl for Chain {
    open spec fn obeys_eq_spec() -> bool {
        true
    }

    open spec fn eq_spec(&self, other: &Self) -> bool {
        *self == *other
    }
}

impl Chain {
    /// The fork version at genesis, as a sequence of 4 bytes.
    pub open spec fn spec_genesis_fork_version(self) -> Seq<u8> {
        match self {
            Chain::Mainnet => KnownChain::Mainnet.spec_genesis_fork_version(),
            Chain::Holesky => KnownChain::Holesky.spec_genesis_fork_version(),
            Chain::Helder => KnownChain::Helder.spec_genesis_fork_version(),
            Chain::Custom { genesis_fork_version, .. } => genesis_fork_version@,
        }
    }

    /// The genesis time, in seconds since the epoch.
    pub open spec fn spec_genesis_time_sec(self) -> u64 {
        match self {
            Chain::Mainnet => KnownChain::Mainnet.spec_genesis_time_sec(),
            Chain::Holesky => KnownChain::Holesky.spec_genesis_time_sec(),
            Chain::Helder => KnownChain::Helder.spec_genesis_time_sec(),
            Chain::Custom { genesis_time_secs, .. } => genesis_time_secs,
        }
    }

    /// The length of a slot, in seconds.
    pub open spec fn spec_slot_time_sec(self) -> u64 {
        match self {
            Chain::Mainnet | Chain::Holesky | Chain::Helder => 12,
            Chain::Custom { slot_time_secs, .. } => slot_time_secs,
        }
    }

    /// The builder domain: the table's entry for a known network, and for any
    /// other the domain derived from its fork version.
    pub open spec fn spec_builder_domain(self) -> Seq<u8> {
        match self {
            Chain::Mainnet => KnownChain::Mainnet.spec_builder_domain(),
            Chain::Holesky => KnownChain::Holesky.spec_builder_domain(),
            Chain::Helder => KnownChain::Helder.spec_builder_domain(),
            Chain::Custom { genesis_fork_version, .. } => spec_compute_domain(
                genesis_fork_version@,
                APPLICATION_BUILDER_DOMAIN@,
            ),
        }
    }

    /// The domain under which builders sign for this chain. It is looked up
    /// for a known network and derived anew at each call for any other chain.
    pub fn builder_domain(&self) -> (domain: [u8; 32])
        ensures
            domain@ == self.spec_builder_domain(),
    {
        match self {
            Chain::Mainnet => KnownChain::Mainnet.builder_domain(),
            Chain::Holesky => KnownChain::Holesky.builder_domain(),
            Chain::Helder => KnownChain::Helder.builder_domain(),
            Chain::Custom { .. } => compute_domain(*self, APPLICATION_BUILDER_DOMAIN),
        }
    }

    /// The fork version at genesis.
    pub fn genesis_fork_version(&self) -> (version: [u8; 4])
        ensures
            version@ == self.spec_genesis_fork_version(),
    {
        match self {
            Chain::Mainnet => KnownChain::Mainnet.genesis_fork_version(),
            Chain::Holesky => KnownChain::Holesky.genesis_fork_version(),
            Chain::Helder => KnownChain::Helder.genesis_fork_version(),
            Chain::Custom { genesis_fork_version, .. } => *genesis_fork_version,
        }
    }

    /// The genesis time, in seconds since the epoch.
    pub fn genesis_time_sec(&self) -> (secs: u64)
        ensures
            secs == self.spec_genesis_time_sec(),
    {
        match self {
            Chain::Mainnet => KnownChain::Mainnet.genesis_time_sec(),
            Chain::Holesky => KnownChain::Holesky.genesis_time_sec(),
            Chain::Helder => KnownChain::Helder.genesis_time_sec(),
            Chain::Custom { genesis_time_secs, .. } => *genesis_time_secs,
        }
    }

    /// The length of a slot, in seconds.
    pub fn slot_time_sec(&self) -> (secs: u64)
        ensures
            secs == self.spec_slot_time_sec(),
    {
        match self {
            Chain::Mainnet => KnownChain::Mainnet.slot_time_sec(),
            Chain::Holesky => KnownChain::Holesky.slot_time_sec(),
            Chain::Helder => KnownChain::Helder.slot_time_sec(),
            Chain::Custom { slot_time_secs, .. } => *slot_time_secs,
        }
    }
}

/// The networks whose parameters are fixed in this library.
#[derive(Debug, Clone, Copy, PartialEq, Eq, Structural, Hash)]
pub enum KnownChain {
    Mainnet,
    Holesky,
    Helder,
}

impl KnownChain {
    /// The builder domain of the network, as a sequence of 32 bytes.
    pub open spec fn spec_builder_domain(self) -> Seq<u8> {
        match self {
            KnownChain::Mainnet => seq![
                0u8, 0, 0, 1, 245, 165, 253, 66, 209, 106, 32, 48, 39, 152, 239, 110, 211, 9, 151,
                155, 67, 0, 61, 35, 32, 217, 240, 232, 234, 152, 49, 169,
            ],
            KnownChain::Holesky => seq![
                0u8, 0, 0, 1, 91, 131, 162, 55, 89, 197, 96, 178, 208, 198, 69, 118, 225, 220, 252,
                52, 234, 148, 196, 152, 143, 62, 13, 159, 119, 240, 83, 135,
            ],
            KnownChain::Helder => seq![
                0u8, 0, 0, 1, 148, 196, 26, 244, 132, 255, 247, 150, 73, 105, 224, 189, 217, 34, 248,
                45, 255, 15, 75, 232, 122, 96, 208, 102, 76, 201, 209, 255,
            ],
        }
    }

    /// The fork version at genesis, as a sequence of 4 bytes.
    pub open spec fn spec_genesis_fork_version(self) -> Seq<u8> {
        match self {
            KnownChain::Mainnet => seq![0u8, 0, 0, 0],
            KnownChain::Holesky => seq![1u8, 1, 112, 0],
            KnownChain::Helder => seq![16u8, 0, 0, 0],
        }
    }

    /// The genesis time, in seconds since the epoch.
    pub open spec fn spec_genesis_time_sec(self) -> u64 {
        match self {
            KnownChain::Mainnet => 1606824023,
            KnownChain::Holesky => 1695902400,
            KnownChain::Helder => 1718967660,
        }
    }

    /// The domain under which builders sign for the network.
    pub fn builder_domain(&self) -> (domain: [u8; 32])
        ensures
            domain@ == self.spec_builder_domain(),
    {
        match self {
            KnownChain::Mainnet => [
                0, 0, 0, 1, 245, 165, 253, 66, 209, 106, 32, 48, 39, 152, 239, 110, 211, 9, 151,
                155, 67, 0, 61, 35, 32, 217, 240, 232, 234, 152, 49, 169,
            ],
            KnownChain::Holesky => [
                0, 0, 0, 1, 91, 131, 162, 55, 89, 197, 96, 178, 208, 198, 69, 118, 225, 220, 252,
                52, 234, 148, 196, 152, 143, 62, 13, 159, 119, 240, 83, 135,
            ],
            KnownChain::Helder => [
                0, 0, 0, 1, 148, 196, 26, 244, 132, 255, 247, 150, 73, 105, 224, 189, 217, 34, 248,
                45, 255, 15, 75, 232, 122, 96, 208, 102, 76, 201, 209, 255,
            ],
        }
    }

    /// The fork version at genesis.
    pub fn genesis_fork_version(&self) -> (version: [u8; 4])
        ensures
            version@ == self.spec_genesis_fork_version(),
    {
        match self {
            KnownChain::Mainnet => [0u8; 4],
            KnownChain::Holesky => [1, 1, 112, 0],
            KnownChain::Helder => [16, 0, 0, 0],
        }
    }

    /// The genesis time, in seconds since the epoch.
    pub fn genesis_time_sec(&self) -> (secs: u64)
        ensures
            secs == self.spec_genesis_time_sec(),
    {
        match self {
            KnownChain::Mainnet => 1606824023,
            KnownChain::Holesky => 1695902400,
            KnownChain::Helder => 1718967660,
        }
    }

    /// The length of a slot, in seconds: twelve on every known network.
    pub fn slot_time_sec(&self) -> (secs: u64)
        ensures
            secs == 12,
    {
        match self {
            KnownChain::Mainnet | KnownChain::Holesky | KnownChain::Helder => 12,
        }
    }
}

/// Whether two texts are the same.
fn str_equal(left: &str, right: &str) -> (same: bool)
    ensures
        same == (left@ == right@),
{
    let left: String = left.to_owned();
    let right: String = right.to_owned();
    left == right
}

impl KnownChain {
    /// The name that the network is written as.
    pub open spec fn spec_name(self) -> Seq<char> {
        match self {
            KnownChain::Mainnet => "Mainnet"@,
            KnownChain::Holesky => "Holesky"@,
            KnownChain::Helder => "Helder"@,
        }
    }

    /// The network that a name stands for: its name as it is written, or the
    /// same in lower case.
    pub open spec fn spec_from_name(name: Seq<char>) -> Option<KnownChain> {
        if name == "Mainnet"@ || name == "mainnet"@ {
            Some(KnownChain::Mainnet)
        } else if name == "Holesky"@ || name == "holesky"@ {
            Some(KnownChain::Holesky)
        } else if name == "Helder"@ || name == "helder"@ {
            Some(KnownChain::Helder)
        } else {
            None
        }
    }

    /// The name that the network is written as.
    pub fn name(&self) -> (name: &'static str)
        ensures
            name@ == self.spec_name(),
    {
        match self {
            KnownChain::Mainnet => "Mainnet",
            KnownChain::Holesky => "Holesky",
            KnownChain::Helder => "Helder",
        }
    }

    /// The network that a name stands for, if it stands for one.
    pub fn from_name(name: &str) -> (known: Option<KnownChain>)
        ensures
            known == Self::spec_from_name(name@),
    {
        if str_equal(name, "Mainnet") || str_equal(name, "mainnet") {
            Some(KnownChain::Mainnet)
        } else if str_equal(name, "Holesky") || str_equal(name, "holesky") {
            Some(KnownChain::Holesky)
        } else if str_equal(name, "Helder") || str_equal(name, "helder") {
            Some(KnownChain::Helder)
        } else {
            None
        }
    }
}

impl Chain {
    /// The chain of a known network.
    pub open spec fn spec_from_known(known: KnownChain) -> Chain {
        match known {
            KnownChain::Mainnet => Chain::Mainnet,
            KnownChain::Holesky => Chain::Holesky,
            KnownChain::Helder => Chain::Helder,
        }
    }
}

impl From<KnownChain> for Chain {
    fn from(value: KnownChain) -> (chain: Chain) {
        match value {
            KnownChain::Mainnet => Chain::Mainnet,
            KnownChain::Holesky => Chain::Holesky,
            KnownChain::Helder => Chain::Helder,
        }
    }
}

impl vstd::std_specs::convert::FromSpecImpl<KnownChain> for Chain {
    open spec fn obeys_from_spec() -> bool {
        true
    }

    open spec fn from_spec(value: KnownChain) -> Chain {
        Chain::spec_from_known(value)
    }
}

/// What a chain is written as, and read from: the name of a known network,
/// the path of a file that describes the chain, or the chain's own
/// parameters with the fork version as bytes of any length.
#[derive(Debug, Clone, PartialEq, Eq)]
pub enum ChainLoader {
    Known(KnownChain),
    Path(String),
    Custom { genesis_time_secs: u64, slot_time_secs: u64, genesis_fork_version: Vec<u8> },
}

/// A `ChainLoader` with its text and bytes as sequences.
pub enum ChainLoaderView {
    Known(KnownChain),
    Path(Seq<char>),
    Custom { genesis_time_secs: u64, slot_time_secs: u64, genesis_fork_version: Seq<u8> },
}

impl View for ChainLoader {
    type V = ChainLoaderView;

    open spec fn view(&self) -> ChainLoaderView {
        match *self {
            ChainLoader::Known(known) => ChainLoaderView::Known(known),
            ChainLoader::Path(path) => ChainLoaderView::Path(path@),
            ChainLoader::Custom {
                genesis_time_secs,
                slot_time_secs,
                genesis_fork_version,
            } => ChainLoaderView::Custom {
                genesis_time_secs,
                slot_time_secs,
                genesis_fork_version: genesis_fork_version@,
            },
        }
    }
}

impl ChainLoaderView {
    /// What a text is read as: a known network where it is the name of one,
    /// and a path otherwise.
    pub open spec fn from_text(text: Seq<char>) -> ChainLoaderView {
        match KnownChain::spec_from_name(text) {
            Some(known) => ChainLoaderView::Known(known),
            None => ChainLoaderView::Path(text),
        }
    }

    /// The text that is written for a known network or a path; parameters are
    /// written as a record and have none.
    pub open spec fn text(self) -> Option<Seq<char>> {
        match self {
            ChainLoaderView::Known(known) => Some(known.spec_name()),
            ChainLoaderView::Path(path) => Some(path),
            ChainLoaderView::Custom { .. } => None,
        }
    }

    /// The chain that is read: that of a known network; for a path what the
    /// file describes, which must have been read; for parameters the chain
    /// with them, if the fork version has four bytes.
    pub open spec fn chain(self, file: Option<Seq<u8>>) -> Result<Chain, ChainLoadErrorView> {
        match self {
            ChainLoaderView::Known(known) => Ok(Chain::spec_from_known(known)),
            ChainLoaderView::Path(path) => match file {
                Some(text) => spec_load_chain_from_file(path, text),
                None => Err(ChainLoadErrorView::FileNotFound { path }),
            },
            ChainLoaderView::Custom { genesis_time_secs, slot_time_secs, genesis_fork_version } => {
                if genesis_fork_version.len() == 4 {
                    Ok(
                        Chain::Custom {
                            genesis_time_secs,
                            slot_time_secs,
                            genesis_fork_version: [
                                genesis_fork_version[0],
                                genesis_fork_version[1],
                                genesis_fork_version[2],
                                genesis_fork_version[3],
                            ],
                        },
                    )
                } else {
                    Err(
                        ChainLoadErrorView::ForkVersionLength {
                            length: genesis_fork_version.len() as usize,
                        },
                    )
                }
            },
        }
    }
}

impl ChainLoader {
    /// Reads a text: as a known network where it is the name of one, as a path
    /// otherwise.
    pub fn from_text(text: &str) -> (loader: ChainLoader)
        ensures
            loader@ == ChainLoaderView::from_text(text@),
    {
        match KnownChain::from_name(text) {
            Some(known) => ChainLoader::Known(known),
            None => ChainLoader::Path(text.to_owned()),
        }
    }

    /// The text that is written for a known network or a path.
    pub fn text(&self) -> (text: Option<String>)
        ensures
            match text {
                Some(written) => self@.text() == Some(written@),
                None => self@.text() is None,
            },
    {
        match self {
            ChainLoader::Known(known) => Some(known.name().to_owned()),
            ChainLoader::Path(path) => Some(path.clone()),
            ChainLoader::Custom { .. } => None,
        }
    }
}

/// The bytes of a file that may have been read.
pub open spec fn file_view(file: Option<&[u8]>) -> Option<Seq<u8>> {
    match file {
        Some(text) => Some(text@),
        None => None,
    }
}

impl Chain {
    /// What the chain is written as: a known network by its name, any other
    /// chain by its parameters, and none by a path.
    pub open spec fn spec_to_loader(self) -> ChainLoaderView {
        match self {
            Chain::Mainnet => ChainLoaderView::Known(KnownChain::Mainnet),
            Chain::Holesky => ChainLoaderView::Known(KnownChain::Holesky),
            Chain::Helder => ChainLoaderView::Known(KnownChain::Helder),
            Chain::Custom {
                genesis_time_secs,
                slot_time_secs,
                genesis_fork_version,
            } => ChainLoaderView::Custom {
                genesis_time_secs,
                slot_time_secs,
                genesis_fork_version: genesis_fork_version@,
            },
        }
    }

    /// What the chain is written as.
    pub fn to_loader(&self) -> (loader: ChainLoader)
        ensures
            loader@ == self.spec_to_loader(),
    {
        match self {
            Chain::Mainnet => ChainLoader::Known(KnownChain::Mainnet),
            Chain::Holesky => ChainLoader::Known(KnownChain::Holesky),
            Chain::Helder => ChainLoader::Known(KnownChain::Helder),
            Chain::Custom { genesis_time_secs, slot_time_secs, genesis_fork_version } => {
                let mut bytes: Vec<u8> = Vec::new();
                bytes.push(genesis_fork_version[0]);
                bytes.push(genesis_fork_version[1]);
                bytes.push(genesis_fork_version[2]);
                bytes.push(genesis_fork_version[3]);
                assert(bytes@ =~= genesis_fork_version@);
                ChainLoader::Custom {
                    genesis_time_secs: *genesis_time_secs,
                    slot_time_secs: *slot_time_secs,
                    genesis_fork_version: bytes,
                }
            },
        }
    }

    /// Reads a chain from what it was written as. For a path, `file` holds what
    /// was read at the path, and `None` where nothing could be read; for the
    /// other two it is not looked at.
    pub fn from_loader(loader: &ChainLoader, file: Option<&[u8]>) -> (result: Result<
        Chain,
        ChainLoadError,
    >)
        ensures
            chain_result_is(result, loader@.chain(file_view(file))),
    {
        match loader {
            ChainLoader::Known(known) => Ok(Chain::from(*known)),
            ChainLoader::Path(path) => match file {
                Some(text) => load_chain_from_file(path.as_str(), text),
                None => Err(ChainLoadError::FileNotFound { path: path.clone() }),
            },
            ChainLoader::Custom { genesis_time_secs, slot_time_secs, genesis_fork_version } => {
                if genesis_fork_version.len() == 4 {
                    Ok(
                        Chain::Custom {
                            genesis_time_secs: *genesis_time_secs,
                            slot_time_secs: *slot_time_secs,
                            genesis_fork_version: [
                                genesis_fork_version[0],
                                genesis_fork_version[1],
                                genesis_fork_version[2],
                                genesis_fork_version[3],
                            ],
                        },
                    )
                } else {
                    Err(ChainLoadError::ForkVersionLength { length: genesis_fork_version.len() })
                }
            },
        }
    }

    /// The chain as it is printed when a program is debugged: a known network
    /// by its name, any other chain with its fields and the fork version in
    /// hexadecimal.
    pub open spec fn spec_debug_string(self) -> Seq<char> {
        match self {
            Chain::Mainnet => "Mainnet"@,
            Chain::Holesky => "Holesky"@,
            Chain::Helder => "Helder"@,
            Chain::Custom { genesis_time_secs, slot_time_secs, genesis_fork_version } => {
                "Custom { genesis_time_secs: "@ + spec_decimal(genesis_time_secs as nat)
                    + ", slot_time_secs: "@ + spec_decimal(slot_time_secs as nat)
                    + ", genesis_fork_version: \""@ + spec_hex_prefixed(genesis_fork_version@)
                    + "\" }"@
            },
        }
    }

    /// Prints the chain as a program that is debugged shows it.
    pub fn debug_string(&self) -> (text: String)
        ensures
            text@ == self.spec_debug_string(),
    {
        match self {
            Chain::Mainnet => "Mainnet".to_owned(),
            Chain::Holesky => "Holesky".to_owned(),
            Chain::Helder => "Helder".to_owned(),
            Chain::Custom { genesis_time_secs, slot_time_secs, genesis_fork_version } => {
                let mut text = "Custom { genesis_time_secs: ".to_owned();
                text.append(decimal(*genesis_time_secs).as_str());
                text.append(", slot_time_secs: ");
                text.append(decimal(*slot_time_secs).as_str());
                text.append(", genesis_fork_version: \"");
                text.append(encode_prefixed(genesis_fork_version.as_slice()).as_str());
                text.append("\" }");
                text
            },
        }
    }
}

/// The chain made from a known network has the parameters that the table
/// holds for the network: the builder domain is looked up, not derived.
pub proof fn lemma_known_chain_parameters(known: KnownChain)
    ensures
        Chain::spec_from_known(known).spec_builder_domain() == known.spec_builder_domain(),
        Chain::spec_from_known(known).spec_genesis_fork_version()
            == known.spec_genesis_fork_version(),
        Chain::spec_from_known(known).spec_genesis_time_sec() == known.spec_genesis_time_sec(),
        Chain::spec_from_known(known).spec_slot_time_sec() == 12,
        Chain::spec_from_known(known) !is Custom,
{
}

/// A chain that is written and read again is the same chain, and no file is
/// read for it: a known network is written as its name and comes back as that
/// network, any other chain is written as its parameters and comes back with
/// the same fields.
pub proof fn lemma_loader_round_trip(chain: Chain, file: Option<Seq<u8>>)
    ensures
        chain.spec_to_loader().chain(file) == Ok::<Chain, ChainLoadErrorView>(chain),
        chain.spec_to_loader() !is Path,
        chain is Custom <==> chain.spec_to_loader().text() is None,
        chain.spec_to_loader().text() matches Some(text) ==> ChainLoaderView::from_text(text)
            == chain.spec_to_loader(),
{
    match chain {
        Chain::Custom { genesis_time_secs, slot_time_secs, genesis_fork_version } => {
            let bytes = genesis_fork_version@;
            assert([bytes[0], bytes[1], bytes[2], bytes[3]] =~= genesis_fork_version);
        },
        Chain::Mainnet => {
            lemma_known_name_round_trip(KnownChain::Mainnet);
        },
        Chain::Holesky => {
            lemma_known_name_round_trip(KnownChain::Holesky);
        },
        Chain::Helder => {
            lemma_known_name_round_trip(KnownChain::Helder);
        },
    }
}

/// The name that a known network is written as is read as that network.
pub proof fn lemma_known_name_round_trip(known: KnownChain)
    ensures
        KnownChain::spec_from_name(known.spec_name()) == Some(known),
        ChainLoaderView::from_text(known.spec_name()) == ChainLoaderView::Known(known),
{
    reveal_strlit("Mainnet");
    reveal_strlit("mainnet");
    reveal_strlit("Holesky");
    reveal_strlit("holesky");
    reveal_strlit("Helder");
    reveal_strlit("helder");
    match known {
        KnownChain::Mainnet => {},
        KnownChain::Holesky => {
            assert("Holesky"@[0] != "mainnet"@[0]);
        },
        KnownChain::Helder => {
            assert("Helder"@.len() != "Holesky"@.len());
        },
    }
}

/// Parameters that are given in place are read as a chain exactly when their
/// fork version has four bytes, whatever the file holds.
pub proof fn lemma_custom_fork_version_length(
    genesis_time_secs: u64,
    slot_time_secs: u64,
    genesis_fork_version: Seq<u8>,
    file: Option<Seq<u8>>,
)
    ensures
        (ChainLoaderView::Custom { genesis_time_secs, slot_time_secs, genesis_fork_version }).chain(
            file,
        ) is Ok <==> genesis_fork_version.len() == 4,
        genesis_fork_version.len() != 4 ==> (ChainLoaderView::Custom {
            genesis_time_secs,
            slot_time_secs,
            genesis_fork_version,
        }).chain(file) == Err::<Chain, ChainLoadErrorView>(
            ChainLoadErrorView::ForkVersionLength { length: genesis_fork_version.len() as usize },
        ),
{
}

} // verus!
