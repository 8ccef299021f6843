//! Chains that are described in files: by a beacon node as JSON, or in a
//! configuration as YAML.

use vstd::prelude::*;

use crate::document::{
    json_bytes, json_document, json_get, json_member, json_quoted_u64, json_read_bytes,
    json_read_quoted_u64, read_json, read_yaml, yaml_document, yaml_get, yaml_member,
    yaml_read_u32, yaml_read_u64, yaml_u32, yaml_u64,
};
use crate::text::{debug_path, decimal, path_debug, spec_decimal};
use crate::types::Chain;

verus! {

/// Why a chain could not be had from a description of it.
#[derive(Debug, Clone, PartialEq, Eq)]
pub enum ChainLoadError {
    /// The file at the path could not be read.
    FileNotFound { path: String },
    /// The fork version does not have four bytes.
    ForkVersionLength { length: usize },
    /// The earliest genesis time and the delay add up to more than fits.
    GenesisTimeOverflow { min_genesis_time: u64, genesis_delay: u64 },
    /// The file has the form of none of the three descriptions.
    UnknownFormat { path: String },
}

/// A `ChainLoadError` with its texts as sequences.
pub enum ChainLoadErrorView {
    FileNotFound { path: Seq<char> },
    ForkVersionLength { length: usize },
    GenesisTimeOverflow { min_genesis_time: u64, genesis_delay: u64 },
    UnknownFormat { path: Seq<char> },
}

impl View for ChainLoadError {
    type V = ChainLoadErrorView;

    open spec fn view(&self) -> ChainLoadErrorView {
        match *self {
            ChainLoadError::FileNotFound { path } => ChainLoadErrorView::FileNotFound { path: path@ },
            ChainLoadError::ForkVersionLength { length } => ChainLoadErrorView::ForkVersionLength {
                length,
            },
            ChainLoadError::GenesisTimeOverflow {
                min_genesis_time,
                genesis_delay,
            } => ChainLoadErrorView::GenesisTimeOverflow { min_genesis_time, genesis_delay },
            ChainLoadError::UnknownFormat { path } => ChainLoadErrorView::UnknownFormat {
                path: path@,
            },
        }
    }
}

/// The chain that a description gives: its fork version must have four bytes,
/// and its genesis time is the earliest genesis time plus the delay.
pub open spec fn spec_described_chain(
    min_genesis_time: u64,
    genesis_delay: u64,
    seconds_per_slot: u64,
    fork_version: Seq<u8>,
) -> Result<Chain, ChainLoadErrorView> {
    if fork_version.len() != 4 {
        Err(ChainLoadErrorView::ForkVersionLength { length: fork_version.len() as usize })
    } else if min_genesis_time + genesis_delay > u64::MAX {
        Err(ChainLoadErrorView::GenesisTimeOverflow { min_genesis_time, genesis_delay })
    } else {
        Ok(
            Chain::Custom {
                genesis_time_secs: (min_genesis_time + genesis_delay) as u64,
                slot_time_secs: seconds_per_slot,
                genesis_fork_version: [
                    fork_version[0],
                    fork_version[1],
                    fork_version[2],
                    fork_version[3],
                ],
            },
        )
    }
}

/// Whether a result is the expected one, the texts of an error taken as
/// sequences.
pub open spec fn chain_result_is(
    result: Result<Chain, ChainLoadError>,
    expected: Result<Chain, ChainLoadErrorView>,
) -> bool {
    match result {
        Ok(chain) => expected == Ok::<Chain, ChainLoadErrorView>(chain),
        Err(error) => expected == Err::<Chain, ChainLoadErrorView>(error@),
    }
}

/// Builds the chain of a description from its plain values.
pub fn described_chain(
    min_genesis_time: u64,
    genesis_delay: u64,
    seconds_per_slot: u64,
    fork_version: &[u8],
) -> (result: Result<Chain, ChainLoadError>)
    ensures
        chain_result_is(
            result,
            spec_described_chain(min_genesis_time, genesis_delay, seconds_per_slot, fork_version@),
        ),
{
    if fork_version.len() != 4 {
        return Err(ChainLoadError::ForkVersionLength { length: fork_version.len() });
    }
    match min_genesis_time.checked_add(genesis_delay) {
        None => Err(ChainLoadError::GenesisTimeOverflow { min_genesis_time, genesis_delay }),
        Some(genesis_time_secs) => {
            let genesis_fork_version: [u8; 4] = [
                fork_version[0],
                fork_version[1],
                fork_version[2],
                fork_version[3],
            ];
            Ok(
                Chain::Custom {
                    genesis_time_secs,
                    slot_time_secs: seconds_per_slot,
                    genesis_fork_version,
                },
            )
        },
    }
}

/// The four bytes of a number, the most significant first.
pub open spec fn spec_be_bytes(value: u32) -> Seq<u8> {
    seq![
        (value / 0x100_0000) as u8,
        ((value / 0x1_0000) % 0x100) as u8,
        ((value / 0x100) % 0x100) as u8,
        (value % 0x100) as u8,
    ]
}

/// Splits a number into its four bytes, the most significant first.
pub fn be_bytes(value: u32) -> (bytes: [u8; 4])
    ensures
        bytes@ == spec_be_bytes(value),
{
    [
        (value / 0x100_0000) as u8,
        ((value / 0x1_0000) % 0x100) as u8,
        ((value / 0x100) % 0x100) as u8,
        (value % 0x100) as u8,
    ]
}

/// A description of a chain as a beacon node gives it: the fork version as
/// bytes of any length, the numbers read from text.
#[derive(Debug, Clone, PartialEq, Eq)]
pub struct QuotedSpecFile {
    pub min_genesis_time: u64,
    pub genesis_delay: u64,
    pub seconds_per_slot: u64,
    pub genesis_fork_version: Vec<u8>,
}

/// A `QuotedSpecFile` with its fork version as a sequence.
pub struct QuotedSpecFileView {
    pub min_genesis_time: u64,
    pub genesis_delay: u64,
    pub seconds_per_slot: u64,
    pub genesis_fork_version: Seq<u8>,
}

impl View for QuotedSpecFile {
    type V = QuotedSpecFileView;

    open spec fn view(&self) -> QuotedSpecFileView {
        QuotedSpecFileView {
            min_genesis_time: self.min_genesis_time,
            genesis_delay: self.genesis_delay,
            seconds_per_slot: self.seconds_per_slot,
            genesis_fork_version: self.genesis_fork_version@,
        }
    }
}

impl QuotedSpecFileView {
    /// The chain that the description gives.
    pub open spec fn to_chain(self) -> Result<Chain, ChainLoadErrorView> {
        spec_described_chain(
            self.min_genesis_time,
            self.genesis_delay,
            self.seconds_per_slot,
            self.genesis_fork_version,
        )
    }
}

impl QuotedSpecFile {
    /// The chain that the description gives, or why it gives none.
    pub fn to_chain(&self) -> (result: Result<Chain, ChainLoadError>)
        ensures
            chain_result_is(result, self@.to_chain()),
    {
        described_chain(
            self.min_genesis_time,
            self.genesis_delay,
            self.seconds_per_slot,
            self.genesis_fork_version.as_slice(),
        )
    }
}

/// A description of a chain as a configuration file gives it: the fork
/// version as one number.
#[derive(Debug, Clone, Copy, PartialEq, Eq, Structural)]
pub struct SpecFile {
    pub min_genesis_time: u64,
    pub genesis_delay: u64,
    pub seconds_per_slot: u64,
    pub genesis_fork_version: u32,
}

impl SpecFile {
    /// The chain that the description gives.
    pub open spec fn spec_to_chain(self) -> Result<Chain, ChainLoadErrorView> {
        spec_described_chain(
            self.min_genesis_time,
            self.genesis_delay,
            self.seconds_per_slot,
            spec_be_bytes(self.genesis_fork_version),
        )
    }

    /// The chain that the description gives, or why it gives none.
    pub fn to_chain(&self) -> (result: Result<Chain, ChainLoadError>)
        ensures
            chain_result_is(result, self.spec_to_chain()),
    {
        let genesis_fork_version = be_bytes(self.genesis_fork_version);
        described_chain(
            self.min_genesis_time,
            self.genesis_delay,
            self.seconds_per_slot,
            genesis_fork_version.as_slice(),
        )
    }
}

/// The number that a JSON object holds under a key.
pub open spec fn spec_json_number_at(value: serde_json::Value, key: Seq<char>) -> Option<u64> {
    match json_member(value, key) {
        Some(member) => json_quoted_u64(member),
        None => None,
    }
}

/// The bytes that a JSON object holds under a key.
pub open spec fn spec_json_bytes_at(value: serde_json::Value, key: Seq<char>) -> Option<Seq<u8>> {
    match json_member(value, key) {
        Some(member) => json_bytes(member),
        None => None,
    }
}

/// The description that a JSON object holds: all four fields must be there
/// and must read as what they are.
pub open spec fn spec_quoted_fields(value: serde_json::Value) -> Option<QuotedSpecFileView> {
    match (
        spec_json_number_at(value, "MIN_GENESIS_TIME"@),
        spec_json_number_at(value, "GENESIS_DELAY"@),
        spec_json_number_at(value, "SECONDS_PER_SLOT"@),
        spec_json_bytes_at(value, "GENESIS_FORK_VERSION"@),
    ) {
        (
            Some(min_genesis_time),
            Some(genesis_delay),
            Some(seconds_per_slot),
            Some(genesis_fork_version),
        ) => Some(
            QuotedSpecFileView {
                min_genesis_time,
                genesis_delay,
                seconds_per_slot,
                genesis_fork_version,
            },
        ),
        _ => None,
    }
}

/// The description that a JSON document holds under the key `data`.
pub open spec fn spec_wrapped_fields(document: Option<serde_json::Value>) -> Option<
    QuotedSpecFileView,
> {
    match document {
        Some(value) => match json_member(value, "data"@) {
            Some(data) => spec_quoted_fields(data),
            None => None,
        },
        None => None,
    }
}

/// The description that a JSON document holds at its top.
pub open spec fn spec_bare_fields(document: Option<serde_json::Value>) -> Option<
    QuotedSpecFileView,
> {
    match document {
        Some(value) => spec_quoted_fields(value),
        None => None,
    }
}

/// The number that a YAML mapping holds under a key.
pub open spec fn spec_yaml_number_at(value: serde_yaml::Value, key: Seq<char>) -> Option<u64> {
    match yaml_member(value, key) {
        Some(member) => yaml_u64(member),
        None => None,
    }
}

/// The 32-bit number that a YAML mapping holds under a key.
pub open spec fn spec_yaml_word_at(value: serde_yaml::Value, key: Seq<char>) -> Option<u32> {
    match yaml_member(value, key) {
        Some(member) => yaml_u32(member),
        None => None,
    }
}

/// The description that a YAML document holds at its top.
pub open spec fn spec_native_fields(document: Option<serde_yaml::Value>) -> Option<SpecFile> {
    match document {
        Some(value) => match (
            spec_yaml_number_at(value, "MIN_GENESIS_TIME"@),
            spec_yaml_number_at(value, "GENESIS_DELAY"@),
            spec_yaml_number_at(value, "SECONDS_PER_SLOT"@),
            spec_yaml_word_at(value, "GENESIS_FORK_VERSION"@),
        ) {
            (
                Some(min_genesis_time),
                Some(genesis_delay),
                Some(seconds_per_slot),
                Some(genesis_fork_version),
            ) => Some(
                SpecFile { min_genesis_time, genesis_delay, seconds_per_slot, genesis_fork_version },
            ),
            _ => None,
        },
        None => None,
    }
}

/// The chain that three readings of one file give: the first reading that
/// found a description decides, the wrapped JSON form before the bare one and
/// YAML last, and with no description at all the file is of unknown format.
pub open spec fn spec_choose_chain(
    path: Seq<char>,
    wrapped: Option<QuotedSpecFileView>,
    bare: Option<QuotedSpecFileView>,
    native: Option<SpecFile>,
) -> Result<Chain, ChainLoadErrorView> {
    match wrapped {
        Some(fields) => fields.to_chain(),
        None => match bare {
            Some(fields) => fields.to_chain(),
            None => match native {
                Some(fields) => fields.spec_to_chain(),
                None => Err(ChainLoadErrorView::UnknownFormat { path }),
            },
        },
    }
}

/// The chain that the text of a file gives.
pub open spec fn spec_load_chain_from_file(path: Seq<char>, file: Seq<u8>) -> Result<
    Chain,
    ChainLoadErrorView,
> {
    spec_choose_chain(
        path,
        spec_wrapped_fields(json_document(file)),
        spec_bare_fields(json_document(file)),
        spec_native_fields(yaml_document(file)),
    )
}

/// Reads the number under a key of a JSON object.
fn json_number_at(value: &serde_json::Value, key: &str) -> (number: Option<u64>)
    ensures
        number == spec_json_number_at(*value, key@),
{
    match json_get(value, key) {
        Some(member) => json_read_quoted_u64(member),
        None => None,
    }
}

/// Reads the bytes under a key of a JSON object.
fn json_bytes_at(value: &serde_json::Value, key: &str) -> (bytes: Option<Vec<u8>>)
    ensures
        match bytes {
            Some(found) => spec_json_bytes_at(*value, key@) == Some(found@),
            None => spec_json_bytes_at(*value, key@) is None,
        },
{
    match json_get(value, key) {
        Some(member) => json_read_bytes(member),
        None => None,
    }
}

/// Reads the four fields of a description from a JSON object.
fn quoted_fields(value: &serde_json::Value) -> (fields: Option<QuotedSpecFile>)
    ensures
        match fields {
            Some(found) => spec_quoted_fields(*value) == Some(found@),
            None => spec_quoted_fields(*value) is None,
        },
{
    let min_genesis_time = json_number_at(value, "MIN_GENESIS_TIME");
    let genesis_delay = json_number_at(value, "GENESIS_DELAY");
    let seconds_per_slot = json_number_at(value, "SECONDS_PER_SLOT");
    let genesis_fork_version = json_bytes_at(value, "GENESIS_FORK_VERSION");
    match (min_genesis_time, genesis_delay, seconds_per_slot, genesis_fork_version) {
        (
            Some(min_genesis_time),
            Some(genesis_delay),
            Some(seconds_per_slot),
            Some(genesis_fork_version),
        ) => Some(
            QuotedSpecFile { min_genesis_time, genesis_delay, seconds_per_slot, genesis_fork_version },
        ),
        _ => None,
    }
}

/// Reads the description under the key `data` of a JSON document.
fn wrapped_fields(document: &Option<serde_json::Value>) -> (fields: Option<QuotedSpecFile>)
    ensures
        match fields {
            Some(found) => spec_wrapped_fields(*document) == Some(found@),
            None => spec_wrapped_fields(*document) is None,
        },
{
    match document {
        Some(value) => match json_get(value, "data") {
            Some(data) => quoted_fields(data),
            None => None,
        },
        None => None,
    }
}

/// Reads the description at the top of a JSON document.
fn bare_fields(document: &Option<serde_json::Value>) -> (fields: Option<QuotedSpecFile>)
    ensures
        match fields {
            Some(found) => spec_bare_fields(*document) == Some(found@),
            None => spec_bare_fields(*document) is None,
        },
{
    match document {
        Some(value) => quoted_fields(value),
        None => None,
    }
}

/// Reads the number under a key of a YAML mapping.
fn yaml_number_at(value: &serde_yaml::Value, key: &str) -> (number: Option<u64>)
    ensures
        number == spec_yaml_number_at(*value, key@),
{
    match yaml_get(value, key) {
        Some(member) => yaml_read_u64(member),
        None => None,
    }
}

/// Reads the 32-bit number under a key of a YAML mapping.
fn yaml_word_at(value: &serde_yaml::Value, key: &str) -> (number: Option<u32>)
    ensures
        number == spec_yaml_word_at(*value, key@),
{
    match yaml_get(value, key) {
        Some(member) => yaml_read_u32(member),
        None => None,
    }
}

/// Reads the four fields of a description from a YAML document.
fn native_fields(document: &Option<serde_yaml::Value>) -> (fields: Option<SpecFile>)
    ensures
        fields == spec_native_fields(*document),
{
    match document {
        Some(value) => {
            let min_genesis_time = yaml_number_at(value, "MIN_GENESIS_TIME");
            let genesis_delay = yaml_number_at(value, "GENESIS_DELAY");
            let seconds_per_slot = yaml_number_at(value, "SECONDS_PER_SLOT");
            let genesis_fork_version = yaml_word_at(value, "GENESIS_FORK_VERSION");
            match (min_genesis_time, genesis_delay, seconds_per_slot, genesis_fork_version) {
                (
                    Some(min_genesis_time),
                    Some(genesis_delay),
                    Some(seconds_per_slot),
                    Some(genesis_fork_version),
                ) => Some(
                    SpecFile {
                        min_genesis_time,
                        genesis_delay,
                        seconds_per_slot,
                        genesis_fork_version,
                    },
                ),
                _ => None,
            }
        },
        None => None,
    }
}

/// The view of a reading that may have found a description.
pub open spec fn fields_view(fields: Option<QuotedSpecFile>) -> Option<QuotedSpecFileView> {
    match fields {
        Some(found) => Some(found@),
        None => None,
    }
}

/// Decides between three readings of one file: the first that found a
/// description gives the chain, or the reason why it gives none.
pub fn choose_chain(
    path: &str,
    wrapped: Option<QuotedSpecFile>,
    bare: Option<QuotedSpecFile>,
    native: Option<SpecFile>,
) -> (result: Result<Chain, ChainLoadError>)
    ensures
        chain_result_is(
            result,
            spec_choose_chain(path@, fields_view(wrapped), fields_view(bare), native),
        ),
{
    match wrapped {
        Some(fields) => fields.to_chain(),
        None => match bare {
            Some(fields) => fields.to_chain(),
            None => match native {
                Some(fields) => fields.to_chain(),
                None => Err(ChainLoadError::UnknownFormat { path: path.to_owned() }),
            },
        },
    }
}

/// Reads the chain that the text of a file describes. The text is tried as
/// JSON with the description under `data`, then as JSON with the description
/// at the top, then as YAML; a later form is read only where the earlier ones
/// found nothing.
pub fn load_chain_from_file(path: &str, file: &[u8]) -> (result: Result<Chain, ChainLoadError>)
    ensures
        chain_result_is(result, spec_load_chain_from_file(path@, file@)),
{
    let json = read_json(file);
    let wrapped = wrapped_fields(&json);
    let bare = if wrapped.is_none() {
        bare_fields(&json)
    } else {
        None
    };
    let native = if wrapped.is_none() && bare.is_none() {
        native_fields(&read_yaml(file))
    } else {
        None
    };
    choose_chain(path, wrapped, bare, native)
}

impl ChainLoadErrorView {
    /// The message of the error.
    pub open spec fn message(self) -> Seq<char> {
        match self {
            ChainLoadErrorView::FileNotFound { path } => "Unable to find chain spec file: "@
                + debug_path(path),
            ChainLoadErrorView::ForkVersionLength {
                length,
            } => "genesis fork version must have 4 bytes, got "@ + spec_decimal(length as nat),
            ChainLoadErrorView::GenesisTimeOverflow {
                min_genesis_time,
                genesis_delay,
            } => "genesis time does not fit in 64 bits: "@ + spec_decimal(min_genesis_time as nat)
                + " + "@ + spec_decimal(genesis_delay as nat),
            ChainLoadErrorView::UnknownFormat { path } => "unable to decode file: "@ + debug_path(
                path,
            ) + ", accepted formats are: json or yml"@,
        }
    }
}

impl ChainLoadError {
    /// The message of the error.
    pub fn message(&self) -> (text: String)
        ensures
            text@ == self@.message(),
    {
        match self {
            ChainLoadError::FileNotFound { path } => {
                let mut text = "Unable to find chain spec file: ".to_owned();
                text.append(path_debug(path.as_str()).as_str());
                text
            },
            ChainLoadError::ForkVersionLength { length } => {
                let mut text = "genesis fork version must have 4 bytes, got ".to_owned();
                text.append(decimal(*length as u64).as_str());
                text
            },
            ChainLoadError::GenesisTimeOverflow { min_genesis_time, genesis_delay } => {
                let mut text = "genesis time does not fit in 64 bits: ".to_owned();
                text.append(decimal(*min_genesis_time).as_str());
                text.append(" + ");
                text.append(decimal(*genesis_delay).as_str());
                text
            },
            ChainLoadError::UnknownFormat { path } => {
                let mut text = "unable to decode file: ".to_owned();
                text.append(path_debug(path.as_str()).as_str());
                text.append(", accepted formats are: json or yml");
                text
            },
        }
    }
}

/// A description gives a chain exactly when its fork version has four bytes
/// and its two times add up within 64 bits. The chain then has the sum of the
/// two times as its genesis time, never the earlier time alone, and the slot
/// time and the fork version of the description. A fork version of another
/// length is refused with that length.
pub proof fn lemma_described_chain(
    min_genesis_time: u64,
    genesis_delay: u64,
    seconds_per_slot: u64,
    fork_version: Seq<u8>,
)
    ensures
        spec_described_chain(min_genesis_time, genesis_delay, seconds_per_slot, fork_version) is Ok
            <==> fork_version.len() == 4 && min_genesis_time + genesis_delay <= u64::MAX,
        spec_described_chain(
            min_genesis_time,
            genesis_delay,
            seconds_per_slot,
            fork_version,
        ) matches Ok(chain) ==> {
            &&& chain is Custom
            &&& chain.spec_genesis_time_sec() == min_genesis_time + genesis_delay
            &&& chain.spec_slot_time_sec() == seconds_per_slot
            &&& chain.spec_genesis_fork_version() == fork_version
        },
        fork_version.len() != 4 ==> spec_described_chain(
            min_genesis_time,
            genesis_delay,
            seconds_per_slot,
            fork_version,
        ) == Err::<Chain, ChainLoadErrorView>(
            ChainLoadErrorView::ForkVersionLength { length: fork_version.len() as usize },
        ),
{
}

/// The first reading that finds a description decides alone: what a later
/// reading would have found changes nothing, and a description that gives no
/// chain is an error, not a reason to try the next form.
pub proof fn lemma_first_form_decides(
    path: Seq<char>,
    wrapped: Option<QuotedSpecFileView>,
    bare: Option<QuotedSpecFileView>,
    native: Option<SpecFile>,
)
    ensures
        wrapped matches Some(fields) ==> spec_choose_chain(path, wrapped, bare, native)
            == fields.to_chain(),
        wrapped is None ==> (bare matches Some(fields) ==> spec_choose_chain(
            path,
            wrapped,
            bare,
            native,
        ) == fields.to_chain()),
        wrapped is None && bare is None ==> (native matches Some(fields) ==> spec_choose_chain(
            path,
            wrapped,
            bare,
            native,
        ) == fields.spec_to_chain()),
{
}

/// A file in which none of the three readings finds a description is refused
/// with its path, and a file is refused so only then.
pub proof fn lemma_unknown_format(
    path: Seq<char>,
    wrapped: Option<QuotedSpecFileView>,
    bare: Option<QuotedSpecFileView>,
    native: Option<SpecFile>,
)
    ensures
        wrapped is None && bare is None && native is None <==> spec_choose_chain(
            path,
            wrapped,
            bare,
            native,
        ) == Err::<Chain, ChainLoadErrorView>(ChainLoadErrorView::UnknownFormat { path }),
{
}

/// The description that decides what a file gives: the first that one of the
/// three readings finds, the fork version of the YAML form as its four bytes.
pub open spec fn spec_file_description(file: Seq<u8>) -> Option<QuotedSpecFileView> {
    match spec_wrapped_fields(json_document(file)) {
        Some(fields) => Some(fields),
        None => match spec_bare_fields(json_document(file)) {
            Some(fields) => Some(fields),
            None => match spec_native_fields(yaml_document(file)) {
                Some(fields) => Some(
                    QuotedSpecFileView {
                        min_genesis_time: fields.min_genesis_time,
                        genesis_delay: fields.genesis_delay,
                        seconds_per_slot: fields.seconds_per_slot,
                        genesis_fork_version: spec_be_bytes(fields.genesis_fork_version),
                    },
                ),
                None => None,
            },
        },
    }
}

/// A file gives what the first description found in it gives, in whichever
/// of the three forms that is: a chain whose genesis time is the earliest
/// time plus the delay, or the refusal of a fork version that does not have
/// four bytes or of times that do not add up. A file with no description is
/// refused with its path, and only such a file is; it never gives a known
/// network.
pub proof fn lemma_file_description_decides(path: Seq<char>, file: Seq<u8>)
    ensures
        match spec_file_description(file) {
            Some(fields) => {
                &&& spec_load_chain_from_file(path, file) == fields.to_chain()
                &&& spec_load_chain_from_file(path, file) is Ok <==> fields.genesis_fork_version.len()
                    == 4 && fields.min_genesis_time + fields.genesis_delay <= u64::MAX
            },
            None => spec_load_chain_from_file(path, file) == Err::<Chain, ChainLoadErrorView>(
                ChainLoadErrorView::UnknownFormat { path },
            ),
        },
        spec_load_chain_from_file(path, file) matches Ok(chain) ==> {
            &&& chain is Custom
            &&& spec_file_description(file) matches Some(fields)
            &&& chain.spec_genesis_time_sec() == fields.min_genesis_time + fields.genesis_delay
            &&& chain.spec_slot_time_sec() == fields.seconds_per_slot
            &&& chain.spec_genesis_fork_version() == fields.genesis_fork_version
        },
        spec_load_chain_from_file(path, file) == Err::<Chain, ChainLoadErrorView>(
            ChainLoadErrorView::UnknownFormat { path },
        ) <==> spec_file_description(file) is None,
{
    match spec_file_description(file) {
        Some(fields) => {
            lemma_described_chain(
                fields.min_genesis_time,
                fields.genesis_delay,
                fields.seconds_per_slot,
                fields.genesis_fork_version,
            );
        },
        None => {},
    }
}

} // verus!
