//! What the boundary hands to the engine and what it takes back.
//!
//! The engine itself is the caller's. The boundary prepares the options a
//! cache is created with, and reads every answer of the engine as one of
//! three outcomes.

use std::collections::HashSet;
use vstd::prelude::*;
use vstd::string::*;

use crate::error::{Error, ErrorView};

verus! {

/// The options a cache is created with.
#[derive(Debug)]
pub struct CacheConfig {
    /// The directory under which the cache keeps its files.
    pub base_dir: String,
    /// The features that modules stored in the cache may require.
    pub supported_features: HashSet<String>,
    /// The limit of the in-memory cache, in bytes.
    pub memory_cache_size: usize,
    /// The memory limit of one instance, in bytes.
    pub instance_memory_limit: usize,
}

/// The value of a [`CacheConfig`].
#[verifier::ext_equal]
pub struct ConfigView {
    pub base_dir: Seq<char>,
    pub supported_features: Set<Seq<char>>,
    pub memory_cache_size: nat,
    pub instance_memory_limit: nat,
}

impl View for CacheConfig {
    type V = ConfigView;

    open spec fn view(&self) -> ConfigView {
        ConfigView {
            base_dir: self.base_dir@,
            supported_features: self.supported_features.deep_view(),
            memory_cache_size: self.memory_cache_size as nat,
            instance_memory_limit: self.instance_memory_limit as nat,
        }
    }
}

/// The number of bytes in `n` mebibytes.
pub open spec fn mebi(n: nat) -> nat {
    n * 1024 * 1024
}

/// The set of features that `cosmwasm_vm::capabilities_from_csv` reads from a
/// comma-separated list. Nothing is said here of which set it is.
pub uninterp spec fn features_of(csv: Seq<char>) -> Set<Seq<char>>;

/// Calls `cosmwasm_vm::capabilities_from_csv`, which splits a list at its
/// commas and collects the entries that are not blank.
///
/// Taken on trust: the set it returns is determined by the characters of the
/// list, so that equal lists give equal sets.
#[verifier::external_body]
fn features_from_csv(csv: &str) -> (features: HashSet<String>)
    ensures
        features.deep_view() == features_of(csv@),
{
    cosmwasm_vm::capabilities_from_csv(csv)
}

/// Calls `cosmwasm_vm::Size::mebi` and reads the number of bytes out of the
/// size it returns.
///
/// Taken on trust: that number is `n * 1024 * 1024`. The function multiplies
/// without a check, so the product has to fit the machine's size type.
#[verifier::external_body]
fn size_mebi(n: usize) -> (bytes: usize)
    requires
        mebi(n as nat) <= usize::MAX,
    ensures
        bytes == mebi(n as nat),
{
    cosmwasm_vm::Size::mebi(n).0
}

/// Whether `n` mebibytes, counted in bytes, fit the machine's size type.
pub fn fits_in_mebi(n: u32) -> (fits: bool)
    ensures
        fits == (mebi(n as nat) <= usize::MAX),
{
    n as usize <= usize::MAX / 1048576
}

impl CacheConfig {
    /// The options for a cache under `base_dir` that supports the features
    /// listed in `features_csv`, with both limits given in mebibytes.
    pub fn new(
        base_dir: &str,
        features_csv: &str,
        cache_size: u32,
        instance_memory_limit: u32,
    ) -> (config: CacheConfig)
        requires
            mebi(cache_size as nat) <= usize::MAX,
            mebi(instance_memory_limit as nat) <= usize::MAX,
        ensures
            config@ == (ConfigView {
                base_dir: base_dir@,
                supported_features: features_of(features_csv@),
                memory_cache_size: mebi(cache_size as nat),
                instance_memory_limit: mebi(instance_memory_limit as nat),
            }),
    {
        CacheConfig {
            base_dir: String::from_str(base_dir),
            supported_features: features_from_csv(features_csv),
            memory_cache_size: size_mebi(cache_size as usize),
            instance_memory_limit: size_mebi(instance_memory_limit as usize),
        }
    }
}

/// How a call into the engine ended.
#[derive(Debug)]
pub enum EngineOutcome<V> {
    /// The engine did what was asked and returned `V`.
    Done(V),
    /// The engine refused or failed, and gave `message` as its reason.
    Failed { message: String },
    /// The engine did not return: a fault inside it was contained.
    Fault,
}

/// What an outcome means to the operation that asked: the value, the engine's
/// own error with its message passed on as it is, or the fault that says
/// nothing of its cause.
pub open spec fn settled<V>(outcome: EngineOutcome<V>) -> Result<V, ErrorView> {
    match outcome {
        EngineOutcome::Done(value) => Ok(value),
        EngineOutcome::Failed { message } => Err(ErrorView::VmErr { msg: message@ }),
        EngineOutcome::Fault => Err(ErrorView::Panic),
    }
}

/// Turns the outcome of an engine call into the result of the operation.
pub fn settle<V>(outcome: EngineOutcome<V>) -> (result: Result<V, Error>)
    ensures
        crate::error::result_view(result) == settled(outcome),
{
    match outcome {
        EngineOutcome::Done(value) => Ok(value),
        EngineOutcome::Failed { message } => Err(Error::vm_err(message)),
        EngineOutcome::Fault => Err(Error::panic()),
    }
}

} // verus!
