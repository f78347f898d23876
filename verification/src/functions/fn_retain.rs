//! `FnRetain`: builds the node that reads or writes a retained point.
use vstd::prelude::*;
use crate::functions::fn_enable::{FnEnable, FnEnableMode};
use crate::functions::fn_retain_read::FnRetainRead;
use crate::functions::fn_retain_write::FnRetainWrite;

verus! {

/// The value of a parameter of a function's configuration.
#[derive(Debug)]
pub enum ConfParam {
    Bool(bool),
    Str(String),
    /// A value of another type.
    Other,
}

/// The node `FnRetain` builds.
#[derive(Debug)]
pub enum RetainNode<I> {
    /// Reads the retained point (there is no `input`).
    Read(FnRetainRead<I>),
    /// Writes the `input` (there is an `input`).
    Write(FnRetainWrite<I>),
    /// Reads the retained point while `enable` is `true`.
    EnabledRead(FnEnable<FnRetainRead<I>, I>),
    /// Writes the `input` while `enable` is `true`.
    EnabledWrite(FnEnable<FnRetainWrite<I>, I>),
}

/// Why `FnRetain` cannot build its node.
#[derive(Debug, PartialEq, Eq, Structural)]
pub enum RetainConfError {
    /// `every-cycle` is not a logical value.
    EveryCycle,
    /// `key` is missing.
    KeyMissing,
    /// `key` is not a string.
    KeyNotString,
}

/// The `every-cycle` flag a configuration gives: `false` when absent.
pub open spec fn every_cycle_of(p: Option<ConfParam>) -> Result<bool, RetainConfError> {
    match p {
        None => Ok(false),
        Some(ConfParam::Bool(b)) => Ok(b),
        Some(_) => Err(RetainConfError::EveryCycle),
    }
}

/// The key a configuration gives.
pub open spec fn key_of(p: Option<ConfParam>) -> Result<Seq<char>, RetainConfError> {
    match p {
        None => Err(RetainConfError::KeyMissing),
        Some(ConfParam::Str(s)) => Ok(s@),
        Some(_) => Err(RetainConfError::KeyNotString),
    }
}

/// The kind of node built: whether it writes and whether it is enabled by an input.
pub open spec fn retain_shape<I>(n: RetainNode<I>) -> (bool, bool) {
    match n {
        RetainNode::Read(_) => (false, false),
        RetainNode::Write(_) => (true, false),
        RetainNode::EnabledRead(_) => (false, true),
        RetainNode::EnabledWrite(_) => (true, true),
    }
}

/// ### Builder | `FnRetain`
///
/// Builds `FnRetainRead` when there is no `input`, `FnRetainWrite` when there is
/// one, wrapped in `FnEnable` when there is an `enable` input.
/// - `key` (required, string): the key of the retained point
/// - `every-cycle` (optional, bool): read the retained point every cycle
#[derive(Debug)]
pub struct FnRetain {}

impl FnRetain {
    /// Builds the node for the inputs and parameters of the configuration;
    /// `seq` numbers the node built.
    pub fn new<I>(
        parent: &str,
        seq: usize,
        txid: usize,
        enable_mode: FnEnableMode,
        enable: Option<I>,
        default: Option<I>,
        input: Option<I>,
        every_cycle: Option<ConfParam>,
        key: Option<ConfParam>,
    ) -> (r: Result<RetainNode<I>, RetainConfError>)
        ensures
            match (every_cycle_of(every_cycle), key_of(key)) {
                (Err(e), _) => r == Err::<RetainNode<I>, RetainConfError>(e),
                (Ok(_), Err(e)) => r == Err::<RetainNode<I>, RetainConfError>(e),
                (Ok(every), Ok(k)) => r matches Ok(n) && retain_shape(n) == (input is Some, enable is Some) && match n {
                    RetainNode::Read(rd) => rd.key_spec() == k && rd.every_cycle_spec() == every && rd.has_default() == default is Some && rd.cache() is None,
                    RetainNode::EnabledRead(en) => en.origin_spec().key_spec() == k && en.origin_spec().every_cycle_spec() == every
                        && en.origin_spec().has_default() == default is Some && en.origin_spec().cache() is None && en.mode_spec() == enable_mode,
                    RetainNode::Write(wr) => wr.key_spec() == k && wr.has_default() == default is Some && wr.cache() is None,
                    RetainNode::EnabledWrite(en) => en.origin_spec().key_spec() == k && en.origin_spec().has_default() == default is Some
                        && en.origin_spec().cache() is None && en.mode_spec() == enable_mode,
                },
            },
    {
        let every = match every_cycle {
            None => false,
            Some(ConfParam::Bool(b)) => b,
            Some(_) => return Err(RetainConfError::EveryCycle),
        };
        let key = match key {
            None => return Err(RetainConfError::KeyMissing),
            Some(ConfParam::Str(s)) => s,
            Some(_) => return Err(RetainConfError::KeyNotString),
        };
        match input {
            None => {
                let read = FnRetainRead::new(parent, seq, txid, key.as_str(), every, default);
                match enable {
                    Some(en) => Ok(RetainNode::EnabledRead(FnEnable::new(read, enable_mode, en))),
                    None => Ok(RetainNode::Read(read)),
                }
            }
            Some(input) => {
                let write = FnRetainWrite::new(parent, seq, key.as_str(), default, input);
                match enable {
                    Some(en) => Ok(RetainNode::EnabledWrite(FnEnable::new(write, enable_mode, en))),
                    None => Ok(RetainNode::Write(write)),
                }
            }
        }
    }
}

} // verus!
