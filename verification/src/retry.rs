//! The retry policy: how many times the whole server list may be tried.

use vstd::prelude::*;

use crate::error::{ConfigError, ConfigErrorView};
use crate::text::same_text;

verus! {

/// The number of attempts that applies when a configuration names none.
pub const DEFAULT_TRIES: u32 = 10;

/// How often the whole server list is tried before resolution gives up.
///
/// A policy read from a document is well formed: a finite one allows at
/// least one attempt.  The functions `from_u64`, `from_i64` and `from_text`
/// are the validated ways in; each rejects what is not a policy.
#[derive(Debug, Clone, Copy, PartialEq, Eq)]
pub enum NumRetries {
    /// Give up once this many attempts have failed.
    Finite(u32),
    /// Keep trying until a server answers.
    Infinity,
}

/// The policy that an integer stands for, or why it stands for none.
pub open spec fn retries_of_int(value: int) -> Result<NumRetries, ConfigErrorView> {
    if value <= 0 {
        Err(ConfigErrorView::RetriesTooSmall(value))
    } else if value > u32::MAX {
        Err(ConfigErrorView::RetriesTooLarge(value))
    } else {
        Ok(NumRetries::Finite(value as u32))
    }
}

/// The policy that a word stands for, or why it stands for none.
pub open spec fn retries_of_text(word: Seq<char>) -> Result<NumRetries, ConfigErrorView> {
    if word == "infinity"@ {
        Ok(NumRetries::Infinity)
    } else {
        Err(ConfigErrorView::RetriesNotInfinity(word))
    }
}

/// A validation result with its error taken by its view.
pub open spec fn retries_result_view(res: Result<NumRetries, ConfigError>) -> Result<
    NumRetries,
    ConfigErrorView,
> {
    match res {
        Ok(policy) => Ok(policy),
        Err(error) => Err(error@),
    }
}

impl NumRetries {
    /// A finite policy allows at least one attempt.
    pub open spec fn wf(self) -> bool {
        self matches NumRetries::Finite(n) ==> n >= 1
    }

    /// The policy that applies when a configuration names none.
    pub open spec fn spec_default_policy() -> NumRetries {
        NumRetries::Finite(DEFAULT_TRIES)
    }

    /// The policy that applies when a configuration names none: ten attempts.
    pub fn default_policy() -> (res: NumRetries)
        ensures
            res == NumRetries::Finite(10),
            res == Self::spec_default_policy(),
            res.wf(),
    {
        NumRetries::Finite(DEFAULT_TRIES)
    }

    /// The policy in force: the one named, or else the default.
    pub open spec fn spec_or_default(named: Option<NumRetries>) -> NumRetries {
        match named {
            Some(policy) => policy,
            None => Self::spec_default_policy(),
        }
    }

    /// The policy in force: the one named, or else the default.
    pub fn or_default(named: &Option<NumRetries>) -> (res: NumRetries)
        ensures
            res == Self::spec_or_default(*named),
            *named is None ==> res == NumRetries::Finite(10),
    {
        match named {
            Some(policy) => *policy,
            None => Self::default_policy(),
        }
    }

    /// Validates an unsigned number of retries: zero and what exceeds 32 bits
    /// are rejected.
    pub fn from_u64(value: u64) -> (res: Result<NumRetries, ConfigError>)
        ensures
            retries_result_view(res) == retries_of_int(value as int),
            res matches Ok(policy) ==> policy.wf(),
    {
        if value == 0 {
            Err(ConfigError::RetriesTooSmall(0))
        } else if value > u32::MAX as u64 {
            Err(ConfigError::RetriesTooLarge(value))
        } else {
            Ok(NumRetries::Finite(value as u32))
        }
    }

    /// Validates a signed number of retries: zero, negative numbers and what
    /// exceeds 32 bits are rejected.
    pub fn from_i64(value: i64) -> (res: Result<NumRetries, ConfigError>)
        ensures
            retries_result_view(res) == retries_of_int(value as int),
            res matches Ok(policy) ==> policy.wf(),
    {
        if value <= 0 {
            Err(ConfigError::RetriesTooSmall(value))
        } else if value > u32::MAX as i64 {
            Err(ConfigError::RetriesTooLarge(value as u64))
        } else {
            Ok(NumRetries::Finite(value as u32))
        }
    }

    /// Validates a word: only `infinity` names a policy.
    pub fn from_text(word: &str) -> (res: Result<NumRetries, ConfigError>)
        ensures
            retries_result_view(res) == retries_of_text(word@),
            res matches Ok(policy) ==> policy.wf(),
    {
        if same_text(word, "infinity") {
            Ok(NumRetries::Infinity)
        } else {
            Err(ConfigError::RetriesNotInfinity(word.to_owned()))
        }
    }

    /// The word that an unbounded policy is written as.
    pub fn infinity_word() -> (res: &'static str)
        ensures
            res@ == "infinity"@,
    {
        "infinity"
    }
}

/// A well-formed policy that is written out and validated again is the same
/// policy: a finite one through its number, the unbounded one through its word.
pub proof fn lemma_written_policy_reads_back(policy: NumRetries)
    requires
        policy.wf(),
    ensures
        policy matches NumRetries::Finite(n) ==> retries_of_int(n as int) == Ok::<
            NumRetries,
            ConfigErrorView,
        >(policy),
        policy is Infinity ==> retries_of_text("infinity"@) == Ok::<NumRetries, ConfigErrorView>(
            policy,
        ),
{
}

} // verus!
