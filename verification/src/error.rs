//! What can go wrong, by stage, with the text that is shown for each failure.

use vstd::prelude::*;
use vstd::string::*;

use crate::text::{decimal, i64_to_decimal, signed_decimal, u64_to_decimal};

verus! {

/// A member of a configuration document.
#[derive(Debug, Clone, Copy, PartialEq, Eq)]
pub enum Field {
    Servers,
    Url,
    Cert,
    Path,
    Initdata,
    NumRetries,
}

impl Field {
    /// The name of this member in a document.
    pub open spec fn spec_name(self) -> Seq<char> {
        match self {
            Field::Servers => "servers"@,
            Field::Url => "url"@,
            Field::Cert => "cert"@,
            Field::Path => "path"@,
            Field::Initdata => "initdata"@,
            Field::NumRetries => "num_retries"@,
        }
    }

    /// The name of this member in a document.
    pub fn name(&self) -> (res: &'static str)
        ensures
            res@ == self.spec_name(),
    {
        match self {
            Field::Servers => "servers",
            Field::Url => "url",
            Field::Cert => "cert",
            Field::Path => "path",
            Field::Initdata => "initdata",
            Field::NumRetries => "num_retries",
        }
    }
}

/// A configuration that cannot be used.  Nothing is resolved after one of these.
#[derive(Debug, Clone, PartialEq, Eq)]
pub enum ConfigError {
    /// The text is no JSON document.
    NotJson,
    /// A member that must be there is not.
    Missing(Field),
    /// A member holds a value of the wrong kind.
    Invalid(Field),
    /// The number of retries is zero or negative.
    RetriesTooSmall(i64),
    /// The number of retries does not fit in 32 bits.
    RetriesTooLarge(u64),
    /// The number of retries is a word other than `infinity`.
    RetriesNotInfinity(String),
    /// The init-data is not the text of a JSON object whose values are all
    /// strings.
    InvalidInitdata,
}

/// The view of a [`ConfigError`]: the same cases over mathematical values.
pub enum ConfigErrorView {
    NotJson,
    Missing(Field),
    Invalid(Field),
    RetriesTooSmall(int),
    RetriesTooLarge(int),
    RetriesNotInfinity(Seq<char>),
    InvalidInitdata,
}

impl View for ConfigError {
    type V = ConfigErrorView;

    open spec fn view(&self) -> ConfigErrorView {
        match *self {
            ConfigError::NotJson => ConfigErrorView::NotJson,
            ConfigError::Missing(field) => ConfigErrorView::Missing(field),
            ConfigError::Invalid(field) => ConfigErrorView::Invalid(field),
            ConfigError::RetriesTooSmall(n) => ConfigErrorView::RetriesTooSmall(n as int),
            ConfigError::RetriesTooLarge(n) => ConfigErrorView::RetriesTooLarge(n as int),
            ConfigError::RetriesNotInfinity(word) => ConfigErrorView::RetriesNotInfinity(word@),
            ConfigError::InvalidInitdata => ConfigErrorView::InvalidInitdata,
        }
    }
}

impl ConfigErrorView {
    /// The text shown for this error.
    pub open spec fn message(self) -> Seq<char> {
        match self {
            ConfigErrorView::NotJson => "Failed to parse config JSON"@,
            ConfigErrorView::Missing(field) => "missing field `"@ + field.spec_name() + "`"@,
            ConfigErrorView::Invalid(field) => "invalid type for field `"@ + field.spec_name()
                + "`"@,
            ConfigErrorView::RetriesTooSmall(n) => "number must be at least 1, got: "@
                + signed_decimal(n),
            ConfigErrorView::RetriesTooLarge(n) => "number too large: "@ + decimal(n as nat),
            ConfigErrorView::RetriesNotInfinity(word) => "expected 'infinity', got: '"@ + word
                + "'"@,
            ConfigErrorView::InvalidInitdata => "Failed to parse config initdata"@,
        }
    }
}

impl ConfigError {
    /// The text shown for this error.
    pub fn message(&self) -> (res: String)
        ensures
            res@ == self@.message(),
    {
        match self {
            ConfigError::NotJson => "Failed to parse config JSON".to_owned(),
            ConfigError::Missing(field) => {
                let mut res = "missing field `".to_owned();
                res.append(field.name());
                res.append("`");
                res
            },
            ConfigError::Invalid(field) => {
                let mut res = "invalid type for field `".to_owned();
                res.append(field.name());
                res.append("`");
                res
            },
            ConfigError::RetriesTooSmall(n) => {
                let mut res = "number must be at least 1, got: ".to_owned();
                let digits = i64_to_decimal(*n);
                res.append(digits.as_str());
                res
            },
            ConfigError::RetriesTooLarge(n) => {
                let mut res = "number too large: ".to_owned();
                let digits = u64_to_decimal(*n);
                res.append(digits.as_str());
                res
            },
            ConfigError::RetriesNotInfinity(word) => {
                let mut res = "expected 'infinity', got: '".to_owned();
                res.append(word.as_str());
                res.append("'");
                res
            },
            ConfigError::InvalidInitdata => "Failed to parse config initdata".to_owned(),
        }
    }
}

/// Why no key could be resolved.
#[derive(Debug, Clone, Copy, PartialEq, Eq)]
pub enum FetchError {
    /// The server list is empty: no server was asked.
    NoServers,
    /// Every server failed in each of this many attempts.
    AllServersFailed(u32),
}

impl FetchError {
    /// The text shown for this error.
    pub open spec fn spec_message(self) -> Seq<char> {
        match self {
            FetchError::NoServers => "No URLs provided"@,
            FetchError::AllServersFailed(attempts) =>
                "Failed to fetch the LUKS key from all URLs after "@ + decimal(attempts as nat)
                + " attempts"@,
        }
    }

    /// The text shown for this error.  After a finite policy is exhausted it
    /// cites the number of attempts made.
    pub fn message(&self) -> (res: String)
        ensures
            res@ == self.spec_message(),
    {
        match self {
            FetchError::NoServers => "No URLs provided".to_owned(),
            FetchError::AllServersFailed(attempts) => {
                let mut res = "Failed to fetch the LUKS key from all URLs after ".to_owned();
                let digits = u64_to_decimal(*attempts as u64);
                res.append(digits.as_str());
                res.append(" attempts");
                res
            },
        }
    }
}

/// Why a resolved key is no key material.  The key was resolved: asking the
/// servers again would not help, and nothing is retried.
#[derive(Debug, Clone, Copy, PartialEq, Eq)]
pub enum PayloadDecodeError {
    /// The resolved text is not standard base64.
    Base64,
    /// The decoded bytes are not UTF-8 text.
    Utf8,
    /// The text is not a JSON document that holds a key type and a key that
    /// is not empty.
    Json,
}

impl PayloadDecodeError {
    /// The text shown for this error.
    pub open spec fn spec_message(self) -> Seq<char> {
        match self {
            PayloadDecodeError::Base64 => "Error decoding key in base64"@,
            PayloadDecodeError::Utf8 => "Error decoding the key in JSON"@,
            PayloadDecodeError::Json => "Error in parsing the fetched key"@,
        }
    }

    /// The text shown for this error.
    pub fn message(&self) -> (res: String)
        ensures
            res@ == self.spec_message(),
    {
        match self {
            PayloadDecodeError::Base64 => "Error decoding key in base64".to_owned(),
            PayloadDecodeError::Utf8 => "Error decoding the key in JSON".to_owned(),
            PayloadDecodeError::Json => "Error in parsing the fetched key".to_owned(),
        }
    }
}

/// Why one server did not resolve the key.  Such a failure is never final by
/// itself: the next server is asked.
#[derive(Debug, Clone, Copy, PartialEq, Eq)]
pub enum ResolutionError {
    /// The key agent ended with a status other than success.
    AgentFailed,
    /// The agent's output is not UTF-8 text.
    InvalidUtf8,
    /// The agent's output holds nothing but white space.
    EmptyKey,
}

impl ResolutionError {
    /// The text shown for this error.
    pub open spec fn spec_message(self) -> Seq<char> {
        match self {
            ResolutionError::AgentFailed => "trustee-attester failed"@,
            ResolutionError::InvalidUtf8 => "Invalid UTF-8 for the LUKS key"@,
            ResolutionError::EmptyKey => "Received empty LUKS key"@,
        }
    }

    /// The text shown for this error.
    pub fn message(&self) -> (res: String)
        ensures
            res@ == self.spec_message(),
    {
        match self {
            ResolutionError::AgentFailed => "trustee-attester failed".to_owned(),
            ResolutionError::InvalidUtf8 => "Invalid UTF-8 for the LUKS key".to_owned(),
            ResolutionError::EmptyKey => "Received empty LUKS key".to_owned(),
        }
    }
}

/// Why an envelope could not be sealed or opened.  None of these is retried.
#[derive(Debug, Clone, Copy, PartialEq, Eq)]
pub enum CryptoError {
    /// The key material is no key to seal with in the direct mode.
    Key,
    /// The key material is no key to open with in the direct mode.
    OpeningKey,
    /// The header could not be built from the metadata.
    Header,
    /// Sealing failed.
    Seal,
    /// The text is no envelope: its header cannot be read.
    Envelope,
    /// The header of the envelope embeds no metadata.
    MissingMetadata,
    /// The metadata that the header embeds does not describe how to resolve
    /// the key.
    MalformedMetadata,
    /// Opening failed: the envelope names an algorithm that is not the
    /// expected one, or it was not sealed with this key, or it was altered.
    Open,
}

impl CryptoError {
    /// The text shown for this error.
    pub open spec fn spec_message(self) -> Seq<char> {
        match self {
            CryptoError::Key => "Error creating direct encrypter"@,
            CryptoError::OpeningKey => "Error creating decrypter"@,
            CryptoError::Header => "Error adding clevis claim"@,
            CryptoError::Seal => "Error serializing JWE token"@,
            CryptoError::Envelope => "Error decoding header"@,
            CryptoError::MissingMetadata => "Error getting clevis claim"@,
            CryptoError::MalformedMetadata => "Error deserializing clevis header"@,
            CryptoError::Open => "Error decrypting JWE"@,
        }
    }

    /// The text shown for this error.
    pub fn message(&self) -> (res: String)
        ensures
            res@ == self.spec_message(),
    {
        match self {
            CryptoError::Key => "Error creating direct encrypter".to_owned(),
            CryptoError::OpeningKey => "Error creating decrypter".to_owned(),
            CryptoError::Header => "Error adding clevis claim".to_owned(),
            CryptoError::Seal => "Error serializing JWE token".to_owned(),
            CryptoError::Envelope => "Error decoding header".to_owned(),
            CryptoError::MissingMetadata => "Error getting clevis claim".to_owned(),
            CryptoError::MalformedMetadata => "Error deserializing clevis header".to_owned(),
            CryptoError::Open => "Error decrypting JWE".to_owned(),
        }
    }
}

} // verus!
