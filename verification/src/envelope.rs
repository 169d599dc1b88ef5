//! The envelope codec: what the header of a sealed envelope embeds, and how
//! an envelope is sealed and opened.
//!
//! An envelope is sealed with the resolved key itself (the key management
//! mode `dir`) under AES-256-GCM.  Its header carries, beside the names of
//! the two, the metadata that says how to resolve the key again: the pin,
//! the servers, the path, the init-data document and the retry policy,
//! exactly as the configuration held them.  Opening reads them back with
//! the rules by which a configuration is read.

use vstd::prelude::*;

use crate::config::{
    duplicate_optional_text, duplicate_servers, fields_of, optional_text_view, servers_view,
    spec_fields_of, spec_server_of, spec_servers_of, Config, ConfigView,
    ResolutionRequest, ResolutionRequestView, Server, ServerView,
};
use crate::error::{ConfigErrorView, CryptoError};
use crate::json::{
    as_text, insert_member, json_of, list_value, members_of, new_members, no_members,
    null_value, number_value, object_value, spec_text_at, text_at, text_value, values_view,
    JsonMembers, JsonNumber, JsonView,
};
use crate::key::{Key, KeyView};
use crate::retry::NumRetries;
use crate::text::{same_bytes, same_text};

verus! {

/// The pin that every envelope of this scheme names.
pub fn pin_name() -> (res: &'static str)
    ensures
        res@ == "trustee"@,
{
    "trustee"
}

/// The name under which a header embeds the metadata.
pub fn claim_name() -> (res: &'static str)
    ensures
        res@ == "clevis"@,
{
    "clevis"
}

/// The key management mode: the resolved key is the content encryption key.
pub fn key_management() -> (res: &'static str)
    ensures
        res@ == "dir"@,
{
    "dir"
}

/// The content encryption algorithm: AES-256 in Galois/Counter mode.
pub fn content_encryption() -> (res: &'static str)
    ensures
        res@ == "A256GCM"@,
{
    "A256GCM"
}

/// The metadata that the header of an envelope embeds.
#[derive(Debug)]
pub struct ClevisHeader {
    pub pin: String,
    pub servers: Vec<Server>,
    pub path: String,
    pub initdata: Option<String>,
    pub num_retries: Option<NumRetries>,
}

/// The view of a [`ClevisHeader`].
pub struct ClevisHeaderView {
    pub pin: Seq<char>,
    pub servers: Seq<ServerView>,
    pub path: Seq<char>,
    pub initdata: Option<Seq<char>>,
    pub num_retries: Option<NumRetries>,
}

impl View for ClevisHeader {
    type V = ClevisHeaderView;

    open spec fn view(&self) -> ClevisHeaderView {
        ClevisHeaderView {
            pin: self.pin@,
            servers: servers_view(self.servers@),
            path: self.path@,
            initdata: optional_text_view(self.initdata),
            num_retries: self.num_retries,
        }
    }
}

/// The metadata to embed for a configuration: its servers, path and retry
/// policy as they are, and its init-data document in the form in which
/// resolvers take it.
pub open spec fn spec_embed(config: ConfigView, document: Option<Seq<char>>) -> ClevisHeaderView {
    ClevisHeaderView {
        pin: "trustee"@,
        servers: config.servers,
        path: config.path,
        initdata: document,
        num_retries: config.num_retries,
    }
}

impl ClevisHeaderView {
    /// The retry policy, where one is named, allows an attempt.
    pub open spec fn wf(self) -> bool {
        self.num_retries matches Some(policy) ==> policy.wf()
    }

    /// The retry policy in force: the one named, or else the default of ten
    /// attempts.
    pub open spec fn retry_policy(self) -> NumRetries {
        NumRetries::spec_or_default(self.num_retries)
    }

    /// The request that this metadata makes of resolvers.
    pub open spec fn request(self) -> ResolutionRequestView {
        ResolutionRequestView { servers: self.servers, path: self.path, initdata: self.initdata }
    }
}

impl ClevisHeader {
    /// The metadata to embed for `config`.  `document` is its init-data
    /// document in the form in which resolvers take it.  Nothing is derived
    /// anew: an absent retry policy stays absent.
    pub fn embed(config: &Config, document: &Option<String>) -> (res: ClevisHeader)
        ensures
            res@ == spec_embed(config@, optional_text_view(*document)),
    {
        ClevisHeader {
            pin: pin_name().to_owned(),
            servers: duplicate_servers(&config.servers),
            path: config.path.clone(),
            initdata: duplicate_optional_text(document),
            num_retries: config.num_retries,
        }
    }

    /// The retry policy in force: the one named, or else the default of ten
    /// attempts.
    pub fn retry_policy(&self) -> (res: NumRetries)
        ensures
            res == self@.retry_policy(),
    {
        NumRetries::or_default(&self.num_retries)
    }

    /// The request that this metadata makes of resolvers.
    pub fn request(&self) -> (res: ResolutionRequest)
        ensures
            res@ == self@.request(),
    {
        ResolutionRequest {
            servers: duplicate_servers(&self.servers),
            path: self.path.clone(),
            initdata: duplicate_optional_text(&self.initdata),
        }
    }
}

/// Opening asks what sealing asked.  The metadata embedded for a
/// configuration makes the request that the configuration made, under the
/// retry policy that was in force for it: the default applies at both ends
/// or at neither.
pub proof fn lemma_embedded_request_is_the_same(config: ConfigView, document: Option<Seq<char>>)
    ensures
        spec_embed(config, document).request() == config.request(document),
        spec_embed(config, document).retry_policy() == config.retry_policy(),
{
}

/// A server as a JSON value.
pub open spec fn spec_server_json(server: ServerView) -> JsonView {
    JsonView::Object(
        no_members().insert("url"@, JsonView::Text(server.url)).insert(
            "cert"@,
            JsonView::Text(server.cert),
        ),
    )
}

/// A list of servers as JSON values, in order.
pub open spec fn spec_servers_json(servers: Seq<ServerView>) -> Seq<JsonView> {
    Seq::new(servers.len(), |i: int| spec_server_json(servers[i]))
}

/// A text that may be absent as a JSON value: null where it is absent.
pub open spec fn spec_optional_text_json(text: Option<Seq<char>>) -> JsonView {
    match text {
        Some(text) => JsonView::Text(text),
        None => JsonView::Null,
    }
}

/// A retry policy that may be absent as a JSON value: the number of a
/// finite policy, the word `infinity`, or null.
pub open spec fn spec_retries_json(policy: Option<NumRetries>) -> JsonView {
    match policy {
        Some(NumRetries::Finite(n)) => JsonView::Number(JsonNumber::Unsigned(n as u64)),
        Some(NumRetries::Infinity) => JsonView::Text("infinity"@),
        None => JsonView::Null,
    }
}

/// The metadata as the JSON value that a header embeds.
pub open spec fn spec_claim_of(header: ClevisHeaderView) -> JsonView {
    JsonView::Object(
        no_members().insert("pin"@, JsonView::Text(header.pin)).insert(
            "servers"@,
            JsonView::List(spec_servers_json(header.servers)),
        ).insert("path"@, JsonView::Text(header.path)).insert(
            "initdata"@,
            spec_optional_text_json(header.initdata),
        ).insert("num_retries"@, spec_retries_json(header.num_retries)),
    )
}

/// The metadata that a JSON value embedded in a header holds: a pin, and
/// the members of a configuration.
pub open spec fn spec_header_of(claim: JsonView) -> Result<ClevisHeaderView, CryptoError> {
    match spec_text_at(claim, "pin"@) {
        None => Err(CryptoError::MalformedMetadata),
        Some(pin) => match spec_fields_of(claim) {
            Err(_) => Err(CryptoError::MalformedMetadata),
            Ok(config) => Ok(
                ClevisHeaderView {
                    pin,
                    servers: config.servers,
                    path: config.path,
                    initdata: config.initdata,
                    num_retries: config.num_retries,
                },
            ),
        },
    }
}

fn server_json(server: &Server) -> (res: serde_json::Value)
    ensures
        json_of(res) == spec_server_json(server@),
{
    let mut members = new_members();
    insert_member(&mut members, "url", text_value(server.url.as_str()));
    insert_member(&mut members, "cert", text_value(server.cert.as_str()));
    object_value(members)
}

fn servers_json(servers: &Vec<Server>) -> (res: serde_json::Value)
    ensures
        json_of(res) == JsonView::List(spec_servers_json(servers_view(servers@))),
{
    let mut values: Vec<serde_json::Value> = Vec::new();
    let mut i: usize = 0;
    while i < servers.len()
        invariant
            i <= servers.len(),
            values.len() == i,
            forall|j: int| 0 <= j < i ==> json_of(values@[j]) == spec_server_json(servers@[j]@),
        decreases servers.len() - i,
    {
        values.push(server_json(&servers[i]));
        i = i + 1;
    }
    assert(values_view(values@) =~= spec_servers_json(servers_view(servers@)));
    list_value(values)
}

fn optional_text_json(text: &Option<String>) -> (res: serde_json::Value)
    ensures
        json_of(res) == spec_optional_text_json(optional_text_view(*text)),
{
    match text {
        Some(text) => text_value(text.as_str()),
        None => null_value(),
    }
}

fn retries_json(policy: &Option<NumRetries>) -> (res: serde_json::Value)
    ensures
        json_of(res) == spec_retries_json(*policy),
{
    match policy {
        Some(NumRetries::Finite(n)) => number_value(*n),
        Some(NumRetries::Infinity) => text_value(NumRetries::infinity_word()),
        None => null_value(),
    }
}

/// A reading of metadata by its view.
pub open spec fn header_result_view(res: Result<ClevisHeader, CryptoError>) -> Result<
    ClevisHeaderView,
    CryptoError,
> {
    match res {
        Ok(header) => Ok(header@),
        Err(error) => Err(error),
    }
}

impl ClevisHeader {
    /// The retry policy, where one is named, allows an attempt.
    pub open spec fn wf(&self) -> bool {
        self@.wf()
    }

    /// The JSON value that a header embeds for this metadata: an object
    /// with the members `pin`, `servers`, `path`, `initdata` and
    /// `num_retries`.  What is absent is written as null.
    pub fn to_claim(&self) -> (res: serde_json::Value)
        ensures
            json_of(res) == spec_claim_of(self@),
    {
        let mut members = new_members();
        insert_member(&mut members, "pin", text_value(self.pin.as_str()));
        insert_member(&mut members, "servers", servers_json(&self.servers));
        insert_member(&mut members, "path", text_value(self.path.as_str()));
        insert_member(&mut members, "initdata", optional_text_json(&self.initdata));
        insert_member(&mut members, "num_retries", retries_json(&self.num_retries));
        object_value(members)
    }

    /// Reads the metadata that a header embeds.  `MalformedMetadata` where
    /// the value holds no pin or its members are no configuration.
    pub fn from_claim(claim: &serde_json::Value) -> (res: Result<ClevisHeader, CryptoError>)
        ensures
            header_result_view(res) == spec_header_of(json_of(*claim)),
            res matches Ok(header) ==> header.wf(),
    {
        let pin = match text_at(claim, "pin") {
            Some(pin) => pin,
            None => {
                return Err(CryptoError::MalformedMetadata);
            },
        };
        match fields_of(claim) {
            Ok(config) => Ok(
                ClevisHeader {
                    pin,
                    servers: config.servers,
                    path: config.path,
                    initdata: config.initdata,
                    num_retries: config.num_retries,
                },
            ),
            Err(_) => Err(CryptoError::MalformedMetadata),
        }
    }
}

/// Whether two policies that may be absent are the same.
fn same_policy(left: &Option<NumRetries>, right: &Option<NumRetries>) -> (res: bool)
    ensures
        res == (*left == *right),
{
    match (left, right) {
        (None, None) => true,
        (Some(NumRetries::Infinity), Some(NumRetries::Infinity)) => true,
        (Some(NumRetries::Finite(a)), Some(NumRetries::Finite(b))) => *a == *b,
        _ => false,
    }
}

/// Whether two texts that may be absent are the same.
fn same_optional_text(left: &Option<String>, right: &Option<String>) -> (res: bool)
    ensures
        res == (optional_text_view(*left) == optional_text_view(*right)),
{
    match (left, right) {
        (None, None) => true,
        (Some(a), Some(b)) => same_text(a.as_str(), b.as_str()),
        _ => false,
    }
}

/// Whether two lists hold the same servers in the same order.
fn same_servers(left: &Vec<Server>, right: &Vec<Server>) -> (res: bool)
    ensures
        res == (servers_view(left@) == servers_view(right@)),
{
    if left.len() != right.len() {
        assert(servers_view(left@).len() != servers_view(right@).len());
        return false;
    }
    let mut i: usize = 0;
    while i < left.len()
        invariant
            i <= left.len(),
            left.len() == right.len(),
            forall|j: int| 0 <= j < i ==> left@[j]@ == right@[j]@,
        decreases left.len() - i,
    {
        if !same_text(left[i].url.as_str(), right[i].url.as_str()) || !same_text(
            left[i].cert.as_str(),
            right[i].cert.as_str(),
        ) {
            assert(servers_view(left@)[i as int] != servers_view(right@)[i as int]);
            return false;
        }
        i = i + 1;
    }
    assert(servers_view(left@) =~= servers_view(right@));
    true
}

impl ClevisHeader {
    /// Whether this metadata is the same as `other`: the same pin, the same
    /// servers in the same order, the same path and init-data, and the
    /// same retry policy, absent where it is absent there.
    pub fn same_as(&self, other: &ClevisHeader) -> (res: bool)
        ensures
            res == (self@ == other@),
    {
        same_text(self.pin.as_str(), other.pin.as_str()) && same_servers(
            &self.servers,
            &other.servers,
        ) && same_text(self.path.as_str(), other.path.as_str()) && same_optional_text(
            &self.initdata,
            &other.initdata,
        ) && same_policy(&self.num_retries, &other.num_retries)
    }
}

proof fn lemma_member_names_differ()
    ensures
        "pin"@ != "servers"@,
        "pin"@ != "path"@,
        "pin"@ != "initdata"@,
        "pin"@ != "num_retries"@,
        "servers"@ != "path"@,
        "servers"@ != "initdata"@,
        "servers"@ != "num_retries"@,
        "path"@ != "initdata"@,
        "path"@ != "num_retries"@,
        "initdata"@ != "num_retries"@,
        "url"@ != "cert"@,
        "pin"@.len() == 3,
        "servers"@.len() == 7,
        "path"@.len() == 4,
        "initdata"@.len() == 8,
        "num_retries"@.len() == 11,
{
    reveal_strlit("pin");
    reveal_strlit("servers");
    reveal_strlit("path");
    reveal_strlit("initdata");
    reveal_strlit("num_retries");
    reveal_strlit("url");
    reveal_strlit("cert");
    assert("servers"@.len() == 7);
    assert("path"@.len() == 4);
    assert("initdata"@.len() == 8);
    assert("num_retries"@.len() == 11);
    assert("cert"@.len() == 4);
}

/// A server that is written as a JSON value reads back as itself.
pub proof fn lemma_server_reads_back(server: ServerView)
    ensures
        spec_server_of(spec_server_json(server)) == Ok::<ServerView, ConfigErrorView>(server),
{
    lemma_member_names_differ();
}

/// A list of servers that is written as JSON values reads back as itself,
/// in the same order.
pub proof fn lemma_servers_read_back(servers: Seq<ServerView>)
    ensures
        spec_servers_of(spec_servers_json(servers)) == Ok::<Seq<ServerView>, ConfigErrorView>(
            servers,
        ),
    decreases servers.len(),
{
    let list = spec_servers_json(servers);
    if servers.len() == 0 {
        assert(servers =~= Seq::<ServerView>::empty());
    } else {
        lemma_servers_read_back(servers.drop_last());
        lemma_server_reads_back(servers.last());
        assert(list.drop_last() =~= spec_servers_json(servers.drop_last()));
        assert(servers.drop_last().push(servers.last()) =~= servers);
    }
}

/// What is embedded is what is read back.  Metadata whose retry policy is
/// well formed, written as the JSON value that a header embeds and read
/// from that value again, is the same metadata: the same pin, the same
/// servers in the same order, the same path and init-data, and the same
/// retry policy, absent where it was absent.
pub proof fn lemma_claim_reads_back(header: ClevisHeaderView)
    requires
        header.wf(),
    ensures
        spec_header_of(spec_claim_of(header)) == Ok::<ClevisHeaderView, CryptoError>(header),
{
    lemma_member_names_differ();
    lemma_servers_read_back(header.servers);
}

/// Opening asks what sealing asked, through the header.  For a
/// configuration whose retry policy is well formed, the metadata that
/// sealing embeds, written into the header and read from it again, makes
/// the request that the configuration made, under the retry policy that was
/// in force for it.
pub proof fn lemma_opening_asks_what_sealing_asked(config: ConfigView, document: Option<Seq<char>>)
    requires
        config.num_retries matches Some(policy) ==> policy.wf(),
    ensures
        spec_header_of(spec_claim_of(spec_embed(config, document))) matches Ok(header)
            && header.request() == config.request(document) && header.retry_policy()
            == config.retry_policy(),
{
    lemma_claim_reads_back(spec_embed(config, document));
}

/// The most bytes that the cipher takes at once: of a payload to seal, and
/// of an envelope to open.
pub const MAX_SEALED_BYTES: usize = 0x7fff_ffff;

/// The most bytes of text that metadata may hold to be sealed.  Written
/// out in a header, such metadata stays far within what the cipher takes.
pub const MAX_METADATA_BYTES: usize = 0x100_0000;

/// The number of bytes that hold a text.
pub open spec fn text_bytes(text: Seq<char>) -> nat {
    vstd::utf8::encode_utf8(text).len()
}

/// The number of bytes that hold the texts of a list of servers, and one
/// more for each server.
pub open spec fn servers_bytes(servers: Seq<ServerView>) -> nat
    decreases servers.len(),
{
    if servers.len() == 0 {
        0
    } else {
        servers_bytes(servers.drop_last()) + text_bytes(servers.last().url) + text_bytes(
            servers.last().cert,
        ) + 1
    }
}

impl ClevisHeaderView {
    /// The number of bytes that hold the texts of this metadata, and one
    /// more for each server.
    pub open spec fn bytes(self) -> nat {
        text_bytes(self.pin) + text_bytes(self.path) + (match self.initdata {
            Some(document) => text_bytes(document),
            None => 0,
        }) + servers_bytes(self.servers)
    }

    /// This metadata is small enough to be sealed.
    pub open spec fn is_small(self) -> bool {
        self.bytes() <= MAX_METADATA_BYTES
    }
}

/// The first servers of a list take no more bytes than the whole list.
proof fn lemma_servers_bytes_grow(servers: Seq<ServerView>, upto: int)
    requires
        0 <= upto <= servers.len(),
    ensures
        servers_bytes(servers.take(upto)) <= servers_bytes(servers),
    decreases servers.len() - upto,
{
    if upto == servers.len() {
        assert(servers.take(upto) =~= servers);
    } else {
        assert(servers.take(upto + 1).drop_last() =~= servers.take(upto));
        lemma_servers_bytes_grow(servers, upto + 1);
    }
}

/// The sum of `total` and `more` if it stays within the bound for metadata.
fn within_bound(total: usize, more: usize) -> (res: Option<usize>)
    requires
        total <= MAX_METADATA_BYTES,
    ensures
        match res {
            Some(sum) => sum == total + more && sum <= MAX_METADATA_BYTES,
            None => total + more > MAX_METADATA_BYTES,
        },
{
    if more > MAX_METADATA_BYTES - total {
        None
    } else {
        Some(total + more)
    }
}

impl ClevisHeader {
    /// Whether this metadata is small enough to be sealed: its texts take
    /// no more than `MAX_METADATA_BYTES` bytes, each server counted as one
    /// byte more.
    pub fn is_small(&self) -> (res: bool)
        ensures
            res == self@.is_small(),
    {
        let document: usize = match &self.initdata {
            Some(document) => document.as_str().as_bytes().len(),
            None => 0,
        };
        let mut total: usize = match within_bound(0, self.pin.as_str().as_bytes().len()) {
            Some(total) => total,
            None => {
                return false;
            },
        };
        total = match within_bound(total, self.path.as_str().as_bytes().len()) {
            Some(total) => total,
            None => {
                return false;
            },
        };
        total = match within_bound(total, document) {
            Some(total) => total,
            None => {
                return false;
            },
        };
        let ghost texts = total as nat;
        let ghost servers = servers_view(self.servers@);
        let mut i: usize = 0;
        while i < self.servers.len()
            invariant
                i <= self.servers.len(),
                servers == servers_view(self.servers@),
                texts + servers_bytes(servers) == self@.bytes(),
                total == texts + servers_bytes(servers.take(i as int)),
                total <= MAX_METADATA_BYTES,
            decreases self.servers.len() - i,
        {
            proof {
                assert(servers.take(i + 1).drop_last() =~= servers.take(i as int));
                lemma_servers_bytes_grow(servers, i + 1);
            }
            total = match within_bound(total, self.servers[i].url.as_str().as_bytes().len()) {
                Some(total) => total,
                None => {
                    return false;
                },
            };
            total = match within_bound(total, self.servers[i].cert.as_str().as_bytes().len()) {
                Some(total) => total,
                None => {
                    return false;
                },
            };
            total = match within_bound(total, 1) {
                Some(total) => total,
                None => {
                    return false;
                },
            };
            i = i + 1;
        }
        assert(servers.take(self.servers.len() as int) =~= servers);
        true
    }
}

/// A key description of josekit.  It is carried, never looked into.
#[verifier::external_type_specification]
#[verifier::external_body]
pub struct ExJwk(josekit::jwk::Jwk);

/// A header of josekit.  It is carried, never looked into.
#[verifier::external_type_specification]
#[verifier::external_body]
pub struct ExJweHeader(josekit::jwe::JweHeader);

/// The encrypter of josekit's direct mode.  It is carried, never looked
/// into.
#[verifier::external_type_specification]
#[verifier::external_body]
pub struct ExDirectJweEncrypter(josekit::jwe::alg::direct::DirectJweEncrypter);

/// The decrypter of josekit's direct mode.  It is carried, never looked
/// into.
#[verifier::external_type_specification]
#[verifier::external_body]
pub struct ExDirectJweDecrypter(josekit::jwe::alg::direct::DirectJweDecrypter);

/// The error of josekit.  It is carried, never looked into.
#[verifier::external_type_specification]
#[verifier::external_body]
pub struct ExJoseError(josekit::JoseError);

/// The parameters that a key description holds, by name.
pub uninterp spec fn jwk_parameters(jwk: josekit::jwk::Jwk) -> Map<Seq<char>, JsonView>;

/// The text that a key description holds for the key whose bytes are those
/// of `value`.
pub uninterp spec fn key_value_parameter(value: Seq<char>) -> Seq<char>;

/// The claims that a header holds, by name.
pub uninterp spec fn header_claims(header: josekit::jwe::JweHeader) -> Map<Seq<char>, JsonView>;

/// Texts as a list of JSON strings, in order.
pub open spec fn spec_texts_json(texts: Seq<&str>) -> Seq<JsonView> {
    Seq::new(texts.len(), |i: int| JsonView::Text(texts[i]@))
}

/// `Jwk::new` of josekit: a key description that holds the key type as
/// `kty` and nothing else.
#[verifier::external_body]
fn new_jwk(key_type: &str) -> (res: josekit::jwk::Jwk)
    ensures
        jwk_parameters(res) == no_members().insert("kty"@, JsonView::Text(key_type@)),
{
    josekit::jwk::Jwk::new(key_type)
}

/// `Jwk::set_key_value` of josekit: the bytes of `value` become the key.
/// They are held as `k`, in a text that depends on them alone and is named,
/// not defined: `key_value_parameter`.
#[verifier::external_body]
fn set_key_value(jwk: &mut josekit::jwk::Jwk, value: &str)
    ensures
        jwk_parameters(*final(jwk)) == jwk_parameters(*old(jwk)).insert(
            "k"@,
            JsonView::Text(key_value_parameter(value@)),
        ),
{
    jwk.set_key_value(value)
}

/// `Jwk::set_key_operations` of josekit: the key is for these operations.
/// They are held as `key_ops`, a list of strings.
#[verifier::external_body]
fn set_key_operations(jwk: &mut josekit::jwk::Jwk, operations: Vec<&str>)
    ensures
        jwk_parameters(*final(jwk)) == jwk_parameters(*old(jwk)).insert(
            "key_ops"@,
            JsonView::List(spec_texts_json(operations@)),
        ),
{
    jwk.set_key_operations(operations)
}

/// Whether a key description with these parameters is a key to seal with
/// in the direct mode.
pub uninterp spec fn direct_encrypter_accepts(parameters: Map<Seq<char>, JsonView>) -> bool;

/// What a decrypter of the direct mode holds: the bytes of the content
/// encryption key, and the identifier of the key if it has one.
pub struct DirectKey {
    pub key: Seq<u8>,
    pub key_id: Option<Seq<char>>,
}

/// What `decrypter` holds.
pub uninterp spec fn decrypter_key(
    decrypter: josekit::jwe::alg::direct::DirectJweDecrypter,
) -> DirectKey;

/// What the decrypter holds that is made of a key description with these
/// parameters, or `None` where the description is no key to open with in
/// the direct mode.
pub uninterp spec fn direct_decryption_key(parameters: Map<Seq<char>, JsonView>) -> Option<
    DirectKey,
>;

/// Whether these claims make a header.
pub uninterp spec fn accepted_claims(claims: Map<Seq<char>, JsonView>) -> bool;

/// The payload of the envelope `token` as it opens with `key`, or `None`
/// where it does not open with it.
pub uninterp spec fn opened(token: Seq<char>, key: DirectKey) -> Option<Seq<u8>>;

/// The parameter of that name is a text, or there is none of that name.
pub open spec fn text_or_absent(parameters: Map<Seq<char>, JsonView>, name: Seq<char>) -> bool {
    parameters.dom().contains(name) ==> parameters[name] is Text
}

/// The parameters are those of a key description that josekit can read:
/// the key type is there and is a text, and the use, the algorithm and the
/// identifier of the key are texts where they are there.
pub open spec fn describes_a_key(parameters: Map<Seq<char>, JsonView>) -> bool {
    &&& parameters.dom().contains("kty"@)
    &&& parameters["kty"@] is Text
    &&& text_or_absent(parameters, "use"@)
    &&& text_or_absent(parameters, "alg"@)
    &&& text_or_absent(parameters, "kid"@)
}

/// `encrypter_from_jwk` of josekit's `Dir`: the encrypter that uses the key
/// as the content encryption key.  It reads the key type, the use, the
/// algorithm and the identifier of the description and does not return
/// where one of them is no text, so such a description is not handed to
/// it.  Whether it takes a description depends on its parameters alone and
/// is named, not defined: `direct_encrypter_accepts`.
#[verifier::external_body]
fn direct_encrypter(jwk: &josekit::jwk::Jwk) -> (res: Result<
    josekit::jwe::alg::direct::DirectJweEncrypter,
    josekit::JoseError,
>)
    requires
        describes_a_key(jwk_parameters(*jwk)),
    ensures
        res is Ok <==> direct_encrypter_accepts(jwk_parameters(*jwk)),
{
    josekit::jwe::Dir.encrypter_from_jwk(jwk)
}

/// `decrypter_from_jwk` of josekit's `Dir`: the decrypter that uses the key
/// as the content encryption key.  It reads the key type, the use, the
/// algorithm and the identifier of the description and does not return
/// where one of them is no text, so such a description is not handed to
/// it.  What the decrypter holds, or that the description is refused,
/// depends on the parameters of the description alone and is named, not
/// defined: `direct_decryption_key`.
#[verifier::external_body]
fn direct_decrypter(jwk: &josekit::jwk::Jwk) -> (res: Result<
    josekit::jwe::alg::direct::DirectJweDecrypter,
    josekit::JoseError,
>)
    requires
        describes_a_key(jwk_parameters(*jwk)),
    ensures
        res matches Ok(decrypter) ==> direct_decryption_key(jwk_parameters(*jwk)) == Some(
            decrypter_key(decrypter),
        ),
        res is Err ==> direct_decryption_key(jwk_parameters(*jwk)) is None,
{
    josekit::jwe::Dir.decrypter_from_jwk(jwk)
}

/// `JweHeader::from_map` of josekit: the header with these claims.  It
/// fails where a claim of a registered name holds a value of the wrong
/// kind; whether it does depends on the claims alone and is named, not
/// defined: `accepted_claims`.
#[verifier::external_body]
fn jwe_header(claims: JsonMembers) -> (res: Result<josekit::jwe::JweHeader, josekit::JoseError>)
    ensures
        res matches Ok(header) ==> header_claims(header) == members_of(claims),
        res is Ok <==> accepted_claims(members_of(claims)),
{
    josekit::jwe::JweHeader::from_map(claims)
}

/// The claims are those of the header that is sealed for metadata small
/// enough to be sealed.
pub open spec fn small_header(claims: Map<Seq<char>, JsonView>) -> bool {
    exists|header: ClevisHeaderView| #[trigger]
        spec_protected_claims(spec_claim_of(header)) == claims && header.is_small()
}

/// `serialize_compact` of josekit: the compact form of the envelope that
/// holds `payload` under `header`.  The cipher is handed the payload and
/// the header as it is written out, and it does not return where one of
/// them is longer than `MAX_SEALED_BYTES`.  So only such a payload is
/// handed to it, and only a header of this scheme whose metadata is small:
/// written out it takes a few times the bytes of its texts, and a few
/// dozen for each server.  The initialization vector is drawn at random,
/// so nothing is said of the text: what it holds is read from it again.
#[verifier::external_body]
fn serialize_compact(
    payload: &[u8],
    header: &josekit::jwe::JweHeader,
    encrypter: &josekit::jwe::alg::direct::DirectJweEncrypter,
) -> Result<String, josekit::JoseError>
    requires
        payload@.len() <= MAX_SEALED_BYTES,
        small_header(header_claims(*header)),
{
    josekit::jwe::serialize_compact(payload, header, encrypter)
}

/// The number of dots among the first `upto` bytes.
pub open spec fn dots_before(bytes: Seq<u8>, upto: int) -> nat
    decreases upto,
{
    if upto <= 0 {
        0
    } else {
        dots_before(bytes, upto - 1) + if bytes[upto - 1] == 46u8 {
            1nat
        } else {
            0nat
        }
    }
}

/// The byte at `at` belongs to the third part of the text: it is no dot and
/// stands after exactly two dots.
pub open spec fn in_third_part(bytes: Seq<u8>, at: int) -> bool {
    0 <= at < bytes.len() && bytes[at] != 46u8 && dots_before(bytes, at) == 2
}

/// How many of the first `upto` bytes belong to the third part of the text.
pub open spec fn third_part_before(bytes: Seq<u8>, upto: int) -> nat
    decreases upto,
{
    if upto <= 0 {
        0
    } else {
        third_part_before(bytes, upto - 1) + if in_third_part(bytes, upto - 1) {
            1nat
        } else {
            0nat
        }
    }
}

/// The text has the shape of an envelope sealed under AES-256-GCM: it is
/// no longer than the cipher takes, four dots part it in five, and the
/// third part, which holds the initialization vector, is sixteen bytes
/// long, which is what the twelve bytes of such a vector take when they
/// are written out.
pub open spec fn has_vector(token: Seq<char>) -> bool {
    let bytes = vstd::utf8::encode_utf8(token);
    &&& bytes.len() <= MAX_SEALED_BYTES
    &&& dots_before(bytes, bytes.len() as int) == 4
    &&& third_part_before(bytes, bytes.len() as int) == 16
}

/// Whether a text has the shape of an envelope sealed under AES-256-GCM:
/// no longer than the cipher takes, five parts, the third of them sixteen
/// bytes long.
pub fn is_envelope_shaped(token: &str) -> (res: bool)
    ensures
        res == has_vector(token@),
{
    let bytes = token.as_bytes();
    if bytes.len() > MAX_SEALED_BYTES {
        return false;
    }
    let mut dots: usize = 0;
    let mut vector: usize = 0;
    let mut i: usize = 0;
    while i < bytes.len()
        invariant
            i <= bytes.len(),
            dots == dots_before(bytes@, i as int),
            vector == third_part_before(bytes@, i as int),
            dots <= i,
            vector <= i,
        decreases bytes.len() - i,
    {
        let byte: u8 = bytes[i];
        if byte == 46u8 {
            dots = dots + 1;
        } else if dots == 2 {
            vector = vector + 1;
        }
        i = i + 1;
    }
    dots == 4 && vector == 16
}

/// The envelope `token` can be handed to josekit to be opened: it has the
/// shape of an envelope sealed under AES-256-GCM, and its header names that
/// algorithm.
pub open spec fn can_be_opened(token: Seq<char>) -> bool {
    has_vector(token) && names(token, "enc"@, "A256GCM"@)
}

/// `deserialize_compact` of josekit: the payload of the envelope, if it
/// opens under the decrypter's key.  It takes the cipher that the header
/// of the envelope names and hands it the third part of the text as the
/// initialization vector, and the cipher does not return on every vector,
/// nor on more than `MAX_SEALED_BYTES` bytes.  So only a text within that
/// length is handed to it whose header names `A256GCM` and whose third
/// part has the length of a vector of that cipher.  What it returns,
/// or that it fails, depends on the text and on what the decrypter holds,
/// and is named, not defined: `opened`.
#[verifier::external_body]
fn deserialize_compact(
    token: &str,
    decrypter: &josekit::jwe::alg::direct::DirectJweDecrypter,
) -> (res: Result<Vec<u8>, josekit::JoseError>)
    requires
        can_be_opened(token@),
    ensures
        res matches Ok(payload) ==> opened(token@, decrypter_key(*decrypter)) == Some(payload@),
        res is Err ==> opened(token@, decrypter_key(*decrypter)) is None,
{
    josekit::jwe::deserialize_compact(token, decrypter).map(|opened| opened.0)
}

/// The claims that the header of the envelope `token` holds, by name, or
/// `None` where `token` is no envelope whose header can be read.
pub uninterp spec fn envelope_header(token: Seq<char>) -> Option<Map<Seq<char>, JsonView>>;

/// The claim of that name among `claims`, if there is one.
pub open spec fn claim_at(claims: Map<Seq<char>, JsonView>, name: Seq<char>) -> Option<JsonView> {
    if claims.dom().contains(name) {
        Some(claims[name])
    } else {
        None
    }
}

/// The claim `name` in the header of the envelope `token`: `None` where
/// `token` is no envelope whose header can be read, `Some(None)` where the
/// header holds no such claim.
pub open spec fn envelope_claim(token: Seq<char>, name: Seq<char>) -> Option<Option<JsonView>> {
    match envelope_header(token) {
        Some(claims) => Some(claim_at(claims, name)),
        None => None,
    }
}

/// What a claim that was found holds.
pub open spec fn claim_view(found: Option<serde_json::Value>) -> Option<JsonView> {
    match found {
        Some(value) => Some(json_of(value)),
        None => None,
    }
}

/// `decode_header` of josekit's `jwt`, then `claim` on the header it
/// returns.  The first decodes the header of a compact form without
/// opening it; what claims it reads, or that it fails, depends on the text
/// alone and is named, not defined: `envelope_header`.  The second looks a
/// claim up among them by its name.
#[verifier::external_body]
fn header_claim(token: &str, name: &str) -> (res: Result<
    Option<serde_json::Value>,
    josekit::JoseError,
>)
    ensures
        res matches Ok(found) ==> envelope_claim(token@, name@) == Some(claim_view(found)),
        res is Err ==> envelope_header(token@) is None,
{
    Ok(josekit::jwt::decode_header(token)?.claim(name).cloned())
}

/// The operations that the key is used for.
pub fn key_operations() -> (res: Vec<&'static str>)
    ensures
        res@.len() == 2,
        res@[0]@ == "encrypt"@,
        res@[1]@ == "decrypt"@,
{
    let mut res: Vec<&'static str> = Vec::new();
    res.push("encrypt");
    res.push("decrypt");
    res
}

/// The parameters of the key description for key material: the key type
/// as it is, the bytes of the key value as the key, and the two operations
/// that the key is for.
pub open spec fn spec_key_parameters(key: KeyView) -> Map<Seq<char>, JsonView> {
    no_members().insert("kty"@, JsonView::Text(key.key_type)).insert(
        "k"@,
        JsonView::Text(key_value_parameter(key.key)),
    ).insert(
        "key_ops"@,
        JsonView::List(seq![JsonView::Text("encrypt"@), JsonView::Text("decrypt"@)]),
    )
}

/// The key description of any key material is one that josekit can read.
pub proof fn lemma_key_parameters_describe_a_key(key: KeyView)
    ensures
        describes_a_key(spec_key_parameters(key)),
{
    reveal_strlit("kty");
    reveal_strlit("k");
    reveal_strlit("key_ops");
    reveal_strlit("use");
    reveal_strlit("alg");
    reveal_strlit("kid");
    assert("kty"@[0] == 'k' && "kty"@[1] == 't' && "use"@[0] == 'u' && "alg"@[0] == 'a'
        && "kid"@[1] == 'i');
}

/// Describes key material as a key for sealing and opening: the resolved
/// key is the content encryption key itself.
pub fn key_description(key: &Key) -> (res: josekit::jwk::Jwk)
    ensures
        jwk_parameters(res) == spec_key_parameters(key@),
        describes_a_key(jwk_parameters(res)),
{
    let mut jwk = new_jwk(key.key_type.as_str());
    set_key_value(&mut jwk, key.key.as_str());
    let operations = key_operations();
    assert(spec_texts_json(operations@) =~= seq![
        JsonView::Text("encrypt"@),
        JsonView::Text("decrypt"@),
    ]);
    set_key_operations(&mut jwk, operations);
    proof {
        lemma_key_parameters_describe_a_key(key@);
    }
    jwk
}

/// The claims of the header that is sealed with an envelope: the key
/// management mode, the content encryption algorithm, and the metadata.
pub open spec fn spec_protected_claims(claim: JsonView) -> Map<Seq<char>, JsonView> {
    no_members().insert("alg"@, JsonView::Text("dir"@)).insert(
        "enc"@,
        JsonView::Text("A256GCM"@),
    ).insert("clevis"@, claim)
}

/// Builds the header that an envelope is sealed with: it names the key
/// management mode `dir` and the content encryption algorithm `A256GCM`,
/// and holds the metadata under the claim `clevis`.  `Header` where
/// josekit refuses these claims.
pub fn protected_header(header: &ClevisHeader) -> (res: Result<
    josekit::jwe::JweHeader,
    CryptoError,
>)
    ensures
        match res {
            Ok(protected) => accepted_claims(spec_protected_claims(spec_claim_of(header@)))
                && header_claims(protected) == spec_protected_claims(spec_claim_of(header@)),
            Err(error) => !accepted_claims(spec_protected_claims(spec_claim_of(header@)))
                && error == CryptoError::Header,
        },
{
    let mut claims = new_members();
    insert_member(&mut claims, "alg", text_value(key_management()));
    insert_member(&mut claims, "enc", text_value(content_encryption()));
    insert_member(&mut claims, claim_name(), header.to_claim());
    match jwe_header(claims) {
        Ok(protected) => Ok(protected),
        Err(_) => Err(CryptoError::Header),
    }
}

/// The metadata that the envelope `token` embeds.
pub open spec fn spec_embedded_header(token: Seq<char>) -> Result<ClevisHeaderView, CryptoError> {
    match envelope_claim(token, "clevis"@) {
        None => Err(CryptoError::Envelope),
        Some(None) => Err(CryptoError::MissingMetadata),
        Some(Some(claim)) => spec_header_of(claim),
    }
}

/// Reads the metadata that an envelope embeds, without opening it.
/// `Envelope` where the header cannot be read, `MissingMetadata` where it
/// holds no claim `clevis`, `MalformedMetadata` where that claim does not
/// describe how to resolve the key.
pub fn embedded_header(token: &str) -> (res: Result<ClevisHeader, CryptoError>)
    ensures
        header_result_view(res) == spec_embedded_header(token@),
        res matches Ok(header) ==> header.wf(),
{
    match header_claim(token, claim_name()) {
        Err(_) => Err(CryptoError::Envelope),
        Ok(None) => Err(CryptoError::MissingMetadata),
        Ok(Some(claim)) => ClevisHeader::from_claim(&claim),
    }
}

/// What opening the envelope `token` with `key` gives: `OpeningKey` where
/// josekit takes the key material for no key to open with; else `Open`
/// where the text has not the shape of an envelope sealed under
/// AES-256-GCM or its header does not name that algorithm; else the payload
/// as it opens under that key, or `Open` where it does not.
pub open spec fn spec_open(token: Seq<char>, key: KeyView) -> Result<Seq<u8>, CryptoError> {
    match direct_decryption_key(spec_key_parameters(key)) {
        None => Err(CryptoError::OpeningKey),
        Some(direct) => if !can_be_opened(token) {
            Err(CryptoError::Open)
        } else {
            match opened(token, direct) {
                Some(payload) => Ok(payload),
                None => Err(CryptoError::Open),
            }
        },
    }
}

/// An opened payload by its view.
pub open spec fn payload_result_view(res: Result<Vec<u8>, CryptoError>) -> Result<
    Seq<u8>,
    CryptoError,
> {
    match res {
        Ok(payload) => Ok(payload@),
        Err(error) => Err(error),
    }
}

/// Opens the envelope `token` with `key` and returns its payload.
///
/// The key is the one that [`key_description`] describes.  Only an
/// envelope of this scheme is opened: a text that has not five parts, or
/// whose part for the initialization vector has not the length of such a
/// vector, or whose header names another content encryption algorithm than
/// `A256GCM`, is refused here.  The decryption is josekit's: `OpeningKey`
/// where it takes the key material for no key, `Open` where the envelope
/// does not open: it names another key management mode, was sealed with
/// another key, or was altered.
pub fn open(token: &str, key: &Key) -> (res: Result<Vec<u8>, CryptoError>)
    ensures
        payload_result_view(res) == spec_open(token@, key@),
{
    let jwk = key_description(key);
    let decrypter = match direct_decrypter(&jwk) {
        Ok(decrypter) => decrypter,
        Err(_) => {
            return Err(CryptoError::OpeningKey);
        },
    };
    if !is_envelope_shaped(token) || !header_names(token, "enc", content_encryption()) {
        return Err(CryptoError::Open);
    }
    match deserialize_compact(token, &decrypter) {
        Ok(payload) => Ok(payload),
        Err(_) => Err(CryptoError::Open),
    }
}

/// The header of the envelope `token` holds the text `expected` under
/// `name`.
pub open spec fn names(token: Seq<char>, name: Seq<char>, expected: Seq<char>) -> bool {
    envelope_claim(token, name) == Some(Some(JsonView::Text(expected)))
}

/// Whether the header of the envelope `token` holds the text `expected`
/// under `name`.
pub fn header_names(token: &str, name: &str, expected: &str) -> (res: bool)
    ensures
        res == names(token@, name@, expected@),
{
    match header_claim(token, name) {
        Ok(Some(found)) => match as_text(&found) {
            Some(text) => same_text(text, expected),
            None => false,
        },
        _ => false,
    }
}

/// The envelope `token` is `plaintext` sealed with `key` for `header`: its
/// header names the key management mode `dir` and the content encryption
/// algorithm `A256GCM`, the metadata that it embeds is `header`, and it
/// opens with `key` to `plaintext`.
pub open spec fn sealed_as(
    token: Seq<char>,
    plaintext: Seq<u8>,
    key: KeyView,
    header: ClevisHeaderView,
) -> bool {
    &&& names(token, "alg"@, "dir"@)
    &&& names(token, "enc"@, "A256GCM"@)
    &&& spec_embedded_header(token) == Ok::<ClevisHeaderView, CryptoError>(header)
    &&& spec_open(token, key) == Ok::<Seq<u8>, CryptoError>(plaintext)
}

/// Whether the envelope `token` is `plaintext` sealed with `key` for
/// `header`.  The header is read and the envelope is opened to tell.
pub fn is_sealed(token: &str, plaintext: &[u8], key: &Key, header: &ClevisHeader) -> (res: bool)
    ensures
        res == sealed_as(token@, plaintext@, key@, header@),
{
    if !header_names(token, "alg", key_management()) {
        return false;
    }
    if !header_names(token, "enc", content_encryption()) {
        return false;
    }
    let embedded = match embedded_header(token) {
        Ok(embedded) => embedded,
        Err(_) => {
            return false;
        },
    };
    if !embedded.same_as(header) {
        return false;
    }
    match open(token, key) {
        Ok(payload) => same_bytes(payload.as_slice(), plaintext),
        Err(_) => false,
    }
}

/// Why sealing fails where it does: the key material is no key for the
/// direct mode, or else josekit refuses the header, or else the encryption
/// itself fails or what it returns is not the envelope that was asked for.
pub open spec fn spec_seal_error(key: KeyView, header: ClevisHeaderView) -> CryptoError {
    if !direct_encrypter_accepts(spec_key_parameters(key)) {
        CryptoError::Key
    } else if !accepted_claims(spec_protected_claims(spec_claim_of(header))) {
        CryptoError::Header
    } else {
        CryptoError::Seal
    }
}

/// Seals `plaintext` with `key` into the compact form of an envelope whose
/// header embeds `header`.
///
/// The key is the one that [`key_description`] describes and the header the
/// one that [`protected_header`] builds; the header is covered by the
/// authentication tag.  The encryption itself is josekit's, which draws
/// the initialization vector at random.  What it returns is read and
/// opened again before it is handed out, so an envelope that is returned
/// embeds `header` and opens with `key` to `plaintext`.  The error is `Key`
/// where josekit takes the key material for no key, else `Header` where it
/// refuses the header, else `Seal`; that is also the error for a payload of
/// more than `MAX_SEALED_BYTES` bytes and for metadata that is not small.
pub fn seal(plaintext: &[u8], key: &Key, header: &ClevisHeader) -> (res: Result<
    String,
    CryptoError,
>)
    ensures
        match res {
            Ok(token) => direct_encrypter_accepts(spec_key_parameters(key@)) && accepted_claims(
                spec_protected_claims(spec_claim_of(header@)),
            ) && sealed_as(token@, plaintext@, key@, header@),
            Err(error) => error == spec_seal_error(key@, header@),
        },
{
    let jwk = key_description(key);
    let encrypter = match direct_encrypter(&jwk) {
        Ok(encrypter) => encrypter,
        Err(_) => {
            return Err(CryptoError::Key);
        },
    };
    let protected = match protected_header(header) {
        Ok(protected) => protected,
        Err(error) => {
            return Err(error);
        },
    };
    if plaintext.len() > MAX_SEALED_BYTES || !header.is_small() {
        return Err(CryptoError::Seal);
    }
    match serialize_compact(plaintext, &protected, &encrypter) {
        Ok(token) => {
            if is_sealed(token.as_str(), plaintext, key, header) {
                Ok(token)
            } else {
                Err(CryptoError::Seal)
            }
        },
        Err(_) => Err(CryptoError::Seal),
    }
}

/// What is sealed opens.  An envelope that holds `plaintext` sealed with
/// `key` for the metadata of a configuration embeds metadata that makes the
/// request that the configuration made, under the retry policy that was in
/// force for it; and where that request resolves to the same key, the
/// envelope opens to `plaintext`, byte for byte.
pub proof fn lemma_sealed_envelope_opens(
    token: Seq<char>,
    plaintext: Seq<u8>,
    key: KeyView,
    config: ConfigView,
    document: Option<Seq<char>>,
)
    requires
        sealed_as(token, plaintext, key, spec_embed(config, document)),
    ensures
        spec_embedded_header(token) matches Ok(header) && header.request() == config.request(
            document,
        ) && header.retry_policy() == config.retry_policy(),
        spec_open(token, key) == Ok::<Seq<u8>, CryptoError>(plaintext),
{
}

} // verus!
