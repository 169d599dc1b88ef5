//! The configuration model: the key servers, the resource to ask them for,
//! the init-data to hand them, and the retry policy; and how a configuration
//! is read from a JSON document.

use std::collections::HashMap;
use vstd::prelude::*;

use crate::error::{ConfigError, ConfigErrorView, Field};
use crate::json::{
    as_i64, as_text, as_u64, is_null, items, json_document, json_of, member, parse_json,
    values_view, JsonNumber, JsonView,
};
use crate::retry::{retries_of_int, retries_of_text, NumRetries};

verus! {

/// One key server: where it is reached and, if `cert` is not empty, the
/// certificate in PEM text to reach it with.
#[derive(Debug, Clone, PartialEq, Eq)]
pub struct Server {
    pub url: String,
    pub cert: String,
}

/// The view of a [`Server`].
pub struct ServerView {
    pub url: Seq<char>,
    pub cert: Seq<char>,
}

impl View for Server {
    type V = ServerView;

    open spec fn view(&self) -> ServerView {
        ServerView { url: self.url@, cert: self.cert@ }
    }
}

impl Server {
    /// A copy of this server.
    pub fn duplicate(&self) -> (res: Server)
        ensures
            res@ == self@,
    {
        Server { url: self.url.clone(), cert: self.cert.clone() }
    }
}

/// The servers of a list by their views, in list order.
pub open spec fn servers_view(servers: Seq<Server>) -> Seq<ServerView> {
    Seq::new(servers.len(), |i: int| servers[i]@)
}

/// A copy of a server list, in the same order.
pub fn duplicate_servers(servers: &Vec<Server>) -> (res: Vec<Server>)
    ensures
        servers_view(res@) == servers_view(servers@),
{
    let mut res: Vec<Server> = Vec::new();
    let mut i: usize = 0;
    while i < servers.len()
        invariant
            i <= servers.len(),
            res.len() == i,
            forall|j: int| 0 <= j < i ==> res[j]@ == servers[j]@,
        decreases servers.len() - i,
    {
        res.push(servers[i].duplicate());
        i = i + 1;
    }
    res
}

/// A text that may be absent, by its view.
pub open spec fn optional_text_view(text: Option<String>) -> Option<Seq<char>> {
    match text {
        Some(text) => Some(text@),
        None => None,
    }
}

/// A copy of a text that may be absent.
pub fn duplicate_optional_text(text: &Option<String>) -> (res: Option<String>)
    ensures
        optional_text_view(res) == optional_text_view(*text),
{
    match text {
        Some(text) => Some(text.clone()),
        None => None,
    }
}

/// What a caller configures: the servers in the order in which they are to
/// be asked, the path of the resource that holds the key, the init-data as
/// the text of a JSON object of strings, and the retry policy.  The last two
/// may be absent.
#[derive(Debug)]
pub struct Config {
    pub servers: Vec<Server>,
    pub path: String,
    pub initdata: Option<String>,
    pub num_retries: Option<NumRetries>,
}

/// The view of a [`Config`].
pub struct ConfigView {
    pub servers: Seq<ServerView>,
    pub path: Seq<char>,
    pub initdata: Option<Seq<char>>,
    pub num_retries: Option<NumRetries>,
}

impl View for Config {
    type V = ConfigView;

    open spec fn view(&self) -> ConfigView {
        ConfigView {
            servers: servers_view(self.servers@),
            path: self.path@,
            initdata: optional_text_view(self.initdata),
            num_retries: self.num_retries,
        }
    }
}

/// What every resolver is asked with: the servers in order, the path of the
/// resource, and the init-data document in the form in which resolvers take
/// it.
#[derive(Debug)]
pub struct ResolutionRequest {
    pub servers: Vec<Server>,
    pub path: String,
    pub initdata: Option<String>,
}

/// The view of a [`ResolutionRequest`].
pub struct ResolutionRequestView {
    pub servers: Seq<ServerView>,
    pub path: Seq<char>,
    pub initdata: Option<Seq<char>>,
}

impl View for ResolutionRequest {
    type V = ResolutionRequestView;

    open spec fn view(&self) -> ResolutionRequestView {
        ResolutionRequestView {
            servers: servers_view(self.servers@),
            path: self.path@,
            initdata: optional_text_view(self.initdata),
        }
    }
}

/// What one server is asked with: where it is reached, the certificate to
/// reach it with, the path of the resource, and the init-data document.
#[derive(Debug, Clone, PartialEq, Eq)]
pub struct ResolverQuery {
    pub url: String,
    pub path: String,
    pub cert: String,
    pub initdata: Option<String>,
}

/// The view of a [`ResolverQuery`].
pub struct ResolverQueryView {
    pub url: Seq<char>,
    pub path: Seq<char>,
    pub cert: Seq<char>,
    pub initdata: Option<Seq<char>>,
}

impl View for ResolverQuery {
    type V = ResolverQueryView;

    open spec fn view(&self) -> ResolverQueryView {
        ResolverQueryView {
            url: self.url@,
            path: self.path@,
            cert: self.cert@,
            initdata: optional_text_view(self.initdata),
        }
    }
}

/// A query that may be absent, by its view.
pub open spec fn optional_query_view(query: Option<ResolverQuery>) -> Option<ResolverQueryView> {
    match query {
        Some(query) => Some(query@),
        None => None,
    }
}

impl ResolutionRequestView {
    /// What the server at index `server` of the list is asked with: its own
    /// address and certificate, and the path and init-data of the request
    /// as they are.  There is no query for an index beyond the list.
    pub open spec fn query_for(self, server: int) -> Option<ResolverQueryView> {
        if 0 <= server < self.servers.len() {
            Some(
                ResolverQueryView {
                    url: self.servers[server].url,
                    path: self.path,
                    cert: self.servers[server].cert,
                    initdata: self.initdata,
                },
            )
        } else {
            None
        }
    }
}

impl ResolutionRequest {
    /// What the server at index `server` of the list is asked with: its own
    /// address and certificate, and the path and init-data of the request
    /// as they are.  There is no query for an index beyond the list.
    pub fn query_for(&self, server: usize) -> (res: Option<ResolverQuery>)
        ensures
            optional_query_view(res) == self@.query_for(server as int),
    {
        if server < self.servers.len() {
            Some(
                ResolverQuery {
                    url: self.servers[server].url.clone(),
                    path: self.path.clone(),
                    cert: self.servers[server].cert.clone(),
                    initdata: duplicate_optional_text(&self.initdata),
                },
            )
        } else {
            None
        }
    }
}

/// The member `field` of a document, which must be there and hold text.
pub open spec fn spec_text_member(document: JsonView, field: Field) -> Result<
    Seq<char>,
    ConfigErrorView,
> {
    match document {
        JsonView::Object(members) => if members.dom().contains(field.spec_name()) {
            match members[field.spec_name()] {
                JsonView::Text(text) => Ok(text),
                _ => Err(ConfigErrorView::Invalid(field)),
            }
        } else {
            Err(ConfigErrorView::Missing(field))
        },
        _ => Err(ConfigErrorView::Missing(field)),
    }
}

/// The member `field` of a document, which holds text where it is there and
/// not null.
pub open spec fn spec_optional_text_member(document: JsonView, field: Field) -> Result<
    Option<Seq<char>>,
    ConfigErrorView,
> {
    match document {
        JsonView::Object(members) => if members.dom().contains(field.spec_name()) {
            match members[field.spec_name()] {
                JsonView::Null => Ok(None),
                JsonView::Text(text) => Ok(Some(text)),
                _ => Err(ConfigErrorView::Invalid(field)),
            }
        } else {
            Ok(None)
        },
        _ => Ok(None),
    }
}

/// A validated policy as one that may be absent.
pub open spec fn named_policy(res: Result<NumRetries, ConfigErrorView>) -> Result<
    Option<NumRetries>,
    ConfigErrorView,
> {
    match res {
        Ok(policy) => Ok(Some(policy)),
        Err(error) => Err(error),
    }
}

/// The retry policy that a value names: none for null, the validated number
/// or word else.  A value of another kind names nothing.
pub open spec fn spec_retries_of(value: JsonView) -> Result<Option<NumRetries>, ConfigErrorView> {
    match value {
        JsonView::Null => Ok(None),
        JsonView::Number(JsonNumber::Unsigned(n)) => named_policy(retries_of_int(n as int)),
        JsonView::Number(JsonNumber::Signed(n)) => named_policy(retries_of_int(n as int)),
        JsonView::Text(word) => named_policy(retries_of_text(word)),
        _ => Err(ConfigErrorView::Invalid(Field::NumRetries)),
    }
}

/// The retry policy that a document names: none where the member is not
/// there.
pub open spec fn spec_retries_member(document: JsonView) -> Result<
    Option<NumRetries>,
    ConfigErrorView,
> {
    match document {
        JsonView::Object(members) => if members.dom().contains(Field::NumRetries.spec_name()) {
            spec_retries_of(members[Field::NumRetries.spec_name()])
        } else {
            Ok(None)
        },
        _ => Ok(None),
    }
}

/// The server that a value describes: an object with the texts `url` and
/// `cert`.
pub open spec fn spec_server_of(value: JsonView) -> Result<ServerView, ConfigErrorView> {
    match spec_text_member(value, Field::Url) {
        Err(error) => Err(error),
        Ok(url) => match spec_text_member(value, Field::Cert) {
            Err(error) => Err(error),
            Ok(cert) => Ok(ServerView { url, cert }),
        },
    }
}

/// The servers that a list describes, in its order.  The first value that
/// describes none decides the error.
pub open spec fn spec_servers_of(list: Seq<JsonView>) -> Result<Seq<ServerView>, ConfigErrorView>
    decreases list.len(),
{
    if list.len() == 0 {
        Ok(Seq::empty())
    } else {
        match spec_servers_of(list.drop_last()) {
            Err(error) => Err(error),
            Ok(servers) => match spec_server_of(list.last()) {
                Err(error) => Err(error),
                Ok(server) => Ok(servers.push(server)),
            },
        }
    }
}

/// The servers of a document: the member `servers`, which must be there and
/// hold a list.
pub open spec fn spec_servers_member(document: JsonView) -> Result<
    Seq<ServerView>,
    ConfigErrorView,
> {
    match document {
        JsonView::Object(members) => if members.dom().contains(Field::Servers.spec_name()) {
            match members[Field::Servers.spec_name()] {
                JsonView::List(list) => spec_servers_of(list),
                _ => Err(ConfigErrorView::Invalid(Field::Servers)),
            }
        } else {
            Err(ConfigErrorView::Missing(Field::Servers))
        },
        _ => Err(ConfigErrorView::Missing(Field::Servers)),
    }
}

/// The configuration that the members of a document amount to: `servers`
/// and `path` must be there; `initdata` and `num_retries` may be absent or
/// null.  The members are read in this order, and the first that fails
/// decides the error.
pub open spec fn spec_fields_of(document: JsonView) -> Result<ConfigView, ConfigErrorView> {
    match spec_servers_member(document) {
        Err(error) => Err(error),
        Ok(servers) => match spec_text_member(document, Field::Path) {
            Err(error) => Err(error),
            Ok(path) => match spec_optional_text_member(document, Field::Initdata) {
                Err(error) => Err(error),
                Ok(initdata) => match spec_retries_member(document) {
                    Err(error) => Err(error),
                    Ok(num_retries) => Ok(ConfigView { servers, path, initdata, num_retries }),
                },
            },
        },
    }
}

/// The configuration that a text holds.  The text must be a JSON document
/// whose members are a configuration, and the init-data, where there is
/// any, the text of a JSON object of strings.
pub open spec fn spec_config_of(text: Seq<char>) -> Result<ConfigView, ConfigErrorView> {
    match json_document(text) {
        None => Err(ConfigErrorView::NotJson),
        Some(document) => match spec_fields_of(document) {
            Err(error) => Err(error),
            Ok(config) => if config.initdata matches Some(initdata) && json_string_map(
                initdata,
            ) is None {
                Err(ConfigErrorView::InvalidInitdata)
            } else {
                Ok(config)
            },
        },
    }
}

/// Reads the member `field` of `document`, which must be there and hold
/// text.
pub(crate) fn text_member(document: &serde_json::Value, field: Field) -> (res: Result<
    String,
    ConfigError,
>)
    ensures
        match res {
            Ok(text) => spec_text_member(json_of(*document), field) == Ok::<
                Seq<char>,
                ConfigErrorView,
            >(text@),
            Err(error) => spec_text_member(json_of(*document), field) == Err::<
                Seq<char>,
                ConfigErrorView,
            >(error@),
        },
{
    match member(document, field.name()) {
        None => Err(ConfigError::Missing(field)),
        Some(value) => match as_text(value) {
            Some(text) => Ok(text.to_owned()),
            None => Err(ConfigError::Invalid(field)),
        },
    }
}

/// Reads the member `field` of `document`, which holds text where it is
/// there and not null.
pub(crate) fn optional_text_member(document: &serde_json::Value, field: Field) -> (res: Result<
    Option<String>,
    ConfigError,
>)
    ensures
        match res {
            Ok(text) => spec_optional_text_member(json_of(*document), field) == Ok::<
                Option<Seq<char>>,
                ConfigErrorView,
            >(optional_text_view(text)),
            Err(error) => spec_optional_text_member(json_of(*document), field) == Err::<
                Option<Seq<char>>,
                ConfigErrorView,
            >(error@),
        },
{
    match member(document, field.name()) {
        None => Ok(None),
        Some(value) => {
            if is_null(value) {
                Ok(None)
            } else {
                match as_text(value) {
                    Some(text) => Ok(Some(text.to_owned())),
                    None => Err(ConfigError::Invalid(field)),
                }
            }
        },
    }
}

/// A reading of a policy with its error taken by its view.
pub open spec fn named_policy_view(res: Result<Option<NumRetries>, ConfigError>) -> Result<
    Option<NumRetries>,
    ConfigErrorView,
> {
    match res {
        Ok(policy) => Ok(policy),
        Err(error) => Err(error@),
    }
}

/// Reads the retry policy that `value` names.
pub(crate) fn retries_of(value: &serde_json::Value) -> (res: Result<
    Option<NumRetries>,
    ConfigError,
>)
    ensures
        named_policy_view(res) == spec_retries_of(json_of(*value)),
        res matches Ok(Some(policy)) ==> policy.wf(),
{
    if is_null(value) {
        return Ok(None);
    }
    let validated = match as_u64(value) {
        Some(n) => NumRetries::from_u64(n),
        None => match as_i64(value) {
            Some(n) => NumRetries::from_i64(n),
            None => match as_text(value) {
                Some(word) => NumRetries::from_text(word),
                None => {
                    return Err(ConfigError::Invalid(Field::NumRetries));
                },
            },
        },
    };
    match validated {
        Ok(policy) => Ok(Some(policy)),
        Err(error) => Err(error),
    }
}

/// Reads the retry policy that `document` names: none where the member is
/// not there.
pub(crate) fn retries_member(document: &serde_json::Value) -> (res: Result<
    Option<NumRetries>,
    ConfigError,
>)
    ensures
        named_policy_view(res) == spec_retries_member(json_of(*document)),
        res matches Ok(Some(policy)) ==> policy.wf(),
{
    match member(document, Field::NumRetries.name()) {
        None => Ok(None),
        Some(value) => retries_of(value),
    }
}

/// Reads the server that `value` describes.
pub(crate) fn server_of(value: &serde_json::Value) -> (res: Result<Server, ConfigError>)
    ensures
        match res {
            Ok(server) => spec_server_of(json_of(*value)) == Ok::<ServerView, ConfigErrorView>(
                server@,
            ),
            Err(error) => spec_server_of(json_of(*value)) == Err::<ServerView, ConfigErrorView>(
                error@,
            ),
        },
{
    let url = match text_member(value, Field::Url) {
        Ok(url) => url,
        Err(error) => {
            return Err(error);
        },
    };
    match text_member(value, Field::Cert) {
        Ok(cert) => Ok(Server { url, cert }),
        Err(error) => Err(error),
    }
}

/// An error among the first values of a list is the error of the whole list.
proof fn lemma_servers_error_stays(list: Seq<JsonView>, upto: int)
    requires
        0 <= upto <= list.len(),
        spec_servers_of(list.take(upto)) is Err,
    ensures
        spec_servers_of(list) == spec_servers_of(list.take(upto)),
    decreases list.len() - upto,
{
    if upto == list.len() {
        assert(list.take(upto) =~= list);
    } else {
        assert(list.take(upto + 1).drop_last() =~= list.take(upto));
        lemma_servers_error_stays(list, upto + 1);
    }
}

/// Reads the servers that the values of `list` describe, in order.
pub(crate) fn servers_of(list: &Vec<serde_json::Value>) -> (res: Result<Vec<Server>, ConfigError>)
    ensures
        match res {
            Ok(servers) => spec_servers_of(values_view(list@)) == Ok::<
                Seq<ServerView>,
                ConfigErrorView,
            >(servers_view(servers@)),
            Err(error) => spec_servers_of(values_view(list@)) == Err::<
                Seq<ServerView>,
                ConfigErrorView,
            >(error@),
        },
{
    let ghost values = values_view(list@);
    let mut servers: Vec<Server> = Vec::new();
    let mut i: usize = 0;
    assert(servers_view(servers@) =~= Seq::<ServerView>::empty());
    while i < list.len()
        invariant
            i <= list.len(),
            values == values_view(list@),
            spec_servers_of(values.take(i as int)) == Ok::<Seq<ServerView>, ConfigErrorView>(
                servers_view(servers@),
            ),
        decreases list.len() - i,
    {
        let ghost before = servers_view(servers@);
        assert(values.take(i + 1).drop_last() =~= values.take(i as int));
        match server_of(&list[i]) {
            Ok(server) => {
                servers.push(server);
                assert(servers_view(servers@) =~= before.push(server@));
            },
            Err(error) => {
                proof {
                    lemma_servers_error_stays(values, i + 1);
                }
                return Err(error);
            },
        }
        i = i + 1;
    }
    assert(values.take(list.len() as int) =~= values);
    Ok(servers)
}

/// Reads the servers of `document`: the member `servers`, which must be
/// there and hold a list.
pub(crate) fn servers_member(document: &serde_json::Value) -> (res: Result<
    Vec<Server>,
    ConfigError,
>)
    ensures
        match res {
            Ok(servers) => spec_servers_member(json_of(*document)) == Ok::<
                Seq<ServerView>,
                ConfigErrorView,
            >(servers_view(servers@)),
            Err(error) => spec_servers_member(json_of(*document)) == Err::<
                Seq<ServerView>,
                ConfigErrorView,
            >(error@),
        },
{
    match member(document, Field::Servers.name()) {
        None => Err(ConfigError::Missing(Field::Servers)),
        Some(value) => match items(value) {
            Some(list) => servers_of(list),
            None => Err(ConfigError::Invalid(Field::Servers)),
        },
    }
}

/// A reading of a configuration by its view.
pub open spec fn config_result_view(res: Result<Config, ConfigError>) -> Result<
    ConfigView,
    ConfigErrorView,
> {
    match res {
        Ok(config) => Ok(config@),
        Err(error) => Err(error@),
    }
}

/// Reads the configuration that the members of `document` amount to.
pub(crate) fn fields_of(document: &serde_json::Value) -> (res: Result<Config, ConfigError>)
    ensures
        config_result_view(res) == spec_fields_of(json_of(*document)),
        res matches Ok(config) ==> config.wf(),
{
    let servers = match servers_member(document) {
        Ok(servers) => servers,
        Err(error) => {
            return Err(error);
        },
    };
    let path = match text_member(document, Field::Path) {
        Ok(path) => path,
        Err(error) => {
            return Err(error);
        },
    };
    let initdata = match optional_text_member(document, Field::Initdata) {
        Ok(initdata) => initdata,
        Err(error) => {
            return Err(error);
        },
    };
    let num_retries = match retries_member(document) {
        Ok(num_retries) => num_retries,
        Err(error) => {
            return Err(error);
        },
    };
    Ok(Config { servers, path, initdata, num_retries })
}

/// The member `num_retries` of a document, if the document is an object
/// that has one.
pub open spec fn retries_named_in(document: JsonView) -> Option<JsonView> {
    match document {
        JsonView::Object(members) => if members.dom().contains("num_retries"@) {
            Some(members["num_retries"@])
        } else {
            None
        },
        _ => None,
    }
}

/// The value is the integer `number`.
pub open spec fn is_integer(value: JsonView, number: int) -> bool {
    match value {
        JsonView::Number(JsonNumber::Signed(n)) => n == number,
        JsonView::Number(JsonNumber::Unsigned(n)) => n == number,
        _ => false,
    }
}

/// Omitting the retry policy applies the default.  A configuration that is
/// read from a document without the member `num_retries`, or with null in
/// its place, names no policy, and ten attempts are in force for it.
pub proof fn lemma_omitted_retries_apply_the_default(text: Seq<char>, document: JsonView)
    requires
        json_document(text) == Some(document),
        spec_config_of(text) is Ok,
        retries_named_in(document) is None || retries_named_in(document) == Some(JsonView::Null),
    ensures
        spec_config_of(text) matches Ok(config) && config.num_retries is None
            && config.retry_policy() == NumRetries::Finite(10),
{
}

/// A number of retries below one is refused when the configuration is read,
/// before anything is resolved.  Whatever else the document holds, no
/// configuration comes of it; where the members before it are in order, the
/// error names the number.
pub proof fn lemma_nonpositive_retries_are_refused(
    text: Seq<char>,
    document: JsonView,
    number: int,
)
    requires
        number <= 0,
        json_document(text) == Some(document),
        retries_named_in(document) matches Some(value) && is_integer(value, number),
    ensures
        spec_config_of(text) is Err,
        spec_servers_member(document) is Ok && spec_text_member(document, Field::Path) is Ok
            && spec_optional_text_member(document, Field::Initdata) is Ok ==> spec_config_of(text)
            == Err::<ConfigView, ConfigErrorView>(ConfigErrorView::RetriesTooSmall(number)),
{
}

impl ConfigView {
    /// The retry policy in force: the one configured, or else the default of
    /// ten attempts.
    pub open spec fn retry_policy(self) -> NumRetries {
        NumRetries::spec_or_default(self.num_retries)
    }

    /// The request that this configuration makes of resolvers, given its
    /// init-data document in their form.
    pub open spec fn request(self, document: Option<Seq<char>>) -> ResolutionRequestView {
        ResolutionRequestView { servers: self.servers, path: self.path, initdata: document }
    }
}

impl Config {
    /// The retry policy, where one is configured, allows an attempt.
    pub open spec fn wf(&self) -> bool {
        self.num_retries matches Some(policy) ==> policy.wf()
    }

    /// Reads a configuration from the text of a JSON document.
    ///
    /// The document holds the members `servers`, a list of objects with the
    /// texts `url` and `cert`, and `path`, a text; it may hold `initdata`,
    /// the text of a JSON object of strings, and `num_retries`, a number of
    /// at least 1 or the word `infinity`.  What does not fit is refused
    /// here, before anything is resolved.
    pub fn from_json(text: &str) -> (res: Result<Config, ConfigError>)
        ensures
            config_result_view(res) == spec_config_of(text@),
            res matches Ok(config) ==> config.wf(),
    {
        let document = match parse_json(text) {
            Ok(document) => document,
            Err(_) => {
                return Err(ConfigError::NotJson);
            },
        };
        let config = match fields_of(&document) {
            Ok(config) => config,
            Err(error) => {
                return Err(error);
            },
        };
        match config.initdata_document() {
            Ok(_) => Ok(config),
            Err(error) => Err(error),
        }
    }

    /// The retry policy in force: the one configured, or else the default of
    /// ten attempts.
    pub fn retry_policy(&self) -> (res: NumRetries)
        ensures
            res == self@.retry_policy(),
            self.num_retries is None ==> res == NumRetries::Finite(10),
    {
        NumRetries::or_default(&self.num_retries)
    }

    /// The request that this configuration makes of resolvers.  `document`
    /// is the init-data document in their form, absent where the
    /// configuration holds no init-data.
    pub fn request(&self, document: &Option<String>) -> (res: ResolutionRequest)
        ensures
            res@ == self@.request(optional_text_view(*document)),
    {
        ResolutionRequest {
            servers: duplicate_servers(&self.servers),
            path: self.path.clone(),
            initdata: duplicate_optional_text(document),
        }
    }

    /// The init-data document of this configuration: none where it holds no
    /// init-data, `InvalidInitdata` where its init-data is not the text of a
    /// JSON object of strings.
    pub fn initdata_document(&self) -> (res: Result<Option<Initdata>, ConfigError>)
        ensures
            match self.initdata {
                None => res == Ok::<Option<Initdata>, ConfigError>(None),
                Some(text) => match json_string_map(text@) {
                    Some(data) => res matches Ok(Some(document)) && document.holds(data),
                    None => res == Err::<Option<Initdata>, ConfigError>(
                        ConfigError::InvalidInitdata,
                    ),
                },
            },
    {
        match &self.initdata {
            None => Ok(None),
            Some(text) => match Initdata::from_json(text.as_str()) {
                Ok(document) => Ok(Some(document)),
                Err(error) => Err(error),
            },
        }
    }
}

/// The init-data document that resolvers are handed: a format version, the
/// name of a digest algorithm, and the caller's data.
#[derive(Debug)]
pub struct Initdata {
    pub version: String,
    pub algorithm: String,
    pub data: HashMap<String, String>,
}

/// The members of the JSON object of strings that `text` holds, or `None`
/// where `text` is not the text of such an object.
pub uninterp spec fn json_string_map(text: Seq<char>) -> Option<Map<String, String>>;

/// `serde_json::from_str` at the type `HashMap<String, String>`.  What map
/// it returns, or that it fails, depends on the text alone and is named, not
/// defined: `json_string_map`.
#[verifier::external_body]
fn parse_string_map(text: &str) -> (res: Result<HashMap<String, String>, serde_json::Error>)
    ensures
        res matches Ok(data) ==> json_string_map(text@) == Some(data@),
        res is Err ==> json_string_map(text@) is None,
{
    serde_json::from_str::<HashMap<String, String>>(text)
}

impl Initdata {
    /// This document holds `data` under the version and the algorithm that
    /// every document carries.
    pub open spec fn holds(&self, data: Map<String, String>) -> bool {
        &&& self.version@ == "0.1.0"@
        &&& self.algorithm@ == "sha256"@
        &&& self.data@ == data
    }

    /// The document for `data`: version `0.1.0`, algorithm `sha256`.
    pub fn new(data: HashMap<String, String>) -> (res: Initdata)
        ensures
            res.holds(data@),
    {
        Initdata { version: "0.1.0".to_owned(), algorithm: "sha256".to_owned(), data }
    }

    /// The document for the data that `text` holds as a JSON object of
    /// strings; `InvalidInitdata` where `text` is no such object.
    pub fn from_json(text: &str) -> (res: Result<Initdata, ConfigError>)
        ensures
            match json_string_map(text@) {
                Some(data) => res matches Ok(document) && document.holds(data),
                None => res == Err::<Initdata, ConfigError>(ConfigError::InvalidInitdata),
            },
    {
        match parse_string_map(text) {
            Ok(data) => Ok(Initdata::new(data)),
            Err(_) => Err(ConfigError::InvalidInitdata),
        }
    }
}

} // verus!
