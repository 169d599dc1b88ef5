//! The resolver client: how the key agent is invoked for one server, and
//! how its output is read.
//!
//! Running the agent and writing the certificate file are the caller's part.
//! [`plan_call`] says with which arguments and which file; [`key_from_output`]
//! says what the agent's exit status and output amount to.

use vstd::prelude::*;
use vstd::string::*;
use vstd::utf8::{decode_utf8, valid_utf8};

use crate::config::{optional_text_view, ResolutionRequest, ResolutionRequestView};
use crate::error::ResolutionError;
use crate::text::text_from_utf8;

verus! {

/// The name of the key agent's program.
pub fn agent_program() -> (res: &'static str)
    ensures
        res@ == "trustee-attester"@,
{
    "trustee-attester"
}

/// The directory that holds the certificate files.
pub fn cert_directory() -> (res: &'static str)
    ensures
        res@ == "/var/run/trustee"@,
{
    "/var/run/trustee"
}

/// A URL as part of a file name: every `://` becomes one underscore, and
/// every `/` and `:` that is left becomes an underscore.
pub open spec fn sanitized(url: Seq<char>) -> Seq<char>
    decreases url.len(),
{
    if url.len() == 0 {
        Seq::empty()
    } else if url.len() >= 3 && url[0] == ':' && url[1] == '/' && url[2] == '/' {
        seq!['_'] + sanitized(url.skip(3))
    } else if url[0] == '/' || url[0] == ':' {
        seq!['_'] + sanitized(url.skip(1))
    } else {
        seq![url[0]] + sanitized(url.skip(1))
    }
}

/// The file that holds the certificate for the server at `url`.
pub open spec fn spec_cert_file_path(url: Seq<char>) -> Seq<char> {
    "/var/run/trustee/cert_"@ + sanitized(url) + ".pem"@
}

/// A sanitized URL names no directory: it holds neither `/` nor `:`, and it
/// is no longer than the URL.
pub proof fn lemma_sanitized_is_a_file_name(url: Seq<char>)
    ensures
        sanitized(url).len() <= url.len(),
        forall|i: int|
            0 <= i < sanitized(url).len() ==> sanitized(url)[i] != '/' && sanitized(url)[i] != ':',
    decreases url.len(),
{
    if url.len() == 0 {
    } else if url.len() >= 3 && url[0] == ':' && url[1] == '/' && url[2] == '/' {
        lemma_sanitized_is_a_file_name(url.skip(3));
    } else {
        lemma_sanitized_is_a_file_name(url.skip(1));
    }
}

/// Turns a URL into part of a file name.
pub fn sanitize_url(url: &str) -> (res: String)
    ensures
        res@ == sanitized(url@),
{
    let n: usize = url.unicode_len();
    let mut out = String::new();
    let mut i: usize = 0;
    assert(url@.skip(0) =~= url@);
    while i < n
        invariant
            i <= n,
            n == url@.len(),
            sanitized(url@) == out@ + sanitized(url@.skip(i as int)),
        decreases n - i,
    {
        let c = url.get_char(i);
        let ghost rest = url@.skip(i as int);
        if c == ':' && n - i >= 3 && url.get_char(i + 1) == '/' && url.get_char(i + 2) == '/' {
            proof {
                reveal_strlit("_");
                assert(rest.skip(3) =~= url@.skip(i + 3));
            }
            out.append("_");
            i = i + 3;
        } else if c == '/' || c == ':' {
            proof {
                reveal_strlit("_");
                assert(rest.skip(1) =~= url@.skip(i + 1));
            }
            out.append("_");
            i = i + 1;
        } else {
            proof {
                assert(rest.skip(1) =~= url@.skip(i + 1));
            }
            out.append(url.substring_char(i, i + 1));
            i = i + 1;
        }
    }
    out
}

/// Names the file that holds the certificate for the server at `url`.
pub fn cert_file_path(url: &str) -> (res: String)
    ensures
        res@ == spec_cert_file_path(url@),
{
    let mut res = "/var/run/trustee/cert_".to_owned();
    let name = sanitize_url(url);
    res.append(name.as_str());
    res.append(".pem");
    res
}

/// The certificate file that a call needs: none where the server has no
/// certificate.
pub open spec fn spec_cert_file(url: Seq<char>, cert: Seq<char>) -> Option<Seq<char>> {
    if cert.len() == 0 {
        None
    } else {
        Some(spec_cert_file_path(url))
    }
}

/// The agent's arguments, in order: the certificate file if there is one,
/// the server and the resource, the init-data if there is any.
pub open spec fn spec_arguments(
    url: Seq<char>,
    path: Seq<char>,
    cert_file: Option<Seq<char>>,
    initdata: Option<Seq<char>>,
) -> Seq<Seq<char>> {
    (match cert_file {
        Some(file) => seq!["--cert-file"@, file],
        None => Seq::empty(),
    }) + seq!["--url"@, url, "get-resource"@, "--path"@, path] + (match initdata {
        Some(document) => seq!["--initdata"@, document],
        None => Seq::empty(),
    })
}

/// A list of texts by their views.
pub open spec fn texts_view(texts: Seq<String>) -> Seq<Seq<char>> {
    Seq::new(texts.len(), |i: int| texts[i]@)
}

/// How the key agent is to be run for one server.
#[derive(Debug, Clone, PartialEq, Eq)]
pub struct AgentCall {
    /// The file to write the server's certificate to before the agent
    /// runs; none where the server has no certificate.
    pub cert_file: Option<String>,
    /// The agent's arguments.
    pub arguments: Vec<String>,
}

/// Plans the run of the key agent that asks the server at `url`, reached
/// with `cert` if that is not empty, for the resource at `path`, with the
/// init-data document `initdata` if there is one.
pub fn plan_call(url: &str, path: &str, cert: &str, initdata: &Option<String>) -> (call: AgentCall)
    ensures
        optional_text_view(call.cert_file) == spec_cert_file(url@, cert@),
        texts_view(call.arguments@) == spec_arguments(
            url@,
            path@,
            spec_cert_file(url@, cert@),
            optional_text_view(*initdata),
        ),
{
    let mut arguments: Vec<String> = Vec::new();
    let cert_file = if cert.is_empty() {
        None
    } else {
        let file = cert_file_path(url);
        arguments.push("--cert-file".to_owned());
        arguments.push(file.clone());
        Some(file)
    };
    arguments.push("--url".to_owned());
    arguments.push(url.to_owned());
    arguments.push("get-resource".to_owned());
    arguments.push("--path".to_owned());
    arguments.push(path.to_owned());
    if let Some(document) = initdata {
        arguments.push("--initdata".to_owned());
        arguments.push(document.clone());
    }
    AgentCall { cert_file, arguments }
}

/// A planned run by its view: the certificate file and the arguments.
pub open spec fn call_view(call: Option<AgentCall>) -> Option<(Option<Seq<char>>, Seq<Seq<char>>)> {
    match call {
        Some(call) => Some((optional_text_view(call.cert_file), texts_view(call.arguments@))),
        None => None,
    }
}

/// The run of the key agent that asks the server at index `server` of a
/// request: the run planned for that server's own address and certificate,
/// with the path and the init-data of the request as they are.
pub open spec fn spec_call_for(request: ResolutionRequestView, server: int) -> Option<
    (Option<Seq<char>>, Seq<Seq<char>>),
> {
    match request.query_for(server) {
        Some(query) => Some(
            (
                spec_cert_file(query.url, query.cert),
                spec_arguments(
                    query.url,
                    query.path,
                    spec_cert_file(query.url, query.cert),
                    query.initdata,
                ),
            ),
        ),
        None => None,
    }
}

/// Plans the run of the key agent that asks the server at index `server`
/// of `request`.  There is none for an index beyond the list.
pub fn call_for(request: &ResolutionRequest, server: usize) -> (res: Option<AgentCall>)
    ensures
        call_view(res) == spec_call_for(request@, server as int),
{
    match request.query_for(server) {
        Some(query) => Some(
            plan_call(
                query.url.as_str(),
                query.path.as_str(),
                query.cert.as_str(),
                &query.initdata,
            ),
        ),
        None => None,
    }
}

/// Whether a character is white space: one of the code points that
/// Unicode gives the property White_Space.
pub open spec fn is_white_space(c: char) -> bool {
    let code = c as u32;
    ||| 0x09 <= code <= 0x0d
    ||| code == 0x20
    ||| code == 0x85
    ||| code == 0xa0
    ||| code == 0x1680
    ||| 0x2000 <= code <= 0x200a
    ||| code == 0x2028
    ||| code == 0x2029
    ||| code == 0x202f
    ||| code == 0x205f
    ||| code == 0x3000
}

/// `text` without the white space at its two ends: what stands from the
/// first to the last character that is no white space.
pub open spec fn trimmed(text: Seq<char>) -> Seq<char>
    decreases text.len(),
{
    if text.len() == 0 {
        text
    } else if is_white_space(text[0]) {
        trimmed(text.skip(1))
    } else if is_white_space(text.last()) {
        trimmed(text.drop_last())
    } else {
        text
    }
}

/// `str::trim` of the standard library: the slice without leading and
/// trailing white space, where white space is what Unicode gives the
/// property White_Space.  The contract says so over `trimmed`; nothing of
/// it is proved here.
#[verifier::external_body]
fn trim_text<'a>(text: &'a str) -> (res: &'a str)
    ensures
        res@ == trimmed(text@),
{
    text.trim()
}

/// The key that a trimmed output is: anything but the empty text.
pub open spec fn spec_accept_key(key: Seq<char>) -> Result<Seq<char>, ResolutionError> {
    if key.len() == 0 {
        Err(ResolutionError::EmptyKey)
    } else {
        Ok(key)
    }
}

/// What a run of the agent amounts to: a key only if the agent succeeded
/// and its output is UTF-8 text that holds more than white space.
pub open spec fn spec_key_from_output(success: bool, output: Seq<u8>) -> Result<
    Seq<char>,
    ResolutionError,
> {
    if !success {
        Err(ResolutionError::AgentFailed)
    } else if !valid_utf8(output) {
        Err(ResolutionError::InvalidUtf8)
    } else {
        spec_accept_key(trimmed(decode_utf8(output)))
    }
}

/// A resolver result with its key taken by its view.
pub open spec fn key_result_view(res: Result<String, ResolutionError>) -> Result<
    Seq<char>,
    ResolutionError,
> {
    match res {
        Ok(key) => Ok(key@),
        Err(error) => Err(error),
    }
}

/// Accepts a trimmed output as the key: `EmptyKey` if nothing is left of it.
pub fn accept_key(key: &str) -> (res: Result<String, ResolutionError>)
    ensures
        key_result_view(res) == spec_accept_key(key@),
{
    if key.is_empty() {
        Err(ResolutionError::EmptyKey)
    } else {
        Ok(key.to_owned())
    }
}

/// Reads the result of a run of the agent: whether it exited with success,
/// and what it wrote to its standard output.
pub fn key_from_output(success: bool, output: Vec<u8>) -> (res: Result<String, ResolutionError>)
    ensures
        key_result_view(res) == spec_key_from_output(success, output@),
{
    if !success {
        return Err(ResolutionError::AgentFailed);
    }
    match text_from_utf8(output) {
        Ok(text) => accept_key(trim_text(text.as_str())),
        Err(_) => Err(ResolutionError::InvalidUtf8),
    }
}

} // verus!
