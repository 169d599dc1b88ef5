use clevis_pin_trustee::attester::{
    accept_key, agent_program, call_for, cert_directory, cert_file_path, key_from_output,
    plan_call, sanitize_url,
};
use clevis_pin_trustee::config::{ResolutionRequest, Server};
use clevis_pin_trustee::error::ResolutionError;

#[test]
fn program_and_directory() {
    assert_eq!(agent_program(), "trustee-attester");
    assert_eq!(cert_directory(), "/var/run/trustee");
}

#[test]
fn url_becomes_a_file_name() {
    assert_eq!(sanitize_url("https://kbs.example.com:8080/api"), "https_kbs.example.com_8080_api");
    assert_eq!(sanitize_url("http://server1.example.com"), "http_server1.example.com");
    assert_eq!(sanitize_url(""), "");
    assert_eq!(sanitize_url("kbs"), "kbs");
    assert_eq!(sanitize_url(":///"), "__");
    assert_eq!(sanitize_url("::///"), "___");
    assert_eq!(sanitize_url("a:/b"), "a__b");
    assert_eq!(sanitize_url("a://"), "a_");
    assert_eq!(sanitize_url("https://k\u{e9}y/\u{4e2d}:1"), "https_k\u{e9}y_\u{4e2d}_1");
}

#[test]
fn url_becomes_what_three_replacements_make_of_it() {
    for url in ["https://a.b:1/c/d", "://://", ":/:/://x", "/../etc/passwd", "a:b:c", "///", ":::"] {
        let expected = url.replace("://", "_").replace("/", "_").replace(":", "_");
        assert_eq!(sanitize_url(url), expected);
    }
}

#[test]
fn certificate_file_of_a_server() {
    assert_eq!(
        cert_file_path("https://kbs.example.com:8080"),
        "/var/run/trustee/cert_https_kbs.example.com_8080.pem"
    );
    assert_eq!(cert_file_path("/../x"), "/var/run/trustee/cert__.._x.pem");
}

#[test]
fn call_without_certificate_and_initdata() {
    let call = plan_call("http://server1.example.com", "/test/path", "", &None);
    assert_eq!(call.cert_file, None);
    assert_eq!(
        call.arguments,
        vec!["--url", "http://server1.example.com", "get-resource", "--path", "/test/path"]
    );
}

#[test]
fn call_with_certificate_and_initdata() {
    let call = plan_call(
        "https://kbs:8080",
        "default/key/luks",
        "-----BEGIN CERTIFICATE-----",
        &Some("version = \"0.1.0\"".to_string()),
    );
    assert_eq!(call.cert_file, Some("/var/run/trustee/cert_https_kbs_8080.pem".to_string()));
    assert_eq!(
        call.arguments,
        vec![
            "--cert-file",
            "/var/run/trustee/cert_https_kbs_8080.pem",
            "--url",
            "https://kbs:8080",
            "get-resource",
            "--path",
            "default/key/luks",
            "--initdata",
            "version = \"0.1.0\"",
        ]
    );
}

#[test]
fn call_with_initdata_only() {
    let call = plan_call("u", "p", "", &Some("doc".to_string()));
    assert_eq!(call.cert_file, None);
    assert_eq!(call.arguments, vec!["--url", "u", "get-resource", "--path", "p", "--initdata", "doc"]);
}

#[test]
fn output_of_a_successful_run_is_the_key() {
    assert_eq!(key_from_output(true, b"c2VjcmV0\n".to_vec()), Ok("c2VjcmV0".to_string()));
    assert_eq!(key_from_output(true, b"  key with space \r\n".to_vec()), Ok("key with space".to_string()));
}

#[test]
fn failed_run_is_no_key() {
    assert_eq!(key_from_output(false, b"c2VjcmV0\n".to_vec()), Err(ResolutionError::AgentFailed));
    assert_eq!(key_from_output(false, Vec::new()), Err(ResolutionError::AgentFailed));
}

#[test]
fn output_that_is_not_text_is_no_key() {
    assert_eq!(key_from_output(true, vec![0x80, 0x81]), Err(ResolutionError::InvalidUtf8));
}

#[test]
fn empty_output_is_no_key() {
    assert_eq!(key_from_output(true, Vec::new()), Err(ResolutionError::EmptyKey));
    assert_eq!(key_from_output(true, b" \n\t ".to_vec()), Err(ResolutionError::EmptyKey));
    assert_eq!(accept_key(""), Err(ResolutionError::EmptyKey));
    assert_eq!(accept_key("k"), Ok("k".to_string()));
}

#[test]
fn resolution_error_messages() {
    assert_eq!(ResolutionError::AgentFailed.message(), "trustee-attester failed");
    assert_eq!(ResolutionError::InvalidUtf8.message(), "Invalid UTF-8 for the LUKS key");
    assert_eq!(ResolutionError::EmptyKey.message(), "Received empty LUKS key");
}

fn request() -> ResolutionRequest {
    ResolutionRequest {
        servers: vec![
            Server { url: "https://a:1".to_string(), cert: String::new() },
            Server { url: "https://b:2".to_string(), cert: "PEM B".to_string() },
        ],
        path: "default/key".to_string(),
        initdata: Some("doc".to_string()),
    }
}

#[test]
fn call_for_a_server_of_the_request() {
    let first = call_for(&request(), 0).unwrap();
    assert_eq!(first.cert_file, None);
    assert_eq!(
        first.arguments,
        vec!["--url", "https://a:1", "get-resource", "--path", "default/key", "--initdata", "doc"]
    );
    let second = call_for(&request(), 1).unwrap();
    assert_eq!(second.cert_file, Some("/var/run/trustee/cert_https_b_2.pem".to_string()));
    assert_eq!(
        second.arguments,
        vec![
            "--cert-file",
            "/var/run/trustee/cert_https_b_2.pem",
            "--url",
            "https://b:2",
            "get-resource",
            "--path",
            "default/key",
            "--initdata",
            "doc",
        ]
    );
    assert_eq!(second, plan_call("https://b:2", "default/key", "PEM B", &Some("doc".to_string())));
}

#[test]
fn no_call_beyond_the_list() {
    assert_eq!(call_for(&request(), 2), None);
    assert_eq!(call_for(&request(), usize::MAX), None);
}

#[test]
fn white_space_of_every_kind_is_trimmed() {
    let output = "\u{9}\u{a}\u{b}\u{c}\u{d} \u{85}\u{a0}\u{1680}\u{2000}\u{200a}\u{2028}\u{2029}\u{202f}\u{205f}\u{3000}key\u{3000}\u{a0} \n";
    assert_eq!(key_from_output(true, output.as_bytes().to_vec()), Ok("key".to_string()));
}

#[test]
fn what_is_no_white_space_stays() {
    // a zero width space, a byte order mark and a Mongolian vowel separator are none
    let output = "\u{200b}k e\ty\u{feff}\u{180e}";
    assert_eq!(key_from_output(true, output.as_bytes().to_vec()), Ok(output.to_string()));
    assert_eq!(
        key_from_output(true, " \u{200b} ".as_bytes().to_vec()),
        Ok("\u{200b}".to_string())
    );
}
