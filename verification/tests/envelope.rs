use clevis_pin_trustee::config::{Config, Server};
use clevis_pin_trustee::engine::{after_query, begin, Step};
use clevis_pin_trustee::envelope::{
    claim_name, content_encryption, embedded_header, header_names, is_envelope_shaped,
    is_sealed, key_description, key_management, key_operations, open, pin_name,
    protected_header, seal, ClevisHeader, MAX_METADATA_BYTES, MAX_SEALED_BYTES,
};
use clevis_pin_trustee::error::CryptoError;
use clevis_pin_trustee::key::{decode_key, Key};
use clevis_pin_trustee::retry::NumRetries;

const RESOLVED: &str =
    "eyJrZXlfdHlwZSI6Im9jdCIsImtleSI6IjAxMjM0NTY3ODkwMTIzNDU2Nzg5MDEyMzQ1Njc4OTAxIn0=";

fn key() -> Key {
    Key { key_type: "oct".to_string(), key: "01234567890123456789012345678901".to_string() }
}

fn other_key() -> Key {
    Key { key_type: "oct".to_string(), key: "abcdefghijklmnopqrstuvwxyzabcdef".to_string() }
}

fn header() -> ClevisHeader {
    ClevisHeader {
        pin: "trustee".to_string(),
        servers: vec![
            Server { url: "https://a.example.com".to_string(), cert: "PEM".to_string() },
            Server { url: "https://b.example.com".to_string(), cert: String::new() },
        ],
        path: "default/luks/key".to_string(),
        initdata: Some("version = \"0.1.0\"\nalgorithm = \"sha256\"\n".to_string()),
        num_retries: Some(NumRetries::Finite(3)),
    }
}

fn same_header(left: &ClevisHeader, right: &ClevisHeader) -> bool {
    left.pin == right.pin
        && left.servers == right.servers
        && left.path == right.path
        && left.initdata == right.initdata
        && left.num_retries == right.num_retries
}

#[test]
fn names_of_the_scheme() {
    assert_eq!(pin_name(), "trustee");
    assert_eq!(claim_name(), "clevis");
    assert_eq!(key_management(), "dir");
    assert_eq!(content_encryption(), "A256GCM");
    assert_eq!(key_operations(), vec!["encrypt", "decrypt"]);
}

#[test]
fn sealed_envelope_opens_to_the_plaintext() {
    let plaintext = b"the passphrase of the volume".to_vec();
    let token = seal(&plaintext, &key(), &header()).unwrap();
    assert_eq!(open(&token, &key()), Ok(plaintext));
}

#[test]
fn empty_plaintext_round_trips() {
    let token = seal(&[], &key(), &header()).unwrap();
    assert_eq!(open(&token, &key()), Ok(Vec::new()));
}

#[test]
fn binary_plaintext_round_trips() {
    let plaintext: Vec<u8> = (0..=255).collect();
    let token = seal(&plaintext, &key(), &header()).unwrap();
    assert_eq!(open(&token, &key()), Ok(plaintext));
}

#[test]
fn envelope_has_five_parts_and_names_its_algorithms() {
    let token = seal(b"x", &key(), &header()).unwrap();
    let parts: Vec<&str> = token.split('.').collect();
    assert_eq!(parts.len(), 5);
    // direct mode: no encrypted key
    assert_eq!(parts[1], "");
    assert!(!parts[2].is_empty());
    assert!(!parts[3].is_empty());
    assert!(!parts[4].is_empty());
    let protected = josekit::jwt::decode_header(&token).unwrap();
    assert_eq!(protected.claim("alg").and_then(|value| value.as_str()), Some("dir"));
    assert_eq!(protected.claim("enc").and_then(|value| value.as_str()), Some("A256GCM"));
    assert!(protected.claim("clevis").is_some());
}

#[test]
fn embedded_metadata_is_what_was_sealed() {
    let token = seal(b"payload", &key(), &header()).unwrap();
    let embedded = embedded_header(&token).unwrap();
    assert!(same_header(&embedded, &header()));
    assert_eq!(embedded.retry_policy(), NumRetries::Finite(3));
}

#[test]
fn absent_members_stay_absent() {
    let mut sealed = header();
    sealed.initdata = None;
    sealed.num_retries = None;
    let token = seal(b"payload", &key(), &sealed).unwrap();
    let embedded = embedded_header(&token).unwrap();
    assert_eq!(embedded.initdata, None);
    assert_eq!(embedded.num_retries, None);
    assert_eq!(embedded.retry_policy(), NumRetries::Finite(10));
}

#[test]
fn unbounded_policy_is_embedded_as_a_word() {
    let mut sealed = header();
    sealed.num_retries = Some(NumRetries::Infinity);
    let token = seal(b"payload", &key(), &sealed).unwrap();
    assert_eq!(embedded_header(&token).unwrap().num_retries, Some(NumRetries::Infinity));
    let protected = josekit::jwt::decode_header(&token).unwrap();
    let claim = protected.claim("clevis").unwrap();
    assert_eq!(claim.get("num_retries").and_then(|value| value.as_str()), Some("infinity"));
}

#[test]
fn metadata_is_written_as_an_object_with_five_members() {
    let claim = header().to_claim();
    let members = claim.as_object().unwrap();
    let names: Vec<&str> = members.keys().map(|name| name.as_str()).collect();
    assert_eq!(names, vec!["pin", "servers", "path", "initdata", "num_retries"]);
    assert_eq!(
        claim.to_string(),
        "{\"pin\":\"trustee\",\"servers\":[{\"url\":\"https://a.example.com\",\"cert\":\"PEM\"},\
         {\"url\":\"https://b.example.com\",\"cert\":\"\"}],\"path\":\"default/luks/key\",\
         \"initdata\":\"version = \\\"0.1.0\\\"\\nalgorithm = \\\"sha256\\\"\\n\",\"num_retries\":3}"
    );
}

#[test]
fn absent_members_are_written_as_null() {
    let mut sealed = header();
    sealed.servers = Vec::new();
    sealed.initdata = None;
    sealed.num_retries = None;
    assert_eq!(
        sealed.to_claim().to_string(),
        "{\"pin\":\"trustee\",\"servers\":[],\"path\":\"default/luks/key\",\"initdata\":null,\"num_retries\":null}"
    );
}

#[test]
fn written_metadata_reads_back() {
    let claim = header().to_claim();
    let read = ClevisHeader::from_claim(&claim).unwrap();
    assert!(same_header(&read, &header()));
}

#[test]
fn metadata_without_retries_reads_back_without() {
    let claim: serde_json::Value =
        serde_json::from_str("{\"pin\":\"trustee\",\"servers\":[],\"path\":\"p\",\"initdata\":null}")
            .unwrap();
    let read = ClevisHeader::from_claim(&claim).unwrap();
    assert_eq!(read.num_retries, None);
    assert_eq!(read.retry_policy(), NumRetries::Finite(10));
}

#[test]
fn malformed_metadata_is_refused() {
    for text in [
        "{\"servers\":[],\"path\":\"p\"}",
        "{\"pin\":\"trustee\",\"path\":\"p\"}",
        "{\"pin\":\"trustee\",\"servers\":[]}",
        "{\"pin\":\"trustee\",\"servers\":[],\"path\":\"p\",\"num_retries\":0}",
        "{\"pin\":\"trustee\",\"servers\":[],\"path\":\"p\",\"num_retries\":\"never\"}",
        "{\"pin\":7,\"servers\":[],\"path\":\"p\"}",
        "\"trustee\"",
    ] {
        let claim: serde_json::Value = serde_json::from_str(text).unwrap();
        assert_eq!(ClevisHeader::from_claim(&claim).unwrap_err(), CryptoError::MalformedMetadata);
    }
}

#[test]
fn text_that_is_no_envelope() {
    assert_eq!(embedded_header("").unwrap_err(), CryptoError::Envelope);
    assert_eq!(embedded_header("a.b").unwrap_err(), CryptoError::Envelope);
    assert_eq!(embedded_header("!!!.x.y.z.w").unwrap_err(), CryptoError::Envelope);
    assert_eq!(open("not an envelope", &key()), Err(CryptoError::Open));
}

#[test]
fn envelope_without_metadata() {
    // the header {"alg":"dir","enc":"A256GCM"} and four empty parts
    let token = "eyJhbGciOiJkaXIiLCJlbmMiOiJBMjU2R0NNIn0....";
    assert_eq!(embedded_header(token).unwrap_err(), CryptoError::MissingMetadata);
}

#[test]
fn envelope_does_not_open_with_another_key() {
    let token = seal(b"payload", &key(), &header()).unwrap();
    assert_eq!(open(&token, &other_key()), Err(CryptoError::Open));
}

#[test]
fn altered_envelope_does_not_open() {
    let token = seal(b"payload", &key(), &header()).unwrap();
    let mut parts: Vec<String> = token.split('.').map(|part| part.to_string()).collect();
    // another header, still well formed: the tag covers the header
    let mut other = header();
    other.path = "another/path".to_string();
    let other_token = seal(b"payload", &key(), &other).unwrap();
    parts[0] = other_token.split('.').next().unwrap().to_string();
    let altered = parts.join(".");
    assert_eq!(embedded_header(&altered).unwrap().path, "another/path");
    assert_eq!(open(&altered, &key()), Err(CryptoError::Open));
}

#[test]
fn key_of_the_wrong_type_or_size_is_refused() {
    let not_oct = Key { key_type: "RSA".to_string(), key: key().key };
    assert_eq!(seal(b"payload", &not_oct, &header()), Err(CryptoError::Key));
    assert_eq!(open("a.b.c.d.e", &not_oct), Err(CryptoError::OpeningKey));
    let short = Key { key_type: "oct".to_string(), key: "too short".to_string() };
    assert_eq!(seal(b"payload", &short, &header()), Err(CryptoError::Seal));
}

#[test]
fn metadata_of_a_configuration() {
    let config = Config::from_json(
        "{\"servers\":[{\"url\":\"https://a\",\"cert\":\"\"}],\"path\":\"p\",\"initdata\":\"{}\"}",
    )
    .unwrap();
    let document = Some("version = \"0.1.0\"\n".to_string());
    let embedded = ClevisHeader::embed(&config, &document);
    assert_eq!(embedded.pin, "trustee");
    assert_eq!(embedded.servers, config.servers);
    assert_eq!(embedded.path, "p");
    assert_eq!(embedded.initdata, document);
    assert_eq!(embedded.num_retries, None);
    // opening asks what sealing asked
    let asked_at_seal = config.request(&document);
    let asked_at_open = embedded.request();
    assert_eq!(asked_at_open.servers, asked_at_seal.servers);
    assert_eq!(asked_at_open.path, asked_at_seal.path);
    assert_eq!(asked_at_open.initdata, asked_at_seal.initdata);
    assert_eq!(embedded.retry_policy(), config.retry_policy());
}

#[test]
fn seal_and_open_through_a_resolver() {
    let config = Config::from_json(
        "{\"servers\":[{\"url\":\"https://a\",\"cert\":\"\"},{\"url\":\"https://b\",\"cert\":\"\"}],\
         \"path\":\"default/luks/key\",\"num_retries\":2}",
    )
    .unwrap();
    // the second server holds the key
    let resolve = |servers: &[Server], policy: &NumRetries| -> String {
        let mut step = begin(servers.len(), policy);
        loop {
            step = match step {
                Step::Query { attempt, server } => {
                    let response =
                        if servers[server].url == "https://b" { Some(RESOLVED.to_string()) } else { None };
                    after_query(servers.len(), policy, attempt, server, response)
                }
                Step::Done { key } => return key,
                _ => panic!("the second server answers in the first attempt"),
            };
        }
    };

    let plaintext = b"volume key".to_vec();
    let request = config.request(&None);
    let sealed_with = decode_key(&resolve(&request.servers, &config.retry_policy())).unwrap();
    let token = seal(&plaintext, &sealed_with, &ClevisHeader::embed(&config, &None)).unwrap();

    let embedded = embedded_header(&token).unwrap();
    let request = embedded.request();
    let opened_with = decode_key(&resolve(&request.servers, &embedded.retry_policy())).unwrap();
    assert_eq!(open(&token, &opened_with), Ok(plaintext));
}

#[test]
fn crypto_error_messages() {
    assert_eq!(CryptoError::Key.message(), "Error creating direct encrypter");
    assert_eq!(CryptoError::OpeningKey.message(), "Error creating decrypter");
    assert_eq!(CryptoError::Header.message(), "Error adding clevis claim");
    assert_eq!(CryptoError::Seal.message(), "Error serializing JWE token");
    assert_eq!(CryptoError::Envelope.message(), "Error decoding header");
    assert_eq!(CryptoError::MissingMetadata.message(), "Error getting clevis claim");
    assert_eq!(CryptoError::MalformedMetadata.message(), "Error deserializing clevis header");
    assert_eq!(CryptoError::Open.message(), "Error decrypting JWE");
}

#[test]
fn key_material_is_described_as_a_direct_key() {
    let jwk = key_description(&key());
    assert_eq!(jwk.key_type(), "oct");
    assert_eq!(jwk.key_value(), Some(b"01234567890123456789012345678901".to_vec()));
    assert_eq!(jwk.key_operations(), Some(vec!["encrypt", "decrypt"]));
    assert_eq!(
        jwk.to_string(),
        "{\"kty\":\"oct\",\"k\":\"MDEyMzQ1Njc4OTAxMjM0NTY3ODkwMTIzNDU2Nzg5MDE\",\"key_ops\":[\"encrypt\",\"decrypt\"]}"
    );
}

#[test]
fn protected_header_names_the_algorithms_and_holds_the_metadata() {
    let protected = protected_header(&header()).unwrap();
    assert_eq!(protected.algorithm(), Some("dir"));
    assert_eq!(protected.content_encryption(), Some("A256GCM"));
    assert_eq!(protected.claim("clevis"), Some(&header().to_claim()));
    let names: Vec<&str> = protected.claims_set().keys().map(|name| name.as_str()).collect();
    assert_eq!(names, vec!["alg", "enc", "clevis"]);
}

#[test]
fn shape_of_a_sealed_envelope() {
    assert!(is_envelope_shaped("a.b.0123456789abcdef.d.e"));
    assert!(is_envelope_shaped("..0123456789abcdef.."));
    assert!(is_envelope_shaped("\u{e9}.b.0123456789abcdef.\u{4e2d}."));
    // sixteen bytes, not sixteen characters
    assert!(is_envelope_shaped("a.b.\u{e9}\u{e9}\u{e9}\u{e9}\u{e9}\u{e9}\u{e9}\u{e9}.d.e"));
    assert!(!is_envelope_shaped("a.b.\u{e9}123456789abcdef.d.e"));
    // the third part is empty, too short or too long
    assert!(!is_envelope_shaped("a.b..d.e"));
    assert!(!is_envelope_shaped("...."));
    assert!(!is_envelope_shaped("a.b.c.d.e"));
    assert!(!is_envelope_shaped("a.b.0123456789abcde.d.e"));
    assert!(!is_envelope_shaped("a.b.0123456789abcdef0.d.e"));
    // sixteen bytes in another part
    assert!(!is_envelope_shaped("a.0123456789abcdef.c.d.e"));
    // not five parts
    assert!(!is_envelope_shaped(""));
    assert!(!is_envelope_shaped("0123456789abcdef"));
    assert!(!is_envelope_shaped("a.b.0123456789abcdef.d"));
    assert!(!is_envelope_shaped("a.b.0123456789abcdef"));
    assert!(!is_envelope_shaped("a.b.0123456789abcdef.d.e.f"));
    assert!(!is_envelope_shaped("a.b.0123456789abcdef.d.e."));
    let token = seal(b"payload", &key(), &header()).unwrap();
    assert!(is_envelope_shaped(&token));
}

#[test]
fn envelope_of_another_cipher_is_refused() {
    // the header {"alg":"dir","enc":"A128CBC-HS256"} and a vector part of two characters
    assert_eq!(
        open("eyJhbGciOiJkaXIiLCJlbmMiOiJBMTI4Q0JDLUhTMjU2In0..AA.AAAA.AAAA", &key()),
        Err(CryptoError::Open)
    );
    // the same header and a vector of the length that its cipher takes
    assert_eq!(
        open(
            "eyJhbGciOiJkaXIiLCJlbmMiOiJBMTI4Q0JDLUhTMjU2In0..AAAAAAAAAAAAAAAAAAAAAA.AAAA.AAAA",
            &key()
        ),
        Err(CryptoError::Open)
    );
    // the same header and a vector of the length that AES-256-GCM takes
    assert_eq!(
        open("eyJhbGciOiJkaXIiLCJlbmMiOiJBMTI4Q0JDLUhTMjU2In0..AAAAAAAAAAAAAAAA.AAAA.AAAA", &key()),
        Err(CryptoError::Open)
    );
    // the header {"alg":"dir","enc":"A256GCM"} and a vector of another length
    assert_eq!(
        open("eyJhbGciOiJkaXIiLCJlbmMiOiJBMjU2R0NNIn0..AA.AAAA.AAAA", &key()),
        Err(CryptoError::Open)
    );
    // that header, a vector of the right length, and a tag that does not fit
    assert_eq!(
        open("eyJhbGciOiJkaXIiLCJlbmMiOiJBMjU2R0NNIn0..AAAAAAAAAAAAAAAA.AAAA.AAAA", &key()),
        Err(CryptoError::Open)
    );
    // no header at all
    assert_eq!(open("..AAAAAAAAAAAAAAAA..", &key()), Err(CryptoError::Open));
}

#[test]
fn envelope_without_a_vector_is_refused() {
    // the header {"alg":"dir","enc":"A256GCM"}, no key, no vector, no ciphertext, a tag
    assert_eq!(
        open("eyJhbGciOiJkaXIiLCJlbmMiOiJBMjU2R0NNIn0....AAAA", &key()),
        Err(CryptoError::Open)
    );
    assert_eq!(
        open("eyJhbGciOiJkaXIiLCJlbmMiOiJBMjU2R0NNIn0...AAAA", &key()),
        Err(CryptoError::Open)
    );
    // a sealed envelope whose vector was taken out
    let token = seal(b"payload", &key(), &header()).unwrap();
    let mut parts: Vec<String> = token.split('.').map(|part| part.to_string()).collect();
    parts[2] = String::new();
    assert_eq!(open(&parts.join("."), &key()), Err(CryptoError::Open));
    // one with a vector of another length
    let mut parts: Vec<String> = token.split('.').map(|part| part.to_string()).collect();
    parts[2] = "AAAA".to_string();
    assert_eq!(open(&parts.join("."), &key()), Err(CryptoError::Open));
}

#[test]
fn header_of_a_sealed_envelope_names_its_algorithms() {
    let token = seal(b"payload", &key(), &header()).unwrap();
    assert!(header_names(&token, "alg", "dir"));
    assert!(header_names(&token, "enc", "A256GCM"));
    assert!(!header_names(&token, "alg", "ECDH-ES"));
    assert!(!header_names(&token, "zip", "DEF"));
    assert!(!header_names(&token, "clevis", "trustee"));
    assert!(!header_names("no envelope", "alg", "dir"));
}

#[test]
fn sealed_envelope_is_told_from_others() {
    let token = seal(b"payload", &key(), &header()).unwrap();
    assert!(is_sealed(&token, b"payload", &key(), &header()));
    assert!(!is_sealed(&token, b"another payload", &key(), &header()));
    assert!(!is_sealed(&token, b"payload", &other_key(), &header()));
    let mut other = header();
    other.num_retries = None;
    assert!(!is_sealed(&token, b"payload", &key(), &other));
    assert!(!is_sealed("a.b.0123456789abcdef.d.e", b"payload", &key(), &header()));
    assert!(!is_sealed("", b"", &key(), &header()));
}

#[test]
fn metadata_is_compared_member_by_member() {
    assert!(header().same_as(&header()));
    let mut other = header();
    other.pin = "tang".to_string();
    assert!(!header().same_as(&other));
    let mut other = header();
    other.servers.swap(0, 1);
    assert!(!header().same_as(&other));
    let mut other = header();
    other.servers.pop();
    assert!(!header().same_as(&other));
    let mut other = header();
    other.servers[1].cert = "PEM".to_string();
    assert!(!header().same_as(&other));
    let mut other = header();
    other.path = "p".to_string();
    assert!(!header().same_as(&other));
    let mut other = header();
    other.initdata = None;
    assert!(!header().same_as(&other));
    let mut other = header();
    other.num_retries = Some(NumRetries::Infinity);
    assert!(!header().same_as(&other));
    let mut other = header();
    other.num_retries = Some(NumRetries::Finite(4));
    assert!(!header().same_as(&other));
    let mut left = header();
    left.num_retries = None;
    let mut right = header();
    right.num_retries = None;
    assert!(left.same_as(&right));
}

#[test]
fn metadata_that_would_not_read_back_is_not_sealed() {
    // a policy without an attempt is refused when it is read
    let mut unreadable = header();
    unreadable.num_retries = Some(NumRetries::Finite(0));
    assert_eq!(seal(b"payload", &key(), &unreadable), Err(CryptoError::Seal));
}

#[test]
fn bounds_of_what_is_sealed() {
    assert_eq!(MAX_SEALED_BYTES, 2147483647);
    assert_eq!(MAX_METADATA_BYTES, 16777216);
}

#[test]
fn size_of_metadata() {
    assert!(header().is_small());
    // pin 7, path 16, one server with an address of n bytes and one more byte
    let room = MAX_METADATA_BYTES - 7 - 16 - 1;
    let mut large = header();
    large.initdata = None;
    large.servers = vec![Server { url: "u".repeat(room), cert: String::new() }];
    assert!(large.is_small());
    large.servers[0].cert = "c".to_string();
    assert!(!large.is_small());
    large.servers[0].cert = String::new();
    large.initdata = Some("\u{e9}".to_string());
    assert!(!large.is_small());
    large.initdata = None;
    large.servers.push(Server { url: String::new(), cert: String::new() });
    assert!(!large.is_small());
}

#[test]
fn metadata_that_is_not_small_is_not_sealed() {
    let mut large = header();
    large.path = "p".repeat(MAX_METADATA_BYTES);
    assert_eq!(seal(b"payload", &key(), &large), Err(CryptoError::Seal));
    large.path = "p".repeat(1 << 20);
    let token = seal(b"payload", &key(), &large).unwrap();
    assert_eq!(embedded_header(&token).unwrap().path.len(), 1 << 20);
    assert_eq!(open(&token, &key()), Ok(b"payload".to_vec()));
}
