use valclient::auth::Auth;
use valclient::client::{UserAuthentication, ValClient};
use valclient::errors::{ErrorKind, ValClientError};
use valclient::handshake::{
    client_version, entitlement_strings, entitlements_usable, local_auth_headers,
    read_entitlement_fields, read_version_fields, remote_session, EntitlementFields, Header,
    VersionFields,
};
use valclient::lockfile::LockfileData;
use valclient::resources::{derive_endpoints, Region, Resources};
use valclient::text::{is_valid_header_value, split_text, str_eq};

const ENTITLEMENTS: &str = r#"{"subject":"abc","accessToken":"tok","token":"jwt"}"#;
const VERSION: &str = r#"{"data":{"branch":"release","buildVersion":"B1","version":"1.2.3.456"}}"#;

fn lockfile() -> LockfileData {
    LockfileData::new("/tmp/lockfile".to_string(), "lockfile:1234:5678:pa55:https").unwrap()
}

fn client(region: &str) -> ValClient {
    ValClient::new(&region.to_string(), None, lockfile()).unwrap()
}

fn header_value<'a>(headers: &'a [Header], name: &str) -> Option<&'a str> {
    headers.iter().find(|h| h.name == name).map(|h| h.value.as_str())
}

#[test]
fn valid_region_codes_are_accepted() {
    for code in ["na", "eu", "latam", "br", "ap", "kr", "pbe"] {
        assert!(Region::is_valid_region(code), "{}", code);
    }
}

#[test]
fn other_region_texts_are_rejected() {
    for code in ["", "NA", "Na", "EU", "invalid", "nab", "n", " na", "na\n"] {
        assert!(!Region::is_valid_region(code), "{:?}", code);
    }
}

#[test]
fn region_codes_convert_both_ways() {
    assert_eq!(Region::from("latam"), Region::Latam);
    assert_eq!(Region::from("kr"), Region::Kr);
    assert_eq!(Region::from("xx"), Region::Invalid);
    assert_eq!(Region::Pbe.to_string(), "pbe");
    assert_eq!(Region::Invalid.to_string(), "invalid");
    for code in ["na", "eu", "latam", "br", "ap", "kr", "pbe"] {
        assert_eq!(Region::from(code).to_string(), code);
    }
}

#[test]
fn latam_uses_the_na_shard() {
    let c = client("latam");
    assert_eq!(c.shard, "na");
    assert_eq!(c.region, "na");
    assert_eq!(c.resources.get_base_endpoint(), "https://pd.na.a.pvp.net");
    assert_eq!(c.resources.get_base_glz_endpoint(), "https://glz-na-1.na.a.pvp.net");
}

#[test]
fn br_uses_the_na_shard_and_keeps_its_region() {
    let c = client("br");
    assert_eq!(c.shard, "na");
    assert_eq!(c.region, "br");
    assert_eq!(c.resources.get_base_glz_endpoint(), "https://glz-br-1.na.a.pvp.net");
}

#[test]
fn pbe_uses_the_na_region_and_keeps_its_shard() {
    let c = client("pbe");
    assert_eq!(c.region, "na");
    assert_eq!(c.shard, "pbe");
    assert_eq!(c.resources.get_base_glz_endpoint(), "https://glz-na-1.pbe.a.pvp.net");
    assert_eq!(c.resources.get_base_shared_endpoint(), "https://shared.pbe.a.pvp.net");
}

#[test]
fn region_without_override_is_kept() {
    let c = client("eu");
    assert_eq!(c.region, "eu");
    assert_eq!(c.shard, "eu");
    assert_eq!(c.resources.get_base_local_endpoint(), "https://127.0.0.1:5678");
    assert!(!c.has_auth);
    assert!(c.client_platform.starts_with("ew0KCSJwbGF0Zm9ybVR5cGUiOiAiUEMi"));
    assert!(is_valid_header_value(&c.client_platform));
    assert_eq!(c.user_auth.puuid, "");
    assert!(c.user_auth.headers.is_empty());
}

#[test]
fn invalid_region_fails_construction() {
    for code in ["", "NA", "invalid", "europe"] {
        let r = ValClient::new(&code.to_string(), None, lockfile());
        match r {
            Err(e) => {
                assert_eq!(e.kind, ErrorKind::InvalidRegion);
                assert_eq!(e.data, "Invalid region chosen");
                assert_eq!(e.debug, "region doesnt match any valid choices");
            }
            Ok(_) => panic!("accepted {:?}", code),
        }
    }
}

#[test]
fn override_tables_hold_the_defaults() {
    let r = Resources::new();
    assert_eq!(r.region_shard_override.get(Region::Latam), Some(Region::Na));
    assert_eq!(r.region_shard_override.get(Region::Br), Some(Region::Na));
    assert_eq!(r.region_shard_override.get(Region::Pbe), None);
    assert_eq!(r.shard_region_override.get(Region::Pbe), Some(Region::Na));
    assert_eq!(r.shard_region_override.get(Region::Latam), Some(Region::Na));
    assert_eq!(r.shard_region_override.get(Region::Br), None);
}

#[test]
fn derive_endpoints_for_na() {
    let e = derive_endpoints("7777", "na", "na");
    assert_eq!(e.local, "https://127.0.0.1:7777");
    assert_eq!(e.primary, "https://pd.na.a.pvp.net");
    assert_eq!(e.gateway, "https://glz-na-1.na.a.pvp.net");
    assert_eq!(e.shared, "https://shared.na.a.pvp.net");
}

#[test]
fn update_endpoints_recomputes_the_urls() {
    let mut r = Resources::new();
    r.update_endpoints("7777".to_string(), "na".to_string(), "na".to_string());
    assert_eq!(r.get_base_local_endpoint(), "https://127.0.0.1:7777");
    assert_eq!(r.get_base_endpoint(), "https://pd.na.a.pvp.net");
    assert_eq!(r.get_base_glz_endpoint(), "https://glz-na-1.na.a.pvp.net");
    assert_eq!(r.get_base_shared_endpoint(), "https://shared.na.a.pvp.net");
    r.update_endpoints("1".to_string(), "ap".to_string(), "kr".to_string());
    assert_eq!(r.get_base_local_endpoint(), "https://127.0.0.1:1");
    assert_eq!(r.get_base_glz_endpoint(), "https://glz-ap-1.kr.a.pvp.net");
    let all = r.endpoints();
    assert_eq!(all.primary, "https://pd.kr.a.pvp.net");
    assert_eq!(all.shared, "https://shared.kr.a.pvp.net");
}

#[test]
fn derive_endpoints_twice_gives_the_same_urls() {
    let a = derive_endpoints("7777", "na", "na");
    let b = derive_endpoints("7777", "na", "na");
    assert_eq!(a.local, b.local);
    assert_eq!(a.primary, b.primary);
    assert_eq!(a.gateway, b.gateway);
    assert_eq!(a.shared, b.shared);
}

#[test]
fn lockfile_fields_are_read_in_order() {
    let d = lockfile();
    assert_eq!(d.application, "lockfile");
    assert_eq!(d.pid, "1234");
    assert_eq!(d.port, "5678");
    assert_eq!(d.password, "pa55");
    assert_eq!(d.protocol, "https");
    assert_eq!(d.get_path_str(), "/tmp/lockfile");
}

#[test]
fn lockfile_with_four_fields_fails() {
    let r = LockfileData::new("p".to_string(), "lockfile:1234:5678:pa55");
    match r {
        Err(e) => assert_eq!(e.kind, ErrorKind::MalformedCredentialFile),
        Ok(_) => panic!("four fields accepted"),
    }
    assert!(LockfileData::new("p".to_string(), "").is_err());
}

#[test]
fn lockfile_extra_fields_are_ignored() {
    let d = LockfileData::new("p".to_string(), "a:b:c:d:e:f").unwrap();
    assert_eq!(d.protocol, "e");
    let d = LockfileData::new("p".to_string(), "::::").unwrap();
    assert_eq!(d.application, "");
    assert_eq!(d.protocol, "");
}

#[test]
fn split_text_keeps_empty_pieces() {
    assert_eq!(split_text("a::b", ':'), vec!["a", "", "b"]);
    assert_eq!(split_text("", ':'), vec![""]);
    assert_eq!(split_text("1.2.3.456", '.'), vec!["1", "2", "3", "456"]);
}

#[test]
fn text_helpers() {
    assert!(str_eq("abc", "abc"));
    assert!(!str_eq("abc", "abd"));
    assert!(is_valid_header_value("Bearer x\ty"));
    assert!(!is_valid_header_value("a\nb"));
    assert!(!is_valid_header_value("a\u{7f}"));
}

#[test]
fn local_headers_carry_basic_auth() {
    let h = local_auth_headers("pa55");
    assert_eq!(h.len(), 1);
    assert_eq!(h[0].name, "Authorization");
    assert_eq!(h[0].value, "Basic cmlvdDpwYTU1");
    let c = client("na");
    assert_eq!(c.local_request_headers()[0].value, "Basic cmlvdDpwYTU1");
    assert_eq!(c.local_token_url(), "https://127.0.0.1:5678/entitlements/v1/token");
}

#[test]
fn activate_builds_the_session() {
    let mut c = client("na");
    c.activate(Ok(ENTITLEMENTS.to_string()), Ok(VERSION.to_string())).unwrap();
    let s = &c.user_auth;
    assert_eq!(s.puuid, "abc");
    assert_eq!(header_value(&s.headers, "Authorization"), Some("Bearer tok"));
    assert_eq!(header_value(&s.headers, "X-Riot-Entitlements-JWT"), Some("jwt"));
    assert_eq!(
        header_value(&s.headers, "X-Riot-ClientVersion"),
        Some("release-shipping-B1-456")
    );
    assert_eq!(
        header_value(&s.headers, "X-Riot-ClientPlatform"),
        Some(c.client_platform.as_str())
    );
    assert_eq!(header_value(&s.local_headers, "Authorization"), Some("Basic cmlvdDpwYTU1"));
    assert_eq!(header_value(&s.headers, "X-Missing"), None);
}

#[test]
fn missing_token_fails_without_a_session() {
    let mut c = client("na");
    let body = r#"{"subject":"abc","accessToken":"tok"}"#.to_string();
    let e = c.activate(Ok(body), Ok(VERSION.to_string())).unwrap_err();
    assert_eq!(e.kind, ErrorKind::MissingField);
    assert_eq!(e.data, "failed to get entitlement token");
    assert_eq!(c.user_auth.puuid, "");
    assert!(c.user_auth.headers.is_empty());
    assert!(c.user_auth.local_headers.is_empty());
}

#[test]
fn missing_subject_fails() {
    let mut c = client("na");
    let body = r#"{"accessToken":"tok","token":"jwt"}"#.to_string();
    let e = c.activate(Ok(body), Ok(VERSION.to_string())).unwrap_err();
    assert_eq!(e.kind, ErrorKind::MissingField);
    assert_eq!(e.data, "failed to get puuid");
}

#[test]
fn non_string_token_is_missing() {
    let fields = read_entitlement_fields(r#"{"subject":"abc","accessToken":"tok","token":5}"#)
        .unwrap();
    assert_eq!(fields.subject.as_deref(), Some("abc"));
    assert_eq!(fields.token, None);
}

#[test]
fn malformed_json_fails_to_parse() {
    let mut c = client("na");
    let e = c.activate(Ok("{not json".to_string()), Ok(VERSION.to_string())).unwrap_err();
    assert_eq!(e.kind, ErrorKind::JsonParse);
    assert_eq!(e.data, "Failed to parse json");
    assert!(!e.debug.is_empty());
    let e = c.activate(Ok(ENTITLEMENTS.to_string()), Ok("".to_string())).unwrap_err();
    assert_eq!(e.kind, ErrorKind::JsonParse);
    assert!(read_version_fields("[1,").is_err());
}

#[test]
fn request_failure_is_passed_on() {
    let mut c = client("na");
    let e = c
        .activate(Err(ValClientError::request_failed("refused".to_string())), Ok(VERSION.to_string()))
        .unwrap_err();
    assert_eq!(e.kind, ErrorKind::RequestFailed);
    assert_eq!(e.debug, "refused");
    let e = c
        .activate(Ok(ENTITLEMENTS.to_string()), Err(ValClientError::request_failed("down".to_string())))
        .unwrap_err();
    assert_eq!(e.debug, "down");
    assert_eq!(c.user_auth.puuid, "");
}

#[test]
fn short_version_fails() {
    let v = VersionFields {
        branch: Some("release".to_string()),
        build_version: Some("B1".to_string()),
        version: Some("1.2.3".to_string()),
    };
    assert_eq!(client_version(&v).unwrap_err().kind, ErrorKind::VersionFormat);
    let mut c = client("na");
    let body = r#"{"data":{"branch":"release","buildVersion":"B1","version":"1.2"}}"#;
    let e = c.activate(Ok(ENTITLEMENTS.to_string()), Ok(body.to_string())).unwrap_err();
    assert_eq!(e.kind, ErrorKind::VersionFormat);
    assert_eq!(e.data, "failed to get version number");
}

#[test]
fn client_version_takes_the_fourth_segment() {
    let v = read_version_fields(VERSION).unwrap();
    assert_eq!(client_version(&v).unwrap(), "release-shipping-B1-456");
    let v = VersionFields {
        branch: Some("b".to_string()),
        build_version: Some("c".to_string()),
        version: Some("1.2.3.4.5".to_string()),
    };
    assert_eq!(client_version(&v).unwrap(), "b-shipping-c-4");
    let v = VersionFields { branch: None, build_version: Some("c".to_string()), version: None };
    assert_eq!(client_version(&v).unwrap_err().kind, ErrorKind::MissingField);
}

#[test]
fn invalid_header_value_fails() {
    let ent = EntitlementFields {
        subject: Some("abc".to_string()),
        access_token: Some("tok".to_string()),
        token: Some("bad\ntoken".to_string()),
    };
    let v = read_version_fields(VERSION).unwrap();
    let e = remote_session(ent, &v, "platform").unwrap_err();
    assert_eq!(e.kind, ErrorKind::InvalidHeaderValue);
    assert_eq!(e.data, "Failed to parse header value");
}

#[test]
fn remote_session_orders_the_headers() {
    let ent = read_entitlement_fields(ENTITLEMENTS).unwrap();
    let v = read_version_fields(VERSION).unwrap();
    let (id, h) = remote_session(ent, &v, "plat").unwrap();
    assert_eq!(id, "abc");
    let names: Vec<&str> = h.iter().map(|x| x.name.as_str()).collect();
    assert_eq!(
        names,
        vec!["Authorization", "X-Riot-Entitlements-JWT", "X-Riot-ClientPlatform", "X-Riot-ClientVersion"]
    );
    assert_eq!(h[2].value, "plat");
}

#[test]
fn external_credentials_are_not_supported() {
    let auth = Auth::new("user".to_string(), "pw".to_string());
    assert_eq!(auth.authenticate().err().unwrap().kind, ErrorKind::Unsupported);
    let mut c = ValClient::new(&"na".to_string(), Some(auth), lockfile()).unwrap();
    assert!(c.has_auth);
    assert_eq!(c.auth.username, "user");
    let e = c.activate(Ok(ENTITLEMENTS.to_string()), Ok(VERSION.to_string())).unwrap_err();
    assert_eq!(e.kind, ErrorKind::Unsupported);
    assert_eq!(e.data, "Authentication failed");
    assert_eq!(e.debug, "Username authentication is not supported yet");
    assert_eq!(c.user_auth.puuid, "");
}

#[test]
fn auth_none_is_empty() {
    let a = Auth::none();
    assert_eq!(a.username, "");
    assert_eq!(a.password, "");
}

#[test]
fn error_constructors() {
    let e = ValClientError::new("msg", "dbg");
    assert_eq!(e.kind, ErrorKind::Other);
    assert_eq!(e.data, "msg");
    assert_eq!(e.debug, "dbg");
    let e = ValClientError::credential_file("gone".to_string());
    assert_eq!(e.kind, ErrorKind::CredentialFile);
    let e = ValClientError::with_kind(ErrorKind::VersionFormat, "a", "b");
    assert_eq!(e.kind, ErrorKind::VersionFormat);
}

#[test]
fn user_authentication_new_keeps_its_parts() {
    let h = local_auth_headers("x");
    let u = UserAuthentication::new("id".to_string(), Vec::new(), h);
    assert_eq!(u.puuid, "id");
    assert!(u.headers.is_empty());
    assert_eq!(u.local_headers.len(), 1);
}

#[test]
fn missing_token_is_reported_before_a_failed_version_request() {
    let mut c = client("na");
    let body = r#"{"subject":"abc","accessToken":"tok"}"#.to_string();
    let e = c
        .activate(Ok(body), Err(ValClientError::request_failed("down".to_string())))
        .unwrap_err();
    assert_eq!(e.kind, ErrorKind::MissingField);
    assert_eq!(e.data, "failed to get entitlement token");
}

#[test]
fn missing_access_token_fails() {
    let ent = read_entitlement_fields(r#"{"subject":"abc","token":"jwt"}"#).unwrap();
    let e = entitlement_strings(ent).unwrap_err();
    assert_eq!(e.kind, ErrorKind::MissingField);
    assert_eq!(e.data, "failed to get access token");
}

#[test]
fn entitlements_usable_needs_all_three_members() {
    assert!(entitlements_usable(ENTITLEMENTS));
    assert!(!entitlements_usable(r#"{"subject":"abc","accessToken":"tok"}"#));
    assert!(!entitlements_usable("nope"));
    assert!(!entitlements_usable(r#"["abc"]"#));
}

#[test]
fn version_members_are_read_under_data() {
    let v = read_version_fields(r#"{"branch":"x","data":{"branch":"release","version":7}}"#)
        .unwrap();
    assert_eq!(v.branch.as_deref(), Some("release"));
    assert_eq!(v.build_version, None);
    assert_eq!(v.version, None);
    let e = client_version(&v).unwrap_err();
    assert_eq!(e.data, "failed to get build version");
}

#[test]
fn error_messages_of_the_constructors() {
    assert_eq!(ValClientError::request_failed("x".to_string()).data, "Request failed");
    assert_eq!(ValClientError::credential_file("x".to_string()).data, "Failed to fetch lockfile");
    let e = LockfileData::new("p".to_string(), "a:b").unwrap_err();
    assert_eq!(e.data, "Failed to read lockfile");
}
