//! The local token exchange: the Basic credential for the local service, the
//! fields read from its entitlements answer and from the public version
//! answer, and the remote headers built from them.
use crate::errors::{err_view, ErrorKind, ValClientError};
use crate::text::{concat, is_valid_header_value, split_on, split_text, valid_header_value};
use base64::Engine;
use vstd::prelude::*;
use vstd::string::*;

verus! {

#[verifier::external_type_specification]
#[verifier::external_body]
pub struct ExJsonValue(json::JsonValue);

#[verifier::external_type_specification]
#[verifier::external_body]
pub struct ExJsonError(json::Error);

/// Whether the json crate's parser accepts `text` as a JSON document.
pub uninterp spec fn json_accepts(text: Seq<char>) -> bool;

/// What the standard base64 engine (with padding) makes of the bytes of `text`.
pub uninterp spec fn base64_of(text: Seq<char>) -> Seq<char>;

/// Relies on `json::parse`: it succeeds or fails on the text alone.
#[verifier::external_body]
fn parse_json(text: &str) -> (r: Result<json::JsonValue, json::Error>)
    ensures
        r is Ok <==> json_accepts(text@),
{
    json::parse(text)
}

/// The text of the string member `key` of the JSON document `text`; `None`
/// where the text is no JSON document or that member is missing or no string.
pub uninterp spec fn json_str_member(text: Seq<char>, key: Seq<char>) -> Option<Seq<char>>;

/// The text of the string member `key` of the member `data` of the JSON
/// document `text`; `None` where there is no such string.
pub uninterp spec fn json_data_str_member(text: Seq<char>, key: Seq<char>) -> Option<Seq<char>>;

/// Relies on `json::parse`, `JsonValue`'s `Index<&str>` (the member, or null
/// where it is missing or the value is no object) and `JsonValue::as_str`
/// (the text of a string value, `None` for any other value).
#[verifier::external_body]
fn str_member(text: &str, key: &str) -> (r: Option<String>)
    ensures
        opt_view(r) == json_str_member(text@, key@),
{
    match json::parse(text) {
        Ok(v) => v[key].as_str().map(String::from),
        Err(_) => None,
    }
}

/// Relies on the same three json functions as `str_member`, indexing by
/// `data` and then by `key`.
#[verifier::external_body]
fn data_str_member(text: &str, key: &str) -> (r: Option<String>)
    ensures
        opt_view(r) == json_data_str_member(text@, key@),
{
    match json::parse(text) {
        Ok(v) => v["data"][key].as_str().map(String::from),
        Err(_) => None,
    }
}

/// Relies on `json::Error`'s `Display`: a description of the parse error.
#[verifier::external_body]
fn json_error_text(e: &json::Error) -> String {
    e.to_string()
}

/// Relies on `base64::engine::general_purpose::STANDARD.encode`, applied to
/// the UTF-8 bytes of `text` (its length check cannot fail on a text that
/// fits in memory).
#[verifier::external_body]
fn encode_base64(text: &str) -> (r: String)
    ensures
        r@ == base64_of(text@),
{
    base64::engine::general_purpose::STANDARD.encode(text)
}

/// One HTTP header.
#[derive(Debug)]
pub struct Header {
    pub name: String,
    pub value: String,
}

impl Header {
    pub open spec fn view(&self) -> (Seq<char>, Seq<char>) {
        (self.name@, self.value@)
    }
}

/// A list of headers as (name, value) texts.
pub open spec fn headers_view(h: Seq<Header>) -> Seq<(Seq<char>, Seq<char>)> {
    h.map_values(|x: Header| x@)
}

pub open spec fn opt_view(o: Option<String>) -> Option<Seq<char>> {
    match o {
        Some(s) => Some(s@),
        None => None,
    }
}

fn header(name: &str, value: String) -> (r: Header)
    ensures
        r@ == (name@, value@),
{
    Header { name: String::from_str(name), value }
}

/// The headers that the local service's requests carry: Basic authentication
/// with the fixed user `riot` and the credential file's password.
pub open spec fn local_headers_spec(password: Seq<char>) -> Seq<(Seq<char>, Seq<char>)> {
    seq![("Authorization"@, "Basic "@ + base64_of("riot:"@ + password))]
}

/// The Basic-authentication header for the local service.
pub fn local_auth_headers(password: &str) -> (r: Vec<Header>)
    ensures
        headers_view(r@) == local_headers_spec(password@),
{
    let credential = concat("riot:", password);
    let encoded = encode_base64(credential.as_str());
    let value = concat("Basic ", encoded.as_str());
    let mut r: Vec<Header> = Vec::new();
    r.push(header("Authorization", value));
    assert(headers_view(r@) =~= local_headers_spec(password@));
    r
}

/// The path of the local entitlements request under the local base URL.
pub open spec fn entitlements_url_spec(local_base: Seq<char>) -> Seq<char> {
    local_base + "/entitlements/v1/token"@
}

/// The URL of the local entitlements request.
pub fn entitlements_url(local_base: &str) -> (r: String)
    ensures
        r@ == entitlements_url_spec(local_base@),
{
    concat(local_base, "/entitlements/v1/token")
}

/// The string members that the entitlements answer is read for.
#[derive(Debug)]
pub struct EntitlementFields {
    pub subject: Option<String>,
    pub access_token: Option<String>,
    pub token: Option<String>,
}

/// The string members of `data` that the version answer is read for.
#[derive(Debug)]
pub struct VersionFields {
    pub branch: Option<String>,
    pub build_version: Option<String>,
    pub version: Option<String>,
}

fn json_parse_error(e: &json::Error) -> (r: ValClientError)
    ensures
        err_view(r) == (ErrorKind::JsonParse, "Failed to parse json"@),
{
    let text = json_error_text(e);
    ValClientError::with_kind(ErrorKind::JsonParse, "Failed to parse json", text.as_str())
}

/// Reads `subject`, `accessToken` and `token` from the entitlements answer.
/// Fails exactly when the answer is not JSON.
pub fn read_entitlement_fields(body: &str) -> (r: Result<EntitlementFields, ValClientError>)
    ensures
        r is Ok <==> json_accepts(body@),
        r matches Err(e) ==> err_view(e) == (ErrorKind::JsonParse, "Failed to parse json"@),
        r matches Ok(f) ==> {
            &&& opt_view(f.subject) == json_str_member(body@, "subject"@)
            &&& opt_view(f.access_token) == json_str_member(body@, "accessToken"@)
            &&& opt_view(f.token) == json_str_member(body@, "token"@)
        },
{
    match parse_json(body) {
        Ok(_) => Ok(
            EntitlementFields {
                subject: str_member(body, "subject"),
                access_token: str_member(body, "accessToken"),
                token: str_member(body, "token"),
            },
        ),
        Err(e) => Err(json_parse_error(&e)),
    }
}

/// Reads `data.branch`, `data.buildVersion` and `data.version` from the
/// version answer. Fails exactly when the answer is not JSON.
pub fn read_version_fields(body: &str) -> (r: Result<VersionFields, ValClientError>)
    ensures
        r is Ok <==> json_accepts(body@),
        r matches Err(e) ==> err_view(e) == (ErrorKind::JsonParse, "Failed to parse json"@),
        r matches Ok(f) ==> {
            &&& opt_view(f.branch) == json_data_str_member(body@, "branch"@)
            &&& opt_view(f.build_version) == json_data_str_member(body@, "buildVersion"@)
            &&& opt_view(f.version) == json_data_str_member(body@, "version"@)
        },
{
    match parse_json(body) {
        Ok(_) => Ok(
            VersionFields {
                branch: data_str_member(body, "branch"),
                build_version: data_str_member(body, "buildVersion"),
                version: data_str_member(body, "version"),
            },
        ),
        Err(e) => Err(json_parse_error(&e)),
    }
}

/// What the entitlement fields give: subject, access token and entitlement
/// token, or the first that is missing as an error.
pub open spec fn entitlement_outcome(
    subject: Option<Seq<char>>,
    access_token: Option<Seq<char>>,
    token: Option<Seq<char>>,
) -> Result<(Seq<char>, Seq<char>, Seq<char>), (ErrorKind, Seq<char>)> {
    if subject is None {
        Err((ErrorKind::MissingField, "failed to get puuid"@))
    } else if access_token is None {
        Err((ErrorKind::MissingField, "failed to get access token"@))
    } else if token is None {
        Err((ErrorKind::MissingField, "failed to get entitlement token"@))
    } else {
        Ok((subject->0, access_token->0, token->0))
    }
}

/// What an entitlements answer that parses as JSON gives.
pub open spec fn entitlements_of(body: Seq<char>) -> Result<
    (Seq<char>, Seq<char>, Seq<char>),
    (ErrorKind, Seq<char>),
> {
    entitlement_outcome(
        json_str_member(body, "subject"@),
        json_str_member(body, "accessToken"@),
        json_str_member(body, "token"@),
    )
}

/// The subject, access token and entitlement token, each of which must be
/// present.
pub fn entitlement_strings(ent: EntitlementFields) -> (r: Result<
    (String, String, String),
    ValClientError,
>)
    ensures
        entitlement_outcome(opt_view(ent.subject), opt_view(ent.access_token), opt_view(ent.token))
            == match r {
            Ok((s, a, t)) => Ok::<(Seq<char>, Seq<char>, Seq<char>), (ErrorKind, Seq<char>)>(
                (s@, a@, t@),
            ),
            Err(e) => Err(err_view(e)),
        },
{
    let subject = match ent.subject {
        Some(s) => s,
        None => {
            return Err(
                missing_field(
                    "failed to get puuid",
                    "failed to get puuid string from entitlements json",
                ),
            );
        },
    };
    let access_token = match ent.access_token {
        Some(s) => s,
        None => {
            return Err(
                missing_field(
                    "failed to get access token",
                    "could not convert accessToken from entitlements json to string",
                ),
            );
        },
    };
    let token = match ent.token {
        Some(s) => s,
        None => {
            return Err(
                missing_field(
                    "failed to get entitlement token",
                    "could not convert token from entitlements json to string",
                ),
            );
        },
    };
    Ok((subject, access_token, token))
}

/// Whether an entitlements answer is JSON that holds the three string
/// members, so that the handshake goes on to the version request.
pub fn entitlements_usable(body: &str) -> (r: bool)
    ensures
        r == (json_accepts(body@) && entitlements_of(body@) is Ok),
{
    match read_entitlement_fields(body) {
        Ok(f) => entitlement_strings(f).is_ok(),
        Err(_) => false,
    }
}

/// `{branch}-shipping-{build}-{fourth segment of version}`, or `None` where
/// `version` has fewer than four `.`-separated segments.
pub open spec fn client_version_spec(branch: Seq<char>, build: Seq<char>, version: Seq<char>) -> Option<
    Seq<char>,
> {
    let segments = split_on(version, '.');
    if segments.len() >= 4 {
        Some(branch + "-shipping-"@ + build + "-"@ + segments[3])
    } else {
        None
    }
}

/// What the version fields give: the client version text, or the error.
pub open spec fn client_version_outcome(
    branch: Option<Seq<char>>,
    build: Option<Seq<char>>,
    version: Option<Seq<char>>,
) -> Result<Seq<char>, (ErrorKind, Seq<char>)> {
    if branch is None {
        Err((ErrorKind::MissingField, "failed to get version branch"@))
    } else if build is None {
        Err((ErrorKind::MissingField, "failed to get build version"@))
    } else if version is None {
        Err((ErrorKind::MissingField, "failed to get version number"@))
    } else {
        match client_version_spec(branch->0, build->0, version->0) {
            Some(v) => Ok(v),
            None => Err((ErrorKind::VersionFormat, "failed to get version number"@)),
        }
    }
}

/// What a version answer that parses as JSON gives.
pub open spec fn version_of(body: Seq<char>) -> Result<Seq<char>, (ErrorKind, Seq<char>)> {
    client_version_outcome(
        json_data_str_member(body, "branch"@),
        json_data_str_member(body, "buildVersion"@),
        json_data_str_member(body, "version"@),
    )
}

fn missing_field(data: &str, debug: &str) -> (e: ValClientError)
    ensures
        e.kind == ErrorKind::MissingField,
        e.data@ == data@,
{
    ValClientError::with_kind(ErrorKind::MissingField, data, debug)
}

/// Composes the client version header value from the version fields.
pub fn client_version(fields: &VersionFields) -> (r: Result<String, ValClientError>)
    ensures
        client_version_outcome(
            opt_view(fields.branch),
            opt_view(fields.build_version),
            opt_view(fields.version),
        ) == match r {
            Ok(s) => Ok::<Seq<char>, (ErrorKind, Seq<char>)>(s@),
            Err(e) => Err(err_view(e)),
        },
{
    let branch = match &fields.branch {
        Some(b) => b,
        None => {
            return Err(
                missing_field(
                    "failed to get version branch",
                    "could not convert branch from version json to str",
                ),
            );
        },
    };
    let build = match &fields.build_version {
        Some(b) => b,
        None => {
            return Err(
                missing_field(
                    "failed to get build version",
                    "could not convert buildVersion from version json to str",
                ),
            );
        },
    };
    let version = match &fields.version {
        Some(v) => v,
        None => {
            return Err(
                missing_field(
                    "failed to get version number",
                    "could not convert version number from version json to str",
                ),
            );
        },
    };
    let segments = split_text(version.as_str(), '.');
    proof {
        assert(segments@.len() == split_on(version@, '.').len());
    }
    if segments.len() < 4 {
        return Err(
            ValClientError::with_kind(
                ErrorKind::VersionFormat,
                "failed to get version number",
                "could not get 4th element of version number",
            ),
        );
    }
    assert(segments@[3]@ == split_on(version@, '.')[3]);
    let mut s = concat(branch.as_str(), "-shipping-");
    s.append(build.as_str());
    s.append("-");
    s.append(segments[3].as_str());
    Ok(s)
}

/// The remote headers: bearer token, entitlement token, client platform and
/// client version.
pub open spec fn remote_headers_spec(
    access_token: Seq<char>,
    token: Seq<char>,
    platform: Seq<char>,
    version: Seq<char>,
) -> Seq<(Seq<char>, Seq<char>)> {
    seq![
        ("Authorization"@, "Bearer "@ + access_token),
        ("X-Riot-Entitlements-JWT"@, token),
        ("X-Riot-ClientPlatform"@, platform),
        ("X-Riot-ClientVersion"@, version),
    ]
}

/// Every value of a header list can be sent.
pub open spec fn all_valid(h: Seq<(Seq<char>, Seq<char>)>) -> bool {
    forall|i: int| 0 <= i < h.len() ==> valid_header_value(#[trigger] h[i].1)
}

/// What the entitlement and version fields give: the player's id with the
/// remote headers, or the error. Missing entitlement fields are found before
/// anything of the version is looked at.
pub open spec fn session_outcome(
    subject: Option<Seq<char>>,
    access_token: Option<Seq<char>>,
    token: Option<Seq<char>>,
    version: Result<Seq<char>, (ErrorKind, Seq<char>)>,
    platform: Seq<char>,
) -> Result<(Seq<char>, Seq<(Seq<char>, Seq<char>)>), (ErrorKind, Seq<char>)> {
    match entitlement_outcome(subject, access_token, token) {
        Err(x) => Err(x),
        Ok((s, a, t)) => match version {
            Err(x) => Err(x),
            Ok(v) => {
                let h = remote_headers_spec(a, t, platform, v);
                if all_valid(h) {
                    Ok((s, h))
                } else {
                    Err((ErrorKind::InvalidHeaderValue, "Failed to parse header value"@))
                }
            },
        },
    }
}

/// What an entitlements answer and a version answer, both JSON, give.
pub open spec fn session_of(ent_body: Seq<char>, ver_body: Seq<char>, platform: Seq<char>) -> Result<
    (Seq<char>, Seq<(Seq<char>, Seq<char>)>),
    (ErrorKind, Seq<char>),
> {
    session_outcome(
        json_str_member(ent_body, "subject"@),
        json_str_member(ent_body, "accessToken"@),
        json_str_member(ent_body, "token"@),
        version_of(ver_body),
        platform,
    )
}

/// An entitlements answer without a string `token` ends the handshake with a
/// missing-field error, whatever else it and the version answer hold.
pub proof fn lemma_missing_token_fails(
    subject: Option<Seq<char>>,
    access_token: Option<Seq<char>>,
    version: Result<Seq<char>, (ErrorKind, Seq<char>)>,
    platform: Seq<char>,
)
    ensures
        session_outcome(subject, access_token, None, version, platform) is Err,
        session_outcome(subject, access_token, None, version, platform)->Err_0.0
            == ErrorKind::MissingField,
{
}

fn checked_header(name: &str, value: String) -> (r: Result<Header, ValClientError>)
    ensures
        r matches Ok(h) ==> h@ == (name@, value@) && valid_header_value(value@),
        r matches Err(e) ==> err_view(e) == (ErrorKind::InvalidHeaderValue, "Failed to parse header value"@)
            && !valid_header_value(value@),
{
    if is_valid_header_value(value.as_str()) {
        Ok(header(name, value))
    } else {
        Err(
            ValClientError::with_kind(
                ErrorKind::InvalidHeaderValue,
                "Failed to parse header value",
                "header value holds a character that headers cannot carry",
            ),
        )
    }
}

/// The player's id and the remote headers, from the entitlement fields, the
/// version fields and the client platform descriptor.
pub fn remote_session(ent: EntitlementFields, ver: &VersionFields, platform: &str) -> (r: Result<
    (String, Vec<Header>),
    ValClientError,
>)
    ensures
        session_outcome(
            opt_view(ent.subject),
            opt_view(ent.access_token),
            opt_view(ent.token),
            client_version_outcome(
                opt_view(ver.branch),
                opt_view(ver.build_version),
                opt_view(ver.version),
            ),
            platform@,
        ) == match r {
            Ok((p, h)) => Ok::<(Seq<char>, Seq<(Seq<char>, Seq<char>)>), (ErrorKind, Seq<char>)>(
                (p@, headers_view(h@)),
            ),
            Err(e) => Err(err_view(e)),
        },
{
    let (subject, access_token, token) = match entitlement_strings(ent) {
        Ok(t) => t,
        Err(e) => {
            return Err(e);
        },
    };
    let version = match client_version(ver) {
        Ok(v) => v,
        Err(e) => {
            return Err(e);
        },
    };
    let ghost spec_h = remote_headers_spec(access_token@, token@, platform@, version@);
    let bearer = match checked_header("Authorization", concat("Bearer ", access_token.as_str())) {
        Ok(h) => h,
        Err(e) => {
            assert(!valid_header_value(spec_h[0].1));
            return Err(e);
        },
    };
    let jwt = match checked_header("X-Riot-Entitlements-JWT", token) {
        Ok(h) => h,
        Err(e) => {
            assert(!valid_header_value(spec_h[1].1));
            return Err(e);
        },
    };
    let plat = match checked_header("X-Riot-ClientPlatform", String::from_str(platform)) {
        Ok(h) => h,
        Err(e) => {
            assert(!valid_header_value(spec_h[2].1));
            return Err(e);
        },
    };
    let ver_h = match checked_header("X-Riot-ClientVersion", version) {
        Ok(h) => h,
        Err(e) => {
            assert(!valid_header_value(spec_h[3].1));
            return Err(e);
        },
    };
    let mut headers: Vec<Header> = Vec::new();
    headers.push(bearer);
    headers.push(jwt);
    headers.push(plat);
    headers.push(ver_h);
    assert(headers_view(headers@) =~= spec_h);
    Ok((subject, headers))
}

} // verus!
