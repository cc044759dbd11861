//! The client: credential descriptor, region and shard, endpoints and the
//! authenticated session.
use crate::auth::Auth;
use crate::errors::{err_view, ErrorKind, ValClientError};
use crate::handshake::{
    entitlement_strings, entitlements_of, entitlements_url, entitlements_url_spec, headers_view,
    json_accepts, local_auth_headers, local_headers_spec, read_entitlement_fields,
    read_version_fields, remote_session, session_of, EntitlementFields, Header,
};
use crate::lockfile::LockfileData;
use crate::text::valid_header_value;
use crate::resources::{
    code_of, default_region_shard, default_shard_region, local_endpoint, region_of, Region,
    Resources,
};
use vstd::prelude::*;
use vstd::string::*;

verus! {

/// The player's id with the headers for remote calls and for local calls.
#[derive(Debug)]
pub struct UserAuthentication {
    pub puuid: String,
    pub headers: Vec<Header>,
    pub local_headers: Vec<Header>,
}

impl UserAuthentication {
    pub fn new(puuid: String, headers: Vec<Header>, local_headers: Vec<Header>) -> (r: Self)
        ensures
            r.puuid == puuid,
            r.headers == headers,
            r.local_headers == local_headers,
    {
        Self { puuid, headers, local_headers }
    }

    /// No session yet: no id and no headers.
    pub open spec fn is_empty(&self) -> bool {
        &&& self.puuid@.len() == 0
        &&& self.headers@.len() == 0
        &&& self.local_headers@.len() == 0
    }

    fn empty() -> (r: Self)
        ensures
            r.is_empty(),
    {
        Self { puuid: String::new(), headers: Vec::new(), local_headers: Vec::new() }
    }
}

/// The shard that a region code's endpoints use.
pub open spec fn resolved_shard(code: Seq<char>) -> Seq<char> {
    match default_region_shard(region_of(code)) {
        Some(s) => code_of(s),
        None => code,
    }
}

/// The region that a region code's endpoints use.
pub open spec fn resolved_region(code: Seq<char>) -> Seq<char> {
    match default_shard_region(region_of(code)) {
        Some(r) => code_of(r),
        None => code,
    }
}

/// The client-platform descriptor sent with remote calls: base64 of a fixed
/// JSON description of the platform.
pub open spec fn client_platform_spec() -> Seq<char> {
    "ew0KCSJwbGF0Zm9ybVR5cGUiOiAiUEMiLA0KCSJwbGF0Zm9ybU9TIjogIldpbmRvd3MiLA0KCSJwbGF0Zm9ybU9TVmVyc2lvbiI6ICIxMC4wLjE5MDQyLjEuMjU2LjY0Yml0IiwNCgkicGxhdGZvcm1DaGlwc2V0IjogIlVua25vd24iDQp9"@
}

/// The fixed platform descriptor is a valid header value.
proof fn lemma_platform_is_header_value()
    ensures
        valid_header_value(client_platform_spec()),
{
    reveal_strlit("ew0KCSJwbGF0Zm9ybVR5cGUiOiAiUEMiLA0KCSJwbGF0Zm9ybU9TIjogIldpbmRvd3MiLA0KCSJwbGF0Zm9ybU9TVmVyc2lvbiI6ICIxMC4wLjE5MDQyLjEuMjU2LjY0Yml0IiwNCgkicGxhdGZvcm1DaGlwc2V0IjogIlVua25vd24iDQp9");
}

#[derive(Debug)]
pub struct ValClient {
    pub resources: Resources,
    pub lockfile: LockfileData,
    pub user_auth: UserAuthentication,
    pub player_name: String,
    pub player_tag: String,
    pub region: String,
    pub shard: String,
    pub client_platform: String,
    pub auth: Auth,
    pub has_auth: bool,
}

impl ValClient {
    /// A client for `region` on the service that `lockfile` describes. With
    /// `auth_opt`, `activate` authenticates with those credentials; without,
    /// through the local service. Fails on a text that is no region code.
    pub fn new(region: &String, auth_opt: Option<Auth>, lockfile: LockfileData) -> (r: Result<
        Self,
        ValClientError,
    >)
        ensures
            r is Ok <==> region_of(region@) != Region::Invalid,
            r matches Err(e) ==> err_view(e) == (ErrorKind::InvalidRegion, "Invalid region chosen"@),
            r matches Ok(c) ==> {
                &&& c.region@ == resolved_region(region@)
                &&& c.shard@ == resolved_shard(region@)
                &&& c.resources.has_default_overrides()
                &&& c.client_platform@ == client_platform_spec()
                &&& valid_header_value(c.client_platform@)
                &&& c.resources.port_spec() == lockfile.port@
                &&& c.resources.region_spec() == c.region@
                &&& c.resources.shard_spec() == c.shard@
                &&& c.lockfile == lockfile
                &&& c.user_auth.is_empty()
                &&& c.player_name@.len() == 0
                &&& c.player_tag@.len() == 0
                &&& c.has_auth == auth_opt is Some
                &&& (auth_opt matches Some(a) ==> c.auth == a)
                &&& (auth_opt is None ==> c.auth.username@.len() == 0
                    && c.auth.password@.len() == 0)
            },
    {
        let reg = Region::from(region.as_str());
        if reg == Region::Invalid {
            return Err(
                ValClientError::with_kind(
                    ErrorKind::InvalidRegion,
                    "Invalid region chosen",
                    "region doesnt match any valid choices",
                ),
            );
        }
        let (auth, has_auth) = match auth_opt {
            Some(a) => (a, true),
            None => (Auth::none(), false),
        };
        let mut resources = Resources::new();
        let shard = match resources.region_shard_override.get(reg) {
            Some(s) => s.to_string(),
            None => region.clone(),
        };
        let effective_region = match resources.shard_region_override.get(reg) {
            Some(r) => r.to_string(),
            None => region.clone(),
        };
        resources.update_endpoints(lockfile.port.clone(), effective_region.clone(), shard.clone());
        proof {
            lemma_platform_is_header_value();
        }
        Ok(
            ValClient {
                resources,
                lockfile,
                user_auth: UserAuthentication::empty(),
                player_name: String::new(),
                player_tag: String::new(),
                region: effective_region,
                shard,
                client_platform: String::from_str(
                    "ew0KCSJwbGF0Zm9ybVR5cGUiOiAiUEMiLA0KCSJwbGF0Zm9ybU9TIjogIldpbmRvd3MiLA0KCSJwbGF0Zm9ybU9TVmVyc2lvbiI6ICIxMC4wLjE5MDQyLjEuMjU2LjY0Yml0IiwNCgkicGxhdGZvcm1DaGlwc2V0IjogIlVua25vd24iDQp9",
                ),
                auth,
                has_auth,
            },
        )
    }

    /// The URL that the local entitlements request goes to.
    pub fn local_token_url(&self) -> (r: String)
        ensures
            r@ == entitlements_url_spec(local_endpoint(self.resources.port_spec())),
    {
        let base = self.resources.get_base_local_endpoint();
        entitlements_url(base.as_str())
    }

    /// The headers that requests to the local service carry.
    pub fn local_request_headers(&self) -> (r: Vec<Header>)
        ensures
            headers_view(r@) == local_headers_spec(self.lockfile.password@),
    {
        local_auth_headers(self.lockfile.password.as_str())
    }

    /// Populates the session. With external credentials this runs their own
    /// authentication (which fails); otherwise it completes the local
    /// handshake from the two answers: `entitlements_body` of the local
    /// entitlements request and `version_body` of the public version
    /// request, or the error that either request ended in. The entitlements
    /// answer is checked in full before the version answer is looked at. A
    /// failure leaves the client unchanged.
    pub fn activate(
        &mut self,
        entitlements_body: Result<String, ValClientError>,
        version_body: Result<String, ValClientError>,
    ) -> (r: Result<(), ValClientError>)
        ensures
            r is Err ==> *final(self) == *old(self),
            old(self).has_auth ==> (r is Err && err_view(r->Err_0) == (
                ErrorKind::Unsupported,
                "Authentication failed"@,
            )),
            !old(self).has_auth && entitlements_body is Err ==> r == Err::<(), ValClientError>(
                entitlements_body->Err_0,
            ),
            !old(self).has_auth && entitlements_body is Ok && !json_accepts(entitlements_body->Ok_0@) ==> (r is Err
                && err_view(r->Err_0) == (ErrorKind::JsonParse, "Failed to parse json"@)),
            !old(self).has_auth && entitlements_body is Ok && json_accepts(entitlements_body->Ok_0@)
                && entitlements_of(entitlements_body->Ok_0@) is Err ==> (r is Err && err_view(r->Err_0)
                == entitlements_of(entitlements_body->Ok_0@)->Err_0),
            !old(self).has_auth && entitlements_body is Ok && json_accepts(entitlements_body->Ok_0@)
                && entitlements_of(entitlements_body->Ok_0@) is Ok && version_body is Err ==> r == Err::<
                (),
                ValClientError,
            >(version_body->Err_0),
            !old(self).has_auth && entitlements_body is Ok && json_accepts(entitlements_body->Ok_0@)
                && entitlements_of(entitlements_body->Ok_0@) is Ok && version_body is Ok && !json_accepts(version_body->Ok_0@)
                ==> (r is Err && err_view(r->Err_0) == (
                ErrorKind::JsonParse,
                "Failed to parse json"@,
            )),
            !old(self).has_auth && entitlements_body is Ok && json_accepts(entitlements_body->Ok_0@)
                && version_body is Ok && json_accepts(version_body->Ok_0@) ==> match session_of(
                entitlements_body->Ok_0@,
                version_body->Ok_0@,
                old(self).client_platform@,
            ) {
                Ok((p, h)) => r is Ok && final(self).user_auth.puuid@ == p && headers_view(
                    final(self).user_auth.headers@,
                ) == h,
                Err(x) => r is Err && err_view(r->Err_0) == x,
            },
            r is Ok ==> {
                &&& !old(self).has_auth
                &&& final(self).resources == old(self).resources
                &&& final(self).lockfile == old(self).lockfile
                &&& final(self).region == old(self).region
                &&& final(self).shard == old(self).shard
                &&& final(self).client_platform == old(self).client_platform
                &&& final(self).auth == old(self).auth
                &&& final(self).has_auth == old(self).has_auth
                &&& final(self).player_name == old(self).player_name
                &&& final(self).player_tag == old(self).player_tag
                &&& headers_view(final(self).user_auth.local_headers@) == local_headers_spec(
                    old(self).lockfile.password@,
                )
            },
    {
        if self.has_auth {
            let session = self.auth.authenticate()?;
            self.user_auth = session;
            return Ok(());
        }
        let ent_text = match entitlements_body {
            Ok(t) => t,
            Err(e) => {
                return Err(e);
            },
        };
        let ent = match read_entitlement_fields(ent_text.as_str()) {
            Ok(f) => f,
            Err(e) => {
                return Err(e);
            },
        };
        let (subject, access_token, token) = match entitlement_strings(ent) {
            Ok(t) => t,
            Err(e) => {
                return Err(e);
            },
        };
        let ver_text = match version_body {
            Ok(t) => t,
            Err(e) => {
                return Err(e);
            },
        };
        let ver = match read_version_fields(ver_text.as_str()) {
            Ok(f) => f,
            Err(e) => {
                return Err(e);
            },
        };
        let local_headers = self.local_request_headers();
        let checked = EntitlementFields {
            subject: Some(subject),
            access_token: Some(access_token),
            token: Some(token),
        };
        let (puuid, headers) = match remote_session(checked, &ver, self.client_platform.as_str()) {
            Ok(p) => p,
            Err(e) => {
                return Err(e);
            },
        };
        self.user_auth = UserAuthentication { puuid, headers, local_headers };
        Ok(())
    }
}

} // verus!
