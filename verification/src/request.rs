//! Request builder: assembling a fully formed, signed request description.
//!
//! A request is resolved from the base endpoint and escaped path segments,
//! gets its query string attached, and is decorated with the authentication
//! headers: application key, consumer key, timestamp, and the signature
//! computed over the exact URL and body text that will be sent.  The result
//! is a plain description of the request; executing it is the surrounding
//! application's job.

use vstd::prelude::*;
use vstd::string::StringExecFns;
use vstd::utf8::encode_utf8;
use crate::endpoint::{Endpoint, has_query_or_fragment, parsed_base_of, resolved_url,
    segments_bytes};
use crate::query::{encode_query, pairs_bytes, query_string};
use crate::sig::{build_sig, sig_of};
use crate::strutil::{dec_str, string_push, u64_to_dec};

verus! {

/// An HTTP method, as the client uses it.
#[derive(Clone, Copy, PartialEq, Eq, Structural, Debug)]
pub enum Method {
    Get,
    Post,
    Put,
    Delete,
}

impl Method {
    /// The uppercase verb, as it enters the signature.
    pub open spec fn name(self) -> Seq<char> {
        match self {
            Method::Get => "GET"@,
            Method::Post => "POST"@,
            Method::Put => "PUT"@,
            Method::Delete => "DELETE"@,
        }
    }

    /// The uppercase HTTP verb.
    pub fn as_str(&self) -> (r: &'static str)
        ensures
            r@ == self.name(),
    {
        match self {
            Method::Get => "GET",
            Method::Post => "POST",
            Method::Put => "PUT",
            Method::Delete => "DELETE",
        }
    }
}

/// A fully built request, ready to send: method, resolved URL, ordered
/// header list, and optional JSON body text.  Where two headers in the list
/// share a name, the later entry wins, matching header-map insertion.
pub struct SignedRequest {
    pub method: Method,
    pub url: String,
    pub headers: Vec<(String, String)>,
    pub body: Option<String>,
}

/// The views of a header list.
pub open spec fn pairs_view(v: Seq<(String, String)>) -> Seq<(Seq<char>, Seq<char>)> {
    v.map_values(|p: (String, String)| (p.0@, p.1@))
}

/// The full URL of a request: the base with every segment appended, then the
/// query string when there are query parameters.
pub open spec fn full_url_of(
    base: Seq<char>,
    path_start: int,
    segs: Seq<Seq<u8>>,
    query: Seq<(Seq<u8>, Seq<u8>)>,
) -> Seq<char> {
    let resolved = resolved_url(base, path_start, segs);
    if query.len() == 0 {
        resolved
    } else {
        resolved + seq!['?'] + query_string(query)
    }
}

/// The fixed User-Agent header every request carries.
pub open spec fn user_agent_header() -> (Seq<char>, Seq<char>) {
    ("User-Agent"@, "OVH-DATA-CLI/hyper/0.14"@)
}

/// The signed-request client: base endpoint and credentials, set once at
/// construction and immutable thereafter.
pub struct OVHapiV6Client {
    pub endpoint: Endpoint,
    pub application_key: String,
    pub application_secret: String,
    pub consumer_key: String,
}

impl OVHapiV6Client {
    /// The six authentication and content headers attached to a signed
    /// request, in insertion order: application key, consumer key, timestamp,
    /// signature over (secret, consumer key, method, url, body, timestamp),
    /// then Accept and Content-Type.
    pub open spec fn auth_headers(
        self,
        method: Method,
        url: Seq<char>,
        body_text: Seq<char>,
        server_time: u64,
    ) -> Seq<(Seq<char>, Seq<char>)> {
        seq![
            ("X-Ovh-Application"@, self.application_key@),
            ("X-Ovh-Consumer"@, self.consumer_key@),
            ("X-Ovh-Timestamp"@, dec_str(server_time as int)),
            (
                "X-Ovh-Signature"@,
                sig_of(
                    self.application_secret@,
                    self.consumer_key@,
                    method.name(),
                    url,
                    body_text,
                    dec_str(server_time as int),
                ),
            ),
            ("Accept"@, "application/json; charset=utf-8"@),
            ("Content-Type"@, "application/json; charset=utf-8"@),
        ]
    }

    /// The full URL this client resolves for given path segments and query.
    pub open spec fn request_url(self, path: Seq<String>, query: Seq<(String, String)>) -> Seq<
        char,
    > {
        full_url_of(
            self.endpoint.base@,
            self.endpoint.path_start as int,
            segments_bytes(path),
            pairs_bytes(query),
        )
    }

    /// Builds a client from a base endpoint URL and the credential tuple.
    /// The endpoint is normalized once, here; a string that does not parse as
    /// a usable base is rejected.
    pub fn new(
        endpoint_url: &str,
        application_key: String,
        application_secret: String,
        consumer_key: String,
    ) -> (r: Option<OVHapiV6Client>)
        ensures
            r is Some <==> (!has_query_or_fragment(encode_utf8(endpoint_url@))
                && parsed_base_of(endpoint_url@) is Some),
            r matches Some(c) ==> (parsed_base_of(endpoint_url@) == Some(
                (c.endpoint.base@, c.endpoint.path_start as int),
            ) && c.application_key == application_key && c.application_secret
                == application_secret && c.consumer_key == consumer_key),
    {
        match Endpoint::new(endpoint_url) {
            Some(endpoint) => Some(
                OVHapiV6Client { endpoint, application_key, application_secret, consumer_key },
            ),
            None => None,
        }
    }

    /// Builds a request without authentication headers: resolved URL, query
    /// string, the caller's extra headers and the fixed User-Agent.  Used for
    /// the unauthenticated time endpoint.
    pub fn build_request_without_authent(
        &self,
        method: Method,
        path: &Vec<String>,
        query: &Vec<(String, String)>,
        headers: &Vec<(String, String)>,
        body: Option<&String>,
    ) -> (r: SignedRequest)
        ensures
            r.method == method,
            r.url@ == self.request_url(path@, query@),
            pairs_view(r.headers@) == pairs_view(headers@) + seq![user_agent_header()],
            body matches Some(b) ==> (r.body matches Some(rb) && rb@ == b@),
            body is None ==> r.body is None,
    {
        let mut url = self.endpoint.resolve(path);
        if query.len() > 0 {
            string_push(&mut url, '?');
            let qs = encode_query(query);
            url.append(qs.as_str());
        }
        let mut hdrs: Vec<(String, String)> = Vec::new();
        let hlen = headers.len();
        for i in 0..hlen
            invariant
                hlen == headers@.len(),
                hdrs@.len() == i,
                forall|k: int|
                    0 <= k < i ==> ((#[trigger] hdrs@[k]).0@ == headers@[k].0@ && hdrs@[k].1@
                        == headers@[k].1@),
        {
            let name = headers[i].0.clone();
            let value = headers[i].1.clone();
            assert(name@ == headers@[i as int].0@);
            assert(value@ == headers@[i as int].1@);
            hdrs.push((name, value));
        }
        assert(pairs_view(hdrs@) =~= pairs_view(headers@));
        hdrs.push((String::from_str("User-Agent"), String::from_str("OVH-DATA-CLI/hyper/0.14")));
        assert(pairs_view(hdrs@) =~= pairs_view(headers@) + seq![user_agent_header()]);
        let req_body = match body {
            Some(b) => Some(b.clone()),
            None => None,
        };
        SignedRequest { method, url, headers: hdrs, body: req_body }
    }

    /// Builds a fully signed request: the resolved URL with query string, the
    /// caller's extra headers, the fixed User-Agent, and the authentication
    /// headers computed from the given server time.  The signature covers the
    /// exact URL and body text carried by the result.
    pub fn build_request(
        &self,
        method: Method,
        path: &Vec<String>,
        query: &Vec<(String, String)>,
        headers: &Vec<(String, String)>,
        body: Option<&String>,
        server_time: u64,
    ) -> (r: SignedRequest)
        ensures
            r.method == method,
            r.url@ == self.request_url(path@, query@),
            pairs_view(r.headers@) == pairs_view(headers@) + seq![user_agent_header()]
                + self.auth_headers(
                method,
                self.request_url(path@, query@),
                match body {
                    Some(b) => b@,
                    None => Seq::empty(),
                },
                server_time,
            ),
            body matches Some(b) ==> (r.body matches Some(rb) && rb@ == b@),
            body is None ==> r.body is None,
    {
        let mut request = self.build_request_without_authent(method, path, query, headers, body);
        let timestamp = u64_to_dec(server_time);
        let body_text = match &request.body {
            Some(b) => b.clone(),
            None => String::new(),
        };
        let signature = build_sig(
            method.as_str(),
            request.url.as_str(),
            body_text.as_str(),
            timestamp.as_str(),
            self.application_secret.as_str(),
            self.consumer_key.as_str(),
        );
        let json_type = "application/json; charset=utf-8";
        request.headers.push((String::from_str("X-Ovh-Application"), self.application_key.clone()));
        request.headers.push((String::from_str("X-Ovh-Consumer"), self.consumer_key.clone()));
        request.headers.push((String::from_str("X-Ovh-Timestamp"), timestamp));
        request.headers.push((String::from_str("X-Ovh-Signature"), signature));
        request.headers.push((String::from_str("Accept"), String::from_str(json_type)));
        request.headers.push((String::from_str("Content-Type"), String::from_str(json_type)));
        proof {
            let body_view = match body {
                Some(b) => b@,
                None => Seq::<char>::empty(),
            };
            assert(pairs_view(request.headers@) =~= pairs_view(headers@) + seq![
                user_agent_header(),
            ] + self.auth_headers(
                method,
                self.request_url(path@, query@),
                body_view,
                server_time,
            ));
        }
        request
    }

    /// The unauthenticated request for the remote time endpoint,
    /// `GET {base}/auth/time`.
    pub fn time_request(&self) -> (r: SignedRequest)
        ensures
            r.method == Method::Get,
            r.url@ == full_url_of(
                self.endpoint.base@,
                self.endpoint.path_start as int,
                seq![encode_utf8("auth"@), encode_utf8("time"@)],
                Seq::empty(),
            ),
            pairs_view(r.headers@) == seq![user_agent_header()],
            r.body is None,
    {
        let mut path: Vec<String> = Vec::new();
        path.push(String::from_str("auth"));
        path.push(String::from_str("time"));
        let query: Vec<(String, String)> = Vec::new();
        let headers: Vec<(String, String)> = Vec::new();
        let r = self.build_request_without_authent(Method::Get, &path, &query, &headers, None);
        proof {
            assert(segments_bytes(path@) =~= seq![encode_utf8("auth"@), encode_utf8("time"@)]);
            assert(pairs_bytes(query@) =~= Seq::<(Seq<u8>, Seq<u8>)>::empty());
            assert(pairs_view(headers@) =~= Seq::<(Seq<char>, Seq<char>)>::empty());
            assert(pairs_view(r.headers@) =~= seq![user_agent_header()]);
        }
        r
    }
}

} // verus!
