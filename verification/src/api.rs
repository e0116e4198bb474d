//! The endpoint catalogue: one request-building method per API operation,
//! pinning the method, the path segments, and the body each operation sends.
//! The surrounding application executes the returned request and hands the
//! classified response back to the decode layer.

use vstd::prelude::*;
use vstd::string::StringExecFns;
use vstd::utf8::encode_utf8;
use crate::codec::{destination_spec_text, encode_destination_spec, encode_job_post,
    encode_source_spec, encode_workflow_patch, encode_workflow_spec, job_post_text,
    source_spec_text, workflow_patch_text, workflow_spec_text};
use crate::endpoint::{resolved_url, segments_bytes};
use crate::model::di::{DestinationSpec, JobPost, SourceSpec, WorkflowPatch, WorkflowSpec};
use crate::query::pairs_bytes;
use crate::request::{Method, OVHapiV6Client, SignedRequest, pairs_view, user_agent_header};

verus! {

/// The segment byte strings of a path given as string slices.
pub open spec fn slice_segments_bytes(parts: Seq<&str>) -> Seq<Seq<u8>> {
    parts.map_values(|s: &str| encode_utf8(s@))
}

fn to_path(parts: &[&str]) -> (r: Vec<String>)
    ensures
        segments_bytes(r@) == slice_segments_bytes(parts@),
{
    let mut r: Vec<String> = Vec::new();
    let len = parts.len();
    for i in 0..len
        invariant
            len == parts@.len(),
            r@.len() == i,
            forall|k: int| 0 <= k < i ==> (#[trigger] r@[k])@ == parts@[k]@,
    {
        r.push(String::from_str(parts[i]));
    }
    assert(segments_bytes(r@) =~= slice_segments_bytes(parts@));
    r
}

impl OVHapiV6Client {
    /// The URL of an operation with the given path and no query.
    pub open spec fn plain_url(self, parts: Seq<&str>) -> Seq<char> {
        resolved_url(
            self.endpoint.base@,
            self.endpoint.path_start as int,
            slice_segments_bytes(parts),
        )
    }

    /// What every bodyless signed request of this catalogue guarantees.
    pub open spec fn plain_request_ok(
        self,
        r: SignedRequest,
        method: Method,
        parts: Seq<&str>,
        server_time: u64,
    ) -> bool {
        &&& r.method == method
        &&& r.url@ == self.plain_url(parts)
        &&& pairs_view(r.headers@) == seq![user_agent_header()] + self.auth_headers(
            method,
            self.plain_url(parts),
            Seq::empty(),
            server_time,
        )
        &&& r.body is None
    }

    /// What every body-carrying signed request of this catalogue guarantees.
    pub open spec fn body_request_ok(
        self,
        r: SignedRequest,
        method: Method,
        parts: Seq<&str>,
        body_text: Seq<char>,
        server_time: u64,
    ) -> bool {
        &&& r.method == method
        &&& r.url@ == self.plain_url(parts)
        &&& pairs_view(r.headers@) == seq![user_agent_header()] + self.auth_headers(
            method,
            self.plain_url(parts),
            body_text,
            server_time,
        )
        &&& r.body matches Some(b) && b@ == body_text
    }

    fn plain_request(&self, method: Method, parts: &[&str], server_time: u64) -> (r:
        SignedRequest)
        ensures
            self.plain_request_ok(r, method, parts@, server_time),
    {
        let path = to_path(parts);
        let query: Vec<(String, String)> = Vec::new();
        let headers: Vec<(String, String)> = Vec::new();
        let r = self.build_request(method, &path, &query, &headers, None, server_time);
        proof {
            assert(pairs_bytes(query@) =~= Seq::<(Seq<u8>, Seq<u8>)>::empty());
            assert(pairs_view(headers@) =~= Seq::<(Seq<char>, Seq<char>)>::empty());
            assert(pairs_view(headers@) + seq![user_agent_header()] =~= seq![
                user_agent_header(),
            ]);
        }
        r
    }

    fn body_request(&self, method: Method, parts: &[&str], body: String, server_time: u64) -> (r:
        SignedRequest)
        ensures
            self.body_request_ok(r, method, parts@, body@, server_time),
    {
        let path = to_path(parts);
        let query: Vec<(String, String)> = Vec::new();
        let headers: Vec<(String, String)> = Vec::new();
        let r = self.build_request(method, &path, &query, &headers, Some(&body), server_time);
        proof {
            assert(pairs_bytes(query@) =~= Seq::<(Seq<u8>, Seq<u8>)>::empty());
            assert(pairs_view(headers@) =~= Seq::<(Seq<char>, Seq<char>)>::empty());
            assert(pairs_view(headers@) + seq![user_agent_header()] =~= seq![
                user_agent_header(),
            ]);
        }
        r
    }

    /// Information about the logged user: `GET /auth/details`.
    pub fn me(&self, server_time: u64) -> (r: SignedRequest)
        ensures
            self.plain_request_ok(r, Method::Get, seq!["auth", "details"], server_time),
    {
        self.plain_request(Method::Get, &["auth", "details"], server_time)
    }

    /// The credential behind the current consumer key:
    /// `GET /auth/currentCredential`.
    pub fn current_credential(&self, server_time: u64) -> (r: SignedRequest)
        ensures
            self.plain_request_ok(r, Method::Get, seq!["auth", "currentCredential"], server_time),
    {
        self.plain_request(Method::Get, &["auth", "currentCredential"], server_time)
    }

    /// One cloud project: `GET /cloud/project/{service_name}`.
    pub fn project<'a>(&self, service_name: &'a str, server_time: u64) -> (r: SignedRequest)
        ensures
            self.plain_request_ok(
                r,
                Method::Get,
                seq!["cloud", "project", service_name],
                server_time,
            ),
    {
        self.plain_request(Method::Get, &["cloud", "project", service_name], server_time)
    }

    /// The service names of all cloud projects: `GET /cloud/project`.
    pub fn project_list(&self, server_time: u64) -> (r: SignedRequest)
        ensures
            self.plain_request_ok(r, Method::Get, seq!["cloud", "project"], server_time),
    {
        self.plain_request(Method::Get, &["cloud", "project"], server_time)
    }

    /// All source connectors of a service.
    pub fn di_source_connectors<'a>(&self, service_name: &'a str, server_time: u64) -> (r:
        SignedRequest)
        ensures
            self.plain_request_ok(
                r,
                Method::Get,
                seq!["cloud", "project", service_name, "dataIntegration", "sourceConnectors"],
                server_time,
            ),
    {
        self.plain_request(
            Method::Get,
            &["cloud", "project", service_name, "dataIntegration", "sourceConnectors"],
            server_time,
        )
    }

    /// One source connector by ID.
    pub fn di_source_connector<'a>(
        &self,
        service_name: &'a str,
        id: &'a str,
        server_time: u64,
    ) -> (r: SignedRequest)
        ensures
            self.plain_request_ok(
                r,
                Method::Get,
                seq!["cloud", "project", service_name, "dataIntegration", "sourceConnectors", id],
                server_time,
            ),
    {
        self.plain_request(
            Method::Get,
            &["cloud", "project", service_name, "dataIntegration", "sourceConnectors", id],
            server_time,
        )
    }

    /// All destination connectors of a service.
    pub fn di_destination_connectors<'a>(&self, service_name: &'a str, server_time: u64) -> (r:
        SignedRequest)
        ensures
            self.plain_request_ok(
                r,
                Method::Get,
                seq![
                    "cloud",
                    "project",
                    service_name,
                    "dataIntegration",
                    "destinationConnectors",
                ],
                server_time,
            ),
    {
        self.plain_request(
            Method::Get,
            &["cloud", "project", service_name, "dataIntegration", "destinationConnectors"],
            server_time,
        )
    }

    /// One destination connector by ID.
    pub fn di_destination_connector<'a>(
        &self,
        service_name: &'a str,
        id: &'a str,
        server_time: u64,
    ) -> (r: SignedRequest)
        ensures
            self.plain_request_ok(
                r,
                Method::Get,
                seq![
                    "cloud",
                    "project",
                    service_name,
                    "dataIntegration",
                    "destinationConnectors",
                    id,
                ],
                server_time,
            ),
    {
        self.plain_request(
            Method::Get,
            &["cloud", "project", service_name, "dataIntegration", "destinationConnectors", id],
            server_time,
        )
    }

    /// All sources of a service.
    pub fn di_sources<'a>(&self, service_name: &'a str, server_time: u64) -> (r: SignedRequest)
        ensures
            self.plain_request_ok(
                r,
                Method::Get,
                seq!["cloud", "project", service_name, "dataIntegration", "sources"],
                server_time,
            ),
    {
        self.plain_request(
            Method::Get,
            &["cloud", "project", service_name, "dataIntegration", "sources"],
            server_time,
        )
    }

    /// One source by ID.
    pub fn di_source<'a>(&self, service_name: &'a str, id: &'a str, server_time: u64) -> (r:
        SignedRequest)
        ensures
            self.plain_request_ok(
                r,
                Method::Get,
                seq!["cloud", "project", service_name, "dataIntegration", "sources", id],
                server_time,
            ),
    {
        self.plain_request(
            Method::Get,
            &["cloud", "project", service_name, "dataIntegration", "sources", id],
            server_time,
        )
    }

    /// The last connection status of a source.
    pub fn di_source_status<'a>(
        &self,
        service_name: &'a str,
        id: &'a str,
        server_time: u64,
    ) -> (r: SignedRequest)
        ensures
            self.plain_request_ok(
                r,
                Method::Get,
                seq![
                    "cloud",
                    "project",
                    service_name,
                    "dataIntegration",
                    "sources",
                    id,
                    "connection",
                ],
                server_time,
            ),
    {
        self.plain_request(
            Method::Get,
            &["cloud", "project", service_name, "dataIntegration", "sources", id, "connection"],
            server_time,
        )
    }

    /// The extracted metadata of a source.
    pub fn di_source_metadata<'a>(
        &self,
        service_name: &'a str,
        id: &'a str,
        server_time: u64,
    ) -> (r: SignedRequest)
        ensures
            self.plain_request_ok(
                r,
                Method::Get,
                seq![
                    "cloud",
                    "project",
                    service_name,
                    "dataIntegration",
                    "sources",
                    id,
                    "metadata",
                ],
                server_time,
            ),
    {
        self.plain_request(
            Method::Get,
            &["cloud", "project", service_name, "dataIntegration", "sources", id, "metadata"],
            server_time,
        )
    }

    /// Triggers metadata extraction of a source.
    pub fn di_source_metadata_post<'a>(
        &self,
        service_name: &'a str,
        id: &'a str,
        server_time: u64,
    ) -> (r: SignedRequest)
        ensures
            self.plain_request_ok(
                r,
                Method::Post,
                seq![
                    "cloud",
                    "project",
                    service_name,
                    "dataIntegration",
                    "sources",
                    id,
                    "metadata",
                ],
                server_time,
            ),
    {
        self.plain_request(
            Method::Post,
            &["cloud", "project", service_name, "dataIntegration", "sources", id, "metadata"],
            server_time,
        )
    }

    /// Deletes a source by ID.
    pub fn di_source_delete<'a>(
        &self,
        service_name: &'a str,
        id: &'a str,
        server_time: u64,
    ) -> (r: SignedRequest)
        ensures
            self.plain_request_ok(
                r,
                Method::Delete,
                seq!["cloud", "project", service_name, "dataIntegration", "sources", id],
                server_time,
            ),
    {
        self.plain_request(
            Method::Delete,
            &["cloud", "project", service_name, "dataIntegration", "sources", id],
            server_time,
        )
    }

    /// Creates a source; the body is the exact wire text of the
    /// specification.
    pub fn di_source_post<'a>(
        &self,
        service_name: &'a str,
        spec: &SourceSpec,
        server_time: u64,
    ) -> (r: SignedRequest)
        ensures
            self.body_request_ok(
                r,
                Method::Post,
                seq!["cloud", "project", service_name, "dataIntegration", "sources"],
                source_spec_text(*spec),
                server_time,
            ),
    {
        let body = encode_source_spec(spec);
        self.body_request(
            Method::Post,
            &["cloud", "project", service_name, "dataIntegration", "sources"],
            body,
            server_time,
        )
    }

    /// Updates a source; the body is the exact wire text of the
    /// specification.
    pub fn di_source_update<'a>(
        &self,
        service_name: &'a str,
        id: &'a str,
        spec: &SourceSpec,
        server_time: u64,
    ) -> (r: SignedRequest)
        ensures
            self.body_request_ok(
                r,
                Method::Put,
                seq!["cloud", "project", service_name, "dataIntegration", "sources", id],
                source_spec_text(*spec),
                server_time,
            ),
    {
        let body = encode_source_spec(spec);
        self.body_request(
            Method::Put,
            &["cloud", "project", service_name, "dataIntegration", "sources", id],
            body,
            server_time,
        )
    }

    /// All destinations of a service.
    pub fn di_destinations<'a>(&self, service_name: &'a str, server_time: u64) -> (r:
        SignedRequest)
        ensures
            self.plain_request_ok(
                r,
                Method::Get,
                seq!["cloud", "project", service_name, "dataIntegration", "destinations"],
                server_time,
            ),
    {
        self.plain_request(
            Method::Get,
            &["cloud", "project", service_name, "dataIntegration", "destinations"],
            server_time,
        )
    }

    /// One destination by ID.
    pub fn di_destination<'a>(&self, service_name: &'a str, id: &'a str, server_time: u64) -> (r:
        SignedRequest)
        ensures
            self.plain_request_ok(
                r,
                Method::Get,
                seq!["cloud", "project", service_name, "dataIntegration", "destinations", id],
                server_time,
            ),
    {
        self.plain_request(
            Method::Get,
            &["cloud", "project", service_name, "dataIntegration", "destinations", id],
            server_time,
        )
    }

    /// The last connection status of a destination.
    pub fn di_destination_status<'a>(
        &self,
        service_name: &'a str,
        id: &'a str,
        server_time: u64,
    ) -> (r: SignedRequest)
        ensures
            self.plain_request_ok(
                r,
                Method::Get,
                seq![
                    "cloud",
                    "project",
                    service_name,
                    "dataIntegration",
                    "destinations",
                    id,
                    "connection",
                ],
                server_time,
            ),
    {
        self.plain_request(
            Method::Get,
            &[
                "cloud",
                "project",
                service_name,
                "dataIntegration",
                "destinations",
                id,
                "connection",
            ],
            server_time,
        )
    }

    /// Creates a destination; the body is the exact wire text of the
    /// specification.
    pub fn di_destination_post<'a>(
        &self,
        service_name: &'a str,
        spec: &DestinationSpec,
        server_time: u64,
    ) -> (r: SignedRequest)
        ensures
            self.body_request_ok(
                r,
                Method::Post,
                seq!["cloud", "project", service_name, "dataIntegration", "destinations"],
                destination_spec_text(*spec),
                server_time,
            ),
    {
        let body = encode_destination_spec(spec);
        self.body_request(
            Method::Post,
            &["cloud", "project", service_name, "dataIntegration", "destinations"],
            body,
            server_time,
        )
    }

    /// Deletes a destination by ID.
    pub fn di_destination_delete<'a>(
        &self,
        service_name: &'a str,
        id: &'a str,
        server_time: u64,
    ) -> (r: SignedRequest)
        ensures
            self.plain_request_ok(
                r,
                Method::Delete,
                seq!["cloud", "project", service_name, "dataIntegration", "destinations", id],
                server_time,
            ),
    {
        self.plain_request(
            Method::Delete,
            &["cloud", "project", service_name, "dataIntegration", "destinations", id],
            server_time,
        )
    }

    /// Updates a destination; the body is the exact wire text of the
    /// specification.
    pub fn di_destination_update<'a>(
        &self,
        service_name: &'a str,
        id: &'a str,
        spec: &DestinationSpec,
        server_time: u64,
    ) -> (r: SignedRequest)
        ensures
            self.body_request_ok(
                r,
                Method::Put,
                seq!["cloud", "project", service_name, "dataIntegration", "destinations", id],
                destination_spec_text(*spec),
                server_time,
            ),
    {
        let body = encode_destination_spec(spec);
        self.body_request(
            Method::Put,
            &["cloud", "project", service_name, "dataIntegration", "destinations", id],
            body,
            server_time,
        )
    }

    /// All workflows of a service.
    pub fn di_workflows<'a>(&self, service_name: &'a str, server_time: u64) -> (r: SignedRequest)
        ensures
            self.plain_request_ok(
                r,
                Method::Get,
                seq!["cloud", "project", service_name, "dataIntegration", "workflows"],
                server_time,
            ),
    {
        self.plain_request(
            Method::Get,
            &["cloud", "project", service_name, "dataIntegration", "workflows"],
            server_time,
        )
    }

    /// One workflow by ID.
    pub fn di_workflow<'a>(&self, service_name: &'a str, id: &'a str, server_time: u64) -> (r:
        SignedRequest)
        ensures
            self.plain_request_ok(
                r,
                Method::Get,
                seq!["cloud", "project", service_name, "dataIntegration", "workflows", id],
                server_time,
            ),
    {
        self.plain_request(
            Method::Get,
            &["cloud", "project", service_name, "dataIntegration", "workflows", id],
            server_time,
        )
    }

    /// Creates a workflow; the body is the exact wire text of the
    /// specification.
    pub fn di_workflow_post<'a>(
        &self,
        service_name: &'a str,
        spec: &WorkflowSpec,
        server_time: u64,
    ) -> (r: SignedRequest)
        ensures
            self.body_request_ok(
                r,
                Method::Post,
                seq!["cloud", "project", service_name, "dataIntegration", "workflows"],
                workflow_spec_text(*spec),
                server_time,
            ),
    {
        let body = encode_workflow_spec(spec);
        self.body_request(
            Method::Post,
            &["cloud", "project", service_name, "dataIntegration", "workflows"],
            body,
            server_time,
        )
    }

    /// Deletes a workflow by ID.
    pub fn di_workflow_delete<'a>(
        &self,
        service_name: &'a str,
        id: &'a str,
        server_time: u64,
    ) -> (r: SignedRequest)
        ensures
            self.plain_request_ok(
                r,
                Method::Delete,
                seq!["cloud", "project", service_name, "dataIntegration", "workflows", id],
                server_time,
            ),
    {
        self.plain_request(
            Method::Delete,
            &["cloud", "project", service_name, "dataIntegration", "workflows", id],
            server_time,
        )
    }

    /// Updates a workflow; the body is the exact wire text of the patch.
    pub fn di_workflow_put<'a>(
        &self,
        service_name: &'a str,
        id: &'a str,
        spec: &WorkflowPatch,
        server_time: u64,
    ) -> (r: SignedRequest)
        ensures
            self.body_request_ok(
                r,
                Method::Put,
                seq!["cloud", "project", service_name, "dataIntegration", "workflows", id],
                workflow_patch_text(*spec),
                server_time,
            ),
    {
        let body = encode_workflow_patch(spec);
        self.body_request(
            Method::Put,
            &["cloud", "project", service_name, "dataIntegration", "workflows", id],
            body,
            server_time,
        )
    }

    /// All jobs of a workflow.
    pub fn di_jobs<'a>(&self, service_name: &'a str, workflow_id: &'a str, server_time: u64) -> (r:
        SignedRequest)
        ensures
            self.plain_request_ok(
                r,
                Method::Get,
                seq![
                    "cloud",
                    "project",
                    service_name,
                    "dataIntegration",
                    "workflows",
                    workflow_id,
                    "jobs",
                ],
                server_time,
            ),
    {
        self.plain_request(
            Method::Get,
            &["cloud", "project", service_name, "dataIntegration", "workflows", workflow_id,
                "jobs"],
            server_time,
        )
    }

    /// One job of a workflow by ID.
    pub fn di_job<'a>(
        &self,
        service_name: &'a str,
        id: &'a str,
        workflow_id: &'a str,
        server_time: u64,
    ) -> (r: SignedRequest)
        ensures
            self.plain_request_ok(
                r,
                Method::Get,
                seq![
                    "cloud",
                    "project",
                    service_name,
                    "dataIntegration",
                    "workflows",
                    workflow_id,
                    "jobs",
                    id,
                ],
                server_time,
            ),
    {
        self.plain_request(
            Method::Get,
            &["cloud", "project", service_name, "dataIntegration", "workflows", workflow_id,
                "jobs", id],
            server_time,
        )
    }

    /// Starts a job for a workflow; the body is the exact wire text of the
    /// job start request.
    pub fn di_job_post<'a>(
        &self,
        service_name: &'a str,
        workflow_id: &'a str,
        post: &JobPost,
        server_time: u64,
    ) -> (r: SignedRequest)
        ensures
            self.body_request_ok(
                r,
                Method::Post,
                seq![
                    "cloud",
                    "project",
                    service_name,
                    "dataIntegration",
                    "workflows",
                    workflow_id,
                    "jobs",
                ],
                job_post_text(*post),
                server_time,
            ),
    {
        let body = encode_job_post(post);
        self.body_request(
            Method::Post,
            &["cloud", "project", service_name, "dataIntegration", "workflows", workflow_id,
                "jobs"],
            body,
            server_time,
        )
    }

    /// Stops a job of a workflow by ID.
    pub fn di_job_delete<'a>(
        &self,
        service_name: &'a str,
        workflow_id: &'a str,
        id: &'a str,
        server_time: u64,
    ) -> (r: SignedRequest)
        ensures
            self.plain_request_ok(
                r,
                Method::Delete,
                seq![
                    "cloud",
                    "project",
                    service_name,
                    "dataIntegration",
                    "workflows",
                    workflow_id,
                    "jobs",
                    id,
                ],
                server_time,
            ),
    {
        self.plain_request(
            Method::Delete,
            &["cloud", "project", service_name, "dataIntegration", "workflows", workflow_id,
                "jobs", id],
            server_time,
        )
    }
}

} // verus!
