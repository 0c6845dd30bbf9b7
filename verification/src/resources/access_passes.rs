//! Access passes.

use crate::error::WusulError;
use crate::http_client::{is_planned, ClientModel, HttpClient, Method, PreparedRequest};
use crate::json::JsonModel;
use crate::types::{IssueAccessPassParams, ListAccessPassesParams, UpdateAccessPassParams};
use std::sync::Arc;
use vstd::prelude::*;
use vstd::string::StringExecFns;

verus! {

/// The path of the collection of access passes.
pub open spec fn passes_path() -> Seq<char> {
    "/v1/access-passes"@
}

/// The path of one access pass.
pub open spec fn pass_path(access_pass_id: Seq<char>) -> Seq<char> {
    "/v1/access-passes/"@ + access_pass_id
}

/// The path of an action on one access pass; the action is written with its
/// leading slash, as in `/suspend`.
pub open spec fn pass_action_path(access_pass_id: Seq<char>, action: Seq<char>) -> Seq<char> {
    "/v1/access-passes/"@ + access_pass_id + action
}

/// The query of a listing: the object of the filters, where any are given.
pub open spec fn list_query(params: Option<ListAccessPassesParams>) -> Option<JsonModel> {
    match params {
        Some(p) => Some(p.payload_model()),
        None => None,
    }
}

/// Resource for managing access passes: it prepares the request of each
/// operation.
pub struct AccessPasses {
    http: Arc<HttpClient>,
}

impl AccessPasses {
    /// The client that the requests are prepared for.
    pub closed spec fn client(&self) -> ClientModel {
        self.http@
    }

    /// Creates the resource on a client.
    pub fn new(http: Arc<HttpClient>) -> (out: Self)
        ensures
            out.client() == http@,
    {
        AccessPasses { http }
    }

    fn action(&self, access_pass_id: &str, action: &str) -> (out: Result<
        PreparedRequest,
        WusulError,
    >)
        ensures
            is_planned(
                out,
                self.client(),
                Method::Post,
                pass_action_path(access_pass_id@, action@),
                None,
            ),
    {
        let mut path = String::from_str("/v1/access-passes/");
        path.append(access_pass_id);
        path.append(action);
        self.http.post(path.as_str(), None)
    }

    /// Issues a new access pass: a POST of the parameters to the
    /// collection.
    pub fn issue(&self, params: IssueAccessPassParams) -> (out: Result<PreparedRequest, WusulError>)
        ensures
            is_planned(
                out,
                self.client(),
                Method::Post,
                passes_path(),
                Some(params.payload_model()),
            ),
    {
        let payload = params.to_payload();
        self.http.post("/v1/access-passes", Some(&payload))
    }

    /// Lists access passes: a GET of the collection, with the filters that
    /// are set as its query.
    pub fn list(&self, params: Option<ListAccessPassesParams>) -> (out: Result<
        PreparedRequest,
        WusulError,
    >)
        ensures
            is_planned(out, self.client(), Method::Get, passes_path(), list_query(params)),
    {
        match params {
            Some(p) => {
                let query = p.to_payload();
                self.http.get("/v1/access-passes", Some(&query))
            },
            None => self.http.get("/v1/access-passes", None),
        }
    }

    /// Updates an access pass: a PATCH of the parameters to the pass that
    /// they name.
    pub fn update(&self, params: UpdateAccessPassParams) -> (out: Result<
        PreparedRequest,
        WusulError,
    >)
        ensures
            is_planned(
                out,
                self.client(),
                Method::Patch,
                pass_path(params.access_pass_id@),
                Some(params.payload_model()),
            ),
    {
        let mut path = String::from_str("/v1/access-passes/");
        path.append(params.access_pass_id.as_str());
        let payload = params.to_payload();
        self.http.patch(path.as_str(), Some(&payload))
    }

    /// Suspends an access pass.
    pub fn suspend(&self, access_pass_id: &str) -> (out: Result<PreparedRequest, WusulError>)
        ensures
            is_planned(
                out,
                self.client(),
                Method::Post,
                pass_action_path(access_pass_id@, "/suspend"@),
                None,
            ),
    {
        self.action(access_pass_id, "/suspend")
    }

    /// Resumes a suspended access pass.
    pub fn resume(&self, access_pass_id: &str) -> (out: Result<PreparedRequest, WusulError>)
        ensures
            is_planned(
                out,
                self.client(),
                Method::Post,
                pass_action_path(access_pass_id@, "/resume"@),
                None,
            ),
    {
        self.action(access_pass_id, "/resume")
    }

    /// Unlinks an access pass from the device.
    pub fn unlink(&self, access_pass_id: &str) -> (out: Result<PreparedRequest, WusulError>)
        ensures
            is_planned(
                out,
                self.client(),
                Method::Post,
                pass_action_path(access_pass_id@, "/unlink"@),
                None,
            ),
    {
        self.action(access_pass_id, "/unlink")
    }

    /// Deletes an access pass for good.
    pub fn delete(&self, access_pass_id: &str) -> (out: Result<PreparedRequest, WusulError>)
        ensures
            is_planned(out, self.client(), Method::Delete, pass_path(access_pass_id@), None),
    {
        let mut path = String::from_str("/v1/access-passes/");
        path.append(access_pass_id);
        self.http.delete(path.as_str())
    }
}

} // verus!
