//! Card templates and the event log.

use crate::error::WusulError;
use crate::http_client::{is_planned, ClientModel, HttpClient, Method, PreparedRequest};
use crate::json::JsonModel;
use crate::types::{CreateCardTemplateParams, ReadEventLogParams, UpdateCardTemplateParams};
use std::sync::Arc;
use vstd::prelude::*;
use vstd::string::StringExecFns;

verus! {

/// The path of the collection of card templates.
pub open spec fn templates_path() -> Seq<char> {
    "/v1/console/card-templates"@
}

/// The path of one card template.
pub open spec fn template_path(card_template_id: Seq<char>) -> Seq<char> {
    "/v1/console/card-templates/"@ + card_template_id
}

/// The path on which a card template is published.
pub open spec fn publish_path(card_template_id: Seq<char>) -> Seq<char> {
    "/v1/console/card-templates/"@ + card_template_id + "/publish"@
}

/// The path of the event log.
pub open spec fn event_log_path() -> Seq<char> {
    "/v1/console/event-log"@
}

/// The query of a reading of the event log: the object of the filters,
/// where any are given.
pub open spec fn event_log_query(params: Option<ReadEventLogParams>) -> Option<JsonModel> {
    match params {
        Some(p) => Some(p.payload_model()),
        None => None,
    }
}

/// Resource for the console operations of the enterprise tier: card
/// templates and the event log. It prepares the request of each operation.
pub struct Console {
    http: Arc<HttpClient>,
}

impl Console {
    /// The client that the requests are prepared for.
    pub closed spec fn client(&self) -> ClientModel {
        self.http@
    }

    /// Creates the resource on a client.
    pub fn new(http: Arc<HttpClient>) -> (out: Self)
        ensures
            out.client() == http@,
    {
        Console { http }
    }

    /// Creates a card template: a POST of the parameters to the collection.
    pub fn create_template(&self, params: CreateCardTemplateParams) -> (out: Result<
        PreparedRequest,
        WusulError,
    >)
        ensures
            is_planned(
                out,
                self.client(),
                Method::Post,
                templates_path(),
                Some(params.payload_model()),
            ),
    {
        let payload = params.to_payload();
        self.http.post("/v1/console/card-templates", Some(&payload))
    }

    /// Reads a card template.
    pub fn read_template(&self, card_template_id: &str) -> (out: Result<
        PreparedRequest,
        WusulError,
    >)
        ensures
            is_planned(out, self.client(), Method::Get, template_path(card_template_id@), None),
    {
        let mut path = String::from_str("/v1/console/card-templates/");
        path.append(card_template_id);
        self.http.get(path.as_str(), None)
    }

    /// Updates a card template: a PATCH of the parameters to the template
    /// that they name.
    pub fn update_template(&self, params: UpdateCardTemplateParams) -> (out: Result<
        PreparedRequest,
        WusulError,
    >)
        ensures
            is_planned(
                out,
                self.client(),
                Method::Patch,
                template_path(params.card_template_id@),
                Some(params.payload_model()),
            ),
    {
        let mut path = String::from_str("/v1/console/card-templates/");
        path.append(params.card_template_id.as_str());
        let payload = params.to_payload();
        self.http.patch(path.as_str(), Some(&payload))
    }

    /// Publishes a card template, which makes it available for use.
    pub fn publish_template(&self, card_template_id: &str) -> (out: Result<
        PreparedRequest,
        WusulError,
    >)
        ensures
            is_planned(out, self.client(), Method::Post, publish_path(card_template_id@), None),
    {
        let mut path = String::from_str("/v1/console/card-templates/");
        path.append(card_template_id);
        path.append("/publish");
        self.http.post(path.as_str(), None)
    }

    /// Reads the event log: a GET with the filters that are set as its
    /// query.
    pub fn event_log(&self, params: Option<ReadEventLogParams>) -> (out: Result<
        PreparedRequest,
        WusulError,
    >)
        ensures
            is_planned(
                out,
                self.client(),
                Method::Get,
                event_log_path(),
                event_log_query(params),
            ),
    {
        match params {
            Some(p) => {
                let query = p.to_payload();
                self.http.get("/v1/console/event-log", Some(&query))
            },
            None => self.http.get("/v1/console/event-log", None),
        }
    }
}

} // verus!
