//! The settings of the HTTP front end and the endpoints that it serves.
use crate::json::{json_array, json_object, json_string};
#[allow(unused_imports)]
use crate::json::{json_view, members_of, JsonView};
use crate::text::{parse_u16, write_decimal};
#[allow(unused_imports)]
use crate::text::{decimal, parsed_u16};
use vstd::prelude::*;

verus! {

/// The port that the front end listens on unless told otherwise.
pub const DEFAULT_PORT: u16 = 8000;

/// The settings of the front end.
pub struct FrontendConfig {
    /// The host that it listens on.
    pub host: String,
    /// The port that it listens on.
    pub port: u16,
    /// The model that it advertises.
    pub model_name: String,
    /// The scheme by which it reaches the workers.
    pub upstream_scheme: String,
}

/// The text of a setting, or its default when it is not set.
pub open spec fn setting(given: Option<String>, default: Seq<char>) -> Seq<char> {
    match given {
        Some(text) => text@,
        None => default,
    }
}

/// The port that a setting gives: its number where it is one, else the default.
pub open spec fn port_setting(given: Option<String>) -> u16 {
    match given {
        Some(text) => match parsed_u16(text@) {
            Some(port) => port,
            None => DEFAULT_PORT,
        },
        None => DEFAULT_PORT,
    }
}

fn setting_or(given: Option<String>, default: &str) -> (text: String)
    ensures
        text@ == setting(given, default@),
{
    match given {
        Some(text) => text,
        None => default.to_owned(),
    }
}

impl FrontendConfig {
    /// The settings that a set of environment variables gives, each with its default: any
    /// host, port 8000, the model `vllm`, plain HTTP to the workers.
    pub fn from_settings(
        host: Option<String>,
        port: Option<String>,
        model_name: Option<String>,
        upstream_scheme: Option<String>,
    ) -> (config: FrontendConfig)
        ensures
            config.host@ == setting(host, "0.0.0.0"@),
            config.port == port_setting(port),
            config.model_name@ == setting(model_name, "vllm"@),
            config.upstream_scheme@ == setting(upstream_scheme, "http"@),
    {
        let port = match port {
            Some(text) => match parse_u16(text.as_str()) {
                Some(port) => port,
                None => DEFAULT_PORT,
            },
            None => DEFAULT_PORT,
        };
        FrontendConfig {
            host: setting_or(host, "0.0.0.0"),
            port,
            model_name: setting_or(model_name, "vllm"),
            upstream_scheme: setting_or(upstream_scheme, "http"),
        }
    }

    /// The address to listen on: the host and the port, with a colon between them.
    pub fn listen_address(&self) -> (address: String)
        ensures
            address@ == self.host@ + ":"@ + decimal(self.port as nat),
    {
        let mut address = self.host.clone();
        address.append(":");
        address.append(write_decimal(self.port as u64).as_str());
        address
    }
}

/// A method by which an endpoint is called.
#[derive(Clone, Copy, Debug, PartialEq, Eq, Structural)]
pub enum Method {
    Get,
    Post,
}

/// What an endpoint does.
#[derive(Clone, Copy, Debug, PartialEq, Eq, Structural)]
pub enum Endpoint {
    /// Answers `ok`.
    Health,
    /// Lists the served model.
    Models,
    /// Routes the request to a worker.
    Proxy,
}

/// An endpoint with the method and the path by which it is called.
pub struct Route {
    pub method: Method,
    pub path: String,
    pub endpoint: Endpoint,
}

/// The endpoints by method and path.
pub open spec fn served_routes() -> Seq<(Method, Seq<char>, Endpoint)> {
    seq![
        (Method::Get, "/health"@, Endpoint::Health),
        (Method::Get, "/v1/models"@, Endpoint::Models),
        (Method::Post, "/v1/chat/completions"@, Endpoint::Proxy),
        (Method::Post, "/v1/completions"@, Endpoint::Proxy),
    ]
}

/// The endpoints that the front end serves.
pub fn routes() -> (routes: Vec<Route>)
    ensures
        routes@.map_values(|r: Route| (r.method, r.path@, r.endpoint)) == served_routes(),
{
    let routes = vec![
        Route { method: Method::Get, path: "/health".to_owned(), endpoint: Endpoint::Health },
        Route { method: Method::Get, path: "/v1/models".to_owned(), endpoint: Endpoint::Models },
        Route { method: Method::Post, path: "/v1/chat/completions".to_owned(), endpoint: Endpoint::Proxy },
        Route { method: Method::Post, path: "/v1/completions".to_owned(), endpoint: Endpoint::Proxy },
    ];
    assert(routes@.map_values(|r: Route| (r.method, r.path@, r.endpoint)) =~= served_routes());
    routes
}

/// What the health endpoint answers.
pub fn health_text() -> (text: String)
    ensures
        text@ == "ok"@,
{
    "ok".to_owned()
}

/// The entry of a model in a listing.
pub open spec fn model_entry(model_name: Seq<char>) -> JsonView {
    JsonView::Object(
        map![
            "id"@ => JsonView::Text(model_name),
            "object"@ => JsonView::Text("model"@),
            "owned_by"@ => JsonView::Text("dynamo"@),
        ],
    )
}

/// The listing of the served models: there is one, under the advertised name.
pub open spec fn models_listing(model_name: Seq<char>) -> JsonView {
    JsonView::Object(
        map![
            "object"@ => JsonView::Text("list"@),
            "data"@ => JsonView::Array(seq![model_entry(model_name)]),
        ],
    )
}

/// Lists the served models, so that clients can find the name that the model is served
/// under.
pub fn models_handler(config: &FrontendConfig) -> (listing: serde_json::Value)
    ensures
        json_view(listing) == models_listing(config.model_name@),
{
    let ghost name = config.model_name@;
    proof {
        reveal_with_fuel(members_of, 4);
        reveal_strlit("id");
        reveal_strlit("object");
        reveal_strlit("owned_by");
        reveal_strlit("data");
        assert("id"@.len() == 2 && "object"@.len() == 6 && "owned_by"@.len() == 8 && "data"@.len() == 4);
    }
    let entry = json_object(
        vec![
            ("id".to_owned(), json_string(config.model_name.clone())),
            ("object".to_owned(), json_string("model".to_owned())),
            ("owned_by".to_owned(), json_string("dynamo".to_owned())),
        ],
    );
    assert(json_view(entry)->Object_0 =~= model_entry(name)->Object_0);
    let data = json_array(vec![entry]);
    assert(json_view(data)->Array_0 =~= seq![model_entry(name)]);
    let listing = json_object(vec![("object".to_owned(), json_string("list".to_owned())), ("data".to_owned(), data)]);
    assert(json_view(listing)->Object_0 =~= models_listing(name)->Object_0);
    listing
}

/// Any port can be set: the decimal text of a port gives that port.
pub proof fn law_every_port_can_be_set(text: String, port: u16)
    requires
        text@ == decimal(port as nat),
    ensures
        port_setting(Some(text)) == port,
{
    crate::text::law_decimal_reads_back(port as nat);
    assert(text@[0] != '+') by {
        assert(crate::text::is_digit(text@[0]));
    }
}

} // verus!
