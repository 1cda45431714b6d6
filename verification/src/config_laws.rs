//! What the front end is set to and what it serves, in terms of the settings that it is
//! given.
#[allow(unused_imports)]
use crate::config::{health_text, models_handler, routes, Endpoint, FrontendConfig, Method, Route};
#[allow(unused_imports)]
use crate::json::{json_view, JsonView};
#[allow(unused_imports)]
use crate::text::{digits_value, law_decimal_reads_back, parse_u16, write_decimal};
use vstd::prelude::*;

verus! {

/// A host, a model name and a scheme that are set are taken as they are; where they are not
/// set, the front end listens on any host, advertises `vllm` and reaches the workers by plain
/// HTTP.
pub proof fn law_settings_are_taken_as_they_are(
    host: Option<String>,
    port: Option<String>,
    model_name: Option<String>,
    upstream_scheme: Option<String>,
    config: FrontendConfig,
)
    requires
        call_ensures(FrontendConfig::from_settings, (host, port, model_name, upstream_scheme), config),
    ensures
        host matches Some(text) ==> config.host@ == text@,
        host is None ==> config.host@ == "0.0.0.0"@,
        model_name matches Some(text) ==> config.model_name@ == text@,
        model_name is None ==> config.model_name@ == "vllm"@,
        upstream_scheme matches Some(text) ==> config.upstream_scheme@ == text@,
        upstream_scheme is None ==> config.upstream_scheme@ == "http"@,
{
}

/// A port that is set to a text which reads as a number of 16 bits is that number; any other
/// text, and none, gives port 8000.
pub proof fn law_port_is_the_number_set(
    host: Option<String>,
    port: Option<String>,
    model_name: Option<String>,
    upstream_scheme: Option<String>,
    config: FrontendConfig,
    text: &str,
    read: Option<u16>,
)
    requires
        call_ensures(FrontendConfig::from_settings, (host, port, model_name, upstream_scheme), config),
        call_ensures(parse_u16, (text,), read),
    ensures
        port is None ==> config.port == 8000,
        port is Some && port->0@ == text@ ==> {
            &&& read matches Some(number) ==> config.port == number
            &&& read is None ==> config.port == 8000
        },
{
}

/// The address to listen on is the host, a colon, and the decimal digits of the port,
/// without leading zeros.
pub proof fn law_address_is_host_and_port(config: FrontendConfig, address: String, written: String)
    requires
        call_ensures(FrontendConfig::listen_address, (&config,), address),
        call_ensures(write_decimal, (config.port as u64,), written),
    ensures
        ({
            let n = config.host@.len() as int;
            &&& address@.len() == n + 1 + written@.len()
            &&& address@.subrange(0, n) == config.host@
            &&& address@[n] == ':'
            &&& address@.subrange(n + 1, address@.len() as int) == written@
            &&& digits_value(address@.subrange(n + 1, address@.len() as int)) == config.port
        }),
{
    reveal_strlit(":");
    let n = config.host@.len() as int;
    law_decimal_reads_back(config.port as nat);
    assert(address@.subrange(0, n) =~= config.host@);
    assert(address@.subrange(n + 1, address@.len() as int) =~= written@);
}

/// The front end serves four endpoints: the health check and the model listing by GET, chat
/// and plain completions by POST. Both completions are routed to a worker.
pub proof fn law_four_endpoints_are_served(served: Vec<Route>)
    requires
        call_ensures(routes, (), served),
    ensures
        served@.len() == 4,
        served@[0].method == Method::Get && served@[0].path@ == "/health"@ && served@[0].endpoint == Endpoint::Health,
        served@[1].method == Method::Get && served@[1].path@ == "/v1/models"@ && served@[1].endpoint
            == Endpoint::Models,
        served@[2].method == Method::Post && served@[2].path@ == "/v1/chat/completions"@ && served@[2].endpoint
            == Endpoint::Proxy,
        served@[3].method == Method::Post && served@[3].path@ == "/v1/completions"@ && served@[3].endpoint
            == Endpoint::Proxy,
{
    let listed = served@.map_values(|r: Route| (r.method, r.path@, r.endpoint));
    assert(listed.len() == 4);
    assert(listed[0] == (served@[0].method, served@[0].path@, served@[0].endpoint));
    assert(listed[1] == (served@[1].method, served@[1].path@, served@[1].endpoint));
    assert(listed[2] == (served@[2].method, served@[2].path@, served@[2].endpoint));
    assert(listed[3] == (served@[3].method, served@[3].path@, served@[3].endpoint));
}

/// The health check answers with two letters.
pub proof fn law_health_check_answers_ok(text: String)
    requires
        call_ensures(health_text, (), text),
    ensures
        text@ == seq!['o', 'k'],
{
    reveal_strlit("ok");
    assert(text@ =~= seq!['o', 'k']);
}

/// The model listing is a list with one entry: a model whose ID is the name that the front
/// end advertises.
pub proof fn law_one_model_is_listed_under_its_name(config: FrontendConfig, listing: serde_json::Value)
    requires
        call_ensures(models_handler, (&config,), listing),
    ensures
        ({
            &&& json_view(listing) matches JsonView::Object(members)
            &&& members.dom() == set!["object"@, "data"@]
            &&& members["object"@] == JsonView::Text("list"@)
            &&& members["data"@] matches JsonView::Array(entries)
            &&& entries.len() == 1
            &&& entries[0] matches JsonView::Object(entry)
            &&& entry.dom() == set!["id"@, "object"@, "owned_by"@]
            &&& entry["id"@] == JsonView::Text(config.model_name@)
            &&& entry["object"@] == JsonView::Text("model"@)
            &&& entry["owned_by"@] == JsonView::Text("dynamo"@)
        }),
{
    reveal_strlit("id");
    reveal_strlit("object");
    reveal_strlit("owned_by");
    reveal_strlit("data");
    assert("id"@.len() == 2 && "object"@.len() == 6 && "owned_by"@.len() == 8 && "data"@.len() == 4);
    let members = json_view(listing)->Object_0;
    assert(members.dom() =~= set!["object"@, "data"@]);
    let entry = members["data"@]->Array_0[0]->Object_0;
    assert(entry.dom() =~= set!["id"@, "object"@, "owned_by"@]);
}

} // verus!
