use mm_client::cli::query::{
    handle_client_response, rq_endpoint, rq_named_endpoint, to_pretty_print,
};
use mm_client::cli::{CLIError, Config, EndpointConfig};
use mm_client::request::{Credentials, Method};
use mm_client::{Endpoints, MMCError};

fn pair(key: &str, secret: &str) -> EndpointConfig {
    EndpointConfig { key: key.to_string(), secret: secret.to_string() }
}

fn both() -> Config {
    Config { live: Some(pair("lk", "ls")), staging: Some(pair("sk", "ss")) }
}

#[test]
fn generated_config_has_both_pairs() {
    assert_eq!(
        Config::generate("lk".to_string(), "ls".to_string(), "sk".to_string(), "ss".to_string()),
        both()
    );
}

#[test]
fn query_on_the_live_api() {
    let request = rq_endpoint(&both(), false, Endpoints::Show, "42").unwrap();
    assert_eq!(request.method, Method::Get);
    assert_eq!(request.url, "https://media.services.pbs.org/api/v1/shows/42/");
    assert_eq!(
        request.auth,
        Credentials { key: "lk".to_string(), secret: "ls".to_string() }
    );
    assert!(request.close);
    assert_eq!(request.body, None);
}

#[test]
fn query_on_the_staging_api() {
    let request = rq_endpoint(&both(), true, Endpoints::Asset, "a").unwrap();
    assert_eq!(request.url, "https://media-staging.services.pbs.org/api/v1/assets/a/");
    assert_eq!(
        request.auth,
        Credentials { key: "sk".to_string(), secret: "ss".to_string() }
    );
}

#[test]
fn query_without_the_pair_for_its_api() {
    let live_only = Config { live: Some(pair("lk", "ls")), staging: None };
    assert!(matches!(
        rq_endpoint(&live_only, true, Endpoints::Show, "42"),
        Err(CLIError::EndpointConfigMissing)
    ));
    assert!(rq_endpoint(&live_only, false, Endpoints::Show, "42").is_ok());
    let staging_only = Config { live: None, staging: Some(pair("sk", "ss")) };
    assert!(matches!(
        rq_endpoint(&staging_only, false, Endpoints::Show, "42"),
        Err(CLIError::EndpointConfigMissing)
    ));
    assert!(rq_endpoint(&staging_only, true, Endpoints::Show, "42").is_ok());
}

#[test]
fn query_by_the_name_of_the_endpoint() {
    let by_name = rq_named_endpoint(&both(), false, "show", "42").unwrap();
    assert_eq!(by_name, rq_endpoint(&both(), false, Endpoints::Show, "42").unwrap());
    let plural = rq_named_endpoint(&both(), false, "shows", "42").unwrap();
    assert_eq!(plural, by_name);
    assert!(matches!(
        rq_named_endpoint(&both(), false, "movie", "42"),
        Err(CLIError::Endpoint)
    ));
    let empty = Config { live: None, staging: None };
    assert!(matches!(rq_named_endpoint(&empty, false, "movie", "42"), Err(CLIError::Endpoint)));
    assert!(matches!(
        rq_named_endpoint(&empty, false, "show", "42"),
        Err(CLIError::EndpointConfigMissing)
    ));
}

#[test]
fn pretty_print_is_what_serde_json_writes() {
    for text in ["{\"b\":[1,{\"c\":null}],\"a\":\"x\"}", "[]", "\"text\"", "12", " { } "] {
        let read: serde_json::Value = serde_json::from_str(text).unwrap();
        assert_eq!(
            to_pretty_print(text.to_string()).unwrap(),
            serde_json::to_string_pretty(&read).unwrap()
        );
    }
}

#[test]
fn pretty_print_does_not_hand_the_text_back() {
    let text = "{\"name\":\"value\"}";
    assert_ne!(to_pretty_print(text.to_string()).unwrap(), text);
    assert_ne!(handle_client_response(Ok(text.to_string())).unwrap(), "");
}

#[test]
fn pretty_print_of_a_document() {
    assert_eq!(
        to_pretty_print("{\"name\":\"value\"}".to_string()).unwrap(),
        "{\n  \"name\": \"value\"\n}"
    );
    assert_eq!(to_pretty_print("[1,2]".to_string()).unwrap(), "[\n  1,\n  2\n]");
}

#[test]
fn pretty_print_of_what_is_no_document() {
    for text in ["", "{", "not json", "{\"a\":}"] {
        assert!(matches!(to_pretty_print(text.to_string()), Err(CLIError::Format(_))));
    }
}

#[test]
fn shown_result_of_a_query() {
    assert_eq!(handle_client_response(Ok("{\"a\":1}".to_string())).unwrap(), "{\n  \"a\": 1\n}");
    assert!(matches!(
        handle_client_response(Ok("plain text".to_string())),
        Err(CLIError::Format(_))
    ));
    match handle_client_response(Err(MMCError::APIFailure(500))) {
        Err(CLIError::Network(error)) => assert_eq!(error, MMCError::APIFailure(500)),
        other => panic!("expected a Network error, got {:?}", other),
    }
}

#[test]
fn cli_error_texts() {
    assert_eq!(
        CLIError::InvalidConfig.to_string(),
        "Supplied config.toml could not be understood. Try checking for a misspelled or missing property."
    );
    assert_eq!(
        CLIError::EndpointConfigMissing.to_string(),
        "config.toml is missing the key/secret pair for this endpoint."
    );
    assert_eq!(
        CLIError::Endpoint.to_string(),
        "Requested endpoint is not in the list of known endpoints."
    );
    assert_eq!(CLIError::ConfigStorageFailure("denied".to_string()).to_string(), "denied");
    let cause = serde_json::from_str::<serde_json::Value>("{").unwrap_err();
    assert_eq!(CLIError::Format(cause).to_string(), "Failure to format response.");
    assert_eq!(
        CLIError::Network(MMCError::ResourceNotFound).to_string(),
        "Specified resource could not be found"
    );
}
