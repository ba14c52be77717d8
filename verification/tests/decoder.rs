use openapi_decode::{
    aggregate, attempt, decode_in_order, match_schema, parse_openapi_content,
    parse_openapi_content_debug, settle, AggregatedError, DecodeError, DecodeEvent, FormatGuess,
    SchemaGap, Sniff,
};

const JSON_SPEC: &str = "{\"openapi\":\"3.0.0\",\"info\":{\"title\":\"t\",\"version\":\"1\"},\"paths\":{}}";
const YAML_SPEC: &str = "openapi: \"3.0.0\"\ninfo:\n  title: t\n  version: \"1\"\npaths: {}";
const NO_SPEC: &str = "not a spec at all";

fn json_debug(text: &str) -> String {
    format!("{:?}", serde_json::from_str::<serde_json::Value>(text).unwrap_err())
}

fn yaml_debug(text: &str) -> String {
    format!("{:?}", serde_yaml::from_str::<serde_json::Value>(text).unwrap_err())
}

fn document(text: &str) -> serde_json::Value {
    serde_json::from_str(text).unwrap()
}

#[test]
fn json_document_decodes_at_first_attempt() {
    assert_eq!(openapi_decode::guess(JSON_SPEC), FormatGuess::Json);
    let spec = parse_openapi_content(JSON_SPEC).unwrap();
    assert_eq!(spec.openapi, "3.0.0");
    assert_eq!(spec.info.title, "t");
    assert_eq!(spec.info.version, "1");
    assert_eq!(spec.document, document(JSON_SPEC));
}

#[test]
fn json_document_records_one_attempt() {
    let report = parse_openapi_content_debug(JSON_SPEC);
    assert_eq!(
        report.events,
        vec![
            DecodeEvent::Sniffed(Sniff { likely_json: true, likely_yaml: false }),
            DecodeEvent::Attempting(FormatGuess::Json),
            DecodeEvent::Succeeded(FormatGuess::Json),
        ]
    );
    assert_eq!(report.outcome.unwrap().openapi, "3.0.0");
}

#[test]
fn yaml_document_decodes_at_first_attempt() {
    assert_eq!(openapi_decode::guess(YAML_SPEC), FormatGuess::Yaml);
    let report = parse_openapi_content_debug(YAML_SPEC);
    assert_eq!(
        report.events,
        vec![
            DecodeEvent::Sniffed(Sniff { likely_json: false, likely_yaml: true }),
            DecodeEvent::Attempting(FormatGuess::Yaml),
            DecodeEvent::Succeeded(FormatGuess::Yaml),
        ]
    );
    let spec = report.outcome.unwrap();
    assert_eq!(spec.openapi, "3.0.0");
    assert_eq!(spec.info.title, "t");
    assert_eq!(spec.info.version, "1");
    assert_eq!(spec.document, document(JSON_SPEC));
    assert_eq!(parse_openapi_content(YAML_SPEC).unwrap(), spec);
}

#[test]
fn plain_words_fail_in_both_codecs_yaml_first() {
    assert_eq!(openapi_decode::guess(NO_SPEC), FormatGuess::Yaml);
    let e = parse_openapi_content(NO_SPEC).unwrap_err();
    assert_eq!(e.order, FormatGuess::Yaml);
    assert_eq!(e.first, DecodeError::YamlDecodeFailure("no string at `/openapi`".to_string()));
    assert_eq!(
        e.second,
        DecodeError::JsonDecodeFailure("Error(\"expected ident\", line: 1, column: 2)".to_string())
    );
    assert_eq!(
        e.message(),
        "YAML parse failed: no string at `/openapi`, JSON parse failed: Error(\"expected ident\", line: 1, column: 2)"
    );
}

#[test]
fn plain_words_record_both_attempts() {
    let report = parse_openapi_content_debug(NO_SPEC);
    let e = report.outcome.unwrap_err();
    assert_eq!(
        report.events,
        vec![
            DecodeEvent::Sniffed(Sniff { likely_json: false, likely_yaml: false }),
            DecodeEvent::Attempting(FormatGuess::Yaml),
            DecodeEvent::Failed(e.first.clone()),
            DecodeEvent::Attempting(FormatGuess::Json),
            DecodeEvent::Failed(e.second.clone()),
        ]
    );
    assert_eq!(e, parse_openapi_content(NO_SPEC).unwrap_err());
}

#[test]
fn empty_text_fails_after_both_attempts() {
    for text in ["", "   "] {
        let report = parse_openapi_content_debug(text);
        let e = report.outcome.unwrap_err();
        assert_eq!(e.order, FormatGuess::Yaml);
        assert_eq!(e.first.codec(), FormatGuess::Yaml);
        assert_eq!(e.second.codec(), FormatGuess::Json);
        assert_eq!(e.first.detail(), "no string at `/openapi`");
        assert_eq!(e.second.detail(), json_debug(text));
        assert_eq!(report.events.len(), 5);
        assert_eq!(report.events[1], DecodeEvent::Attempting(FormatGuess::Yaml));
        assert_eq!(report.events[3], DecodeEvent::Attempting(FormatGuess::Json));
    }
}

#[test]
fn json_document_decodes_in_either_order() {
    let json_first = decode_in_order(FormatGuess::Json, JSON_SPEC).unwrap();
    let yaml_first = decode_in_order(FormatGuess::Yaml, JSON_SPEC).unwrap();
    assert_eq!(json_first.openapi, "3.0.0");
    assert_eq!(yaml_first.openapi, "3.0.0");
    assert_eq!(json_first, yaml_first);
}

#[test]
fn yaml_document_decodes_by_fallback_when_json_is_first() {
    assert!(attempt(FormatGuess::Json, YAML_SPEC).is_err());
    let spec = decode_in_order(FormatGuess::Json, YAML_SPEC).unwrap();
    assert_eq!(spec, attempt(FormatGuess::Yaml, YAML_SPEC).unwrap());
    assert_eq!(spec.info.title, "t");
}

#[test]
fn yaml_in_braces_decodes_by_fallback_after_a_json_guess() {
    let text = "{openapi: 3.0.0, info: {title: t, version: v1}, paths: {}}";
    let report = parse_openapi_content_debug(text);
    assert_eq!(
        report.events,
        vec![
            DecodeEvent::Sniffed(Sniff { likely_json: true, likely_yaml: false }),
            DecodeEvent::Attempting(FormatGuess::Json),
            DecodeEvent::Failed(DecodeError::JsonDecodeFailure(json_debug(text))),
            DecodeEvent::Attempting(FormatGuess::Yaml),
            DecodeEvent::Succeeded(FormatGuess::Yaml),
        ]
    );
    let spec = report.outcome.unwrap();
    assert_eq!(spec.openapi, "3.0.0");
    assert_eq!(spec.info.version, "v1");
}

#[test]
fn broken_json_fails_in_both_codecs_json_first() {
    let text = "{\"openapi\": ";
    let e = parse_openapi_content(text).unwrap_err();
    assert_eq!(e.order, FormatGuess::Json);
    assert_eq!(e.first, DecodeError::JsonDecodeFailure(json_debug(text)));
    assert_eq!(e.second, DecodeError::YamlDecodeFailure(yaml_debug(text)));
    assert_eq!(
        e.first.detail(),
        "Error(\"EOF while parsing a value\", line: 1, column: 12)"
    );
    assert!(!e.second.detail().is_empty());
    assert_ne!(e.first.codec(), e.second.codec());
}

#[test]
fn failure_in_either_order_keeps_the_order_of_the_attempts() {
    for order in [FormatGuess::Json, FormatGuess::Yaml] {
        let e = decode_in_order(order, NO_SPEC).unwrap_err();
        assert_eq!(e.order, order);
        assert_eq!(e.first.codec(), order);
        assert_eq!(e.second.codec(), order.other());
        assert!(!e.first.detail().is_empty());
        assert!(!e.second.detail().is_empty());
    }
}

#[test]
fn valid_syntax_without_the_shape_fails_in_both_codecs() {
    let text = "{\"openapi\": \"3.0.0\", \"info\": {\"title\": \"t\"}, \"paths\": {}}";
    let e = parse_openapi_content(text).unwrap_err();
    assert_eq!(e.order, FormatGuess::Json);
    assert_eq!(e.first, DecodeError::JsonDecodeFailure("no string at `/info/version`".to_string()));
    assert_eq!(e.second, DecodeError::YamlDecodeFailure("no string at `/info/version`".to_string()));
}

#[test]
fn match_schema_names_the_first_gap() {
    let cases = [
        ("[]", SchemaGap::Openapi),
        ("{}", SchemaGap::Openapi),
        ("{\"openapi\": 3}", SchemaGap::Openapi),
        ("{\"openapi\": \"3.0.0\"}", SchemaGap::Info),
        ("{\"openapi\": \"3.0.0\", \"info\": \"x\", \"paths\": {}}", SchemaGap::Info),
        ("{\"openapi\": \"3.0.0\", \"info\": {}}", SchemaGap::InfoTitle),
        ("{\"openapi\": \"3.0.0\", \"info\": {\"title\": null, \"version\": \"1\"}}", SchemaGap::InfoTitle),
        ("{\"openapi\": \"3.0.0\", \"info\": {\"title\": \"t\"}}", SchemaGap::InfoVersion),
        ("{\"openapi\": \"3.0.0\", \"info\": {\"title\": \"t\", \"version\": 1}}", SchemaGap::InfoVersion),
        ("{\"openapi\": \"3.0.0\", \"info\": {\"title\": \"t\", \"version\": \"1\"}}", SchemaGap::Paths),
        ("{\"openapi\": \"3.0.0\", \"info\": {\"title\": \"t\", \"version\": \"1\"}, \"paths\": []}", SchemaGap::Paths),
    ];
    for (text, gap) in cases {
        assert_eq!(match_schema(document(text)), Err(gap), "{}", text);
    }
}

#[test]
fn match_schema_reads_the_required_members() {
    let text = "{\"paths\": {\"/pets\": {}}, \"info\": {\"version\": \"2.1\", \"title\": \"Pets\", \"x\": 1}, \"openapi\": \"3.0.3\"}";
    let spec = match_schema(document(text)).unwrap();
    assert_eq!(spec.openapi, "3.0.3");
    assert_eq!(spec.info.title, "Pets");
    assert_eq!(spec.info.version, "2.1");
    assert_eq!(spec.document, document(text));
    assert!(spec.document.pointer("/paths/~1pets").is_some());
}

#[test]
fn schema_gap_descriptions() {
    assert_eq!(SchemaGap::Openapi.describe(), "no string at `/openapi`");
    assert_eq!(SchemaGap::Info.describe(), "no object at `/info`");
    assert_eq!(SchemaGap::InfoTitle.describe(), "no string at `/info/title`");
    assert_eq!(SchemaGap::InfoVersion.describe(), "no string at `/info/version`");
    assert_eq!(SchemaGap::Paths.describe(), "no object at `/paths`");
}

#[test]
fn settle_keeps_the_codec_diagnostic() {
    let r = settle(FormatGuess::Json, Err("boom".to_string()));
    assert_eq!(r, Err(DecodeError::JsonDecodeFailure("boom".to_string())));
    let r = settle(FormatGuess::Yaml, Err("boom".to_string()));
    assert_eq!(r, Err(DecodeError::YamlDecodeFailure("boom".to_string())));
}

#[test]
fn settle_holds_a_document_against_the_shape() {
    let r = settle(FormatGuess::Yaml, Ok(document("{\"openapi\": \"3.0.0\"}")));
    assert_eq!(r, Err(DecodeError::YamlDecodeFailure("no object at `/info`".to_string())));
    let spec = settle(FormatGuess::Yaml, Ok(document(JSON_SPEC))).unwrap();
    assert_eq!(spec.openapi, "3.0.0");
    assert_eq!(spec.document, document(JSON_SPEC));
}

#[test]
fn attempt_uses_the_codec_it_is_given() {
    let text = "openapi: 3.0.0";
    assert_eq!(
        attempt(FormatGuess::Json, text),
        Err(DecodeError::JsonDecodeFailure(json_debug(text)))
    );
    assert_eq!(
        attempt(FormatGuess::Yaml, text),
        Err(DecodeError::YamlDecodeFailure("no object at `/info`".to_string()))
    );
    let broken = "a: [";
    assert_eq!(
        attempt(FormatGuess::Yaml, broken),
        Err(DecodeError::YamlDecodeFailure(yaml_debug(broken)))
    );
}

#[test]
fn aggregate_keeps_its_arguments() {
    let first = DecodeError::JsonDecodeFailure("j".to_string());
    let second = DecodeError::YamlDecodeFailure("y".to_string());
    let e = aggregate(first.clone(), second.clone(), FormatGuess::Json);
    assert_eq!(e, AggregatedError { first, second, order: FormatGuess::Json });
    assert_eq!(e.message(), "JSON parse failed: j, YAML parse failed: y");
}

#[test]
fn message_follows_the_order_of_the_attempts() {
    let e = aggregate(
        DecodeError::YamlDecodeFailure("did not find expected key".to_string()),
        DecodeError::JsonDecodeFailure("expected value".to_string()),
        FormatGuess::Yaml,
    );
    assert_eq!(
        e.message(),
        "YAML parse failed: did not find expected key, JSON parse failed: expected value"
    );
}

#[test]
fn decode_error_accessors() {
    let e = DecodeError::new(FormatGuess::Yaml, "why".to_string());
    assert_eq!(e, DecodeError::YamlDecodeFailure("why".to_string()));
    assert_eq!(e.codec(), FormatGuess::Yaml);
    assert_eq!(e.detail(), "why");
    let e = DecodeError::new(FormatGuess::Json, String::new());
    assert_eq!(e, DecodeError::JsonDecodeFailure(String::new()));
    assert_eq!(e.codec(), FormatGuess::Json);
    assert_eq!(e.clone(), e);
}
