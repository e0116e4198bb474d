//! Body encoding and the typed decode layer: exact wire text, agreement
//! with a general-purpose JSON parser, and encode/decode round trips.

use ovhdata::codec::{
    encode_destination_spec, encode_job_post, encode_source_spec, encode_workflow_patch,
    encode_workflow_spec,
};
use ovhdata::decode::{
    decode_destination_spec, decode_job_post, decode_source_spec, decode_workflow_patch,
    decode_workflow_spec,
};
use ovhdata::model::di::{DestinationSpec, JobPost, SourceSpec, WorkflowPatch, WorkflowSpec};
use ovhdata::model::Parameter;
use ovhdata::transport::Error;

#[test]
fn job_post_encodes_exactly() {
    let post = JobPost {
        parameters: vec!["a".to_string(), "b\"c".to_string()],
    };
    assert_eq!(encode_job_post(&post), "{\"parameters\":[\"a\",\"b\\\"c\"]}");
    let empty = JobPost { parameters: vec![] };
    assert_eq!(encode_job_post(&empty), "{\"parameters\":[]}");
}

#[test]
fn job_post_round_trips() {
    let post = JobPost {
        parameters: vec![
            "plain".to_string(),
            "with \"quotes\" and \\ slash".to_string(),
            "control\tchars\nhere".to_string(),
            "unicode é ☃".to_string(),
            "\u{1}\u{1f}".to_string(),
            String::new(),
        ],
    };
    let text = encode_job_post(&post);
    let back = decode_job_post(&text).expect("canonical text must decode");
    assert_eq!(back, post);

    let empty = JobPost { parameters: vec![] };
    assert_eq!(
        decode_job_post(&encode_job_post(&empty)).expect("must decode"),
        empty
    );
}

#[test]
fn job_post_decode_rejects_garbage() {
    let err = decode_job_post("not json at all").unwrap_err();
    match err {
        Error::DeserializeContent(_, raw) => assert_eq!(raw, "not json at all"),
        _ => panic!("expected a decode failure"),
    }
    assert!(decode_job_post("{\"parameters\":[\"a\",]}").is_err());
    assert!(decode_job_post("{\"parameters\":[\"a\"]").is_err());
}

#[test]
fn workflow_patch_round_trips() {
    let patch = WorkflowPatch {
        name: Some("new name".to_string()),
        description: None,
        schedule: Some("5 4 * * *".to_string()),
        enabled: Some(false),
    };
    let text = encode_workflow_patch(&patch);
    assert_eq!(
        text,
        "{\"name\":\"new name\",\"description\":null,\"schedule\":\"5 4 * * *\",\"enabled\":false}"
    );
    let back = decode_workflow_patch(&text).expect("canonical text must decode");
    assert_eq!(back, patch);

    let blank = WorkflowPatch {
        name: None,
        description: None,
        schedule: None,
        enabled: None,
    };
    assert_eq!(
        decode_workflow_patch(&encode_workflow_patch(&blank)).expect("must decode"),
        blank
    );
}

#[test]
fn workflow_spec_round_trips() {
    let spec = WorkflowSpec {
        name: "wf \\ tricky".to_string(),
        region: "BHS".to_string(),
        description: Some("daily sync".to_string()),
        source_id: "s-1".to_string(),
        destination_id: "d-1".to_string(),
        schedule: None,
        enabled: true,
    };
    let text = encode_workflow_spec(&spec);
    let back = decode_workflow_spec(&text).expect("canonical text must decode");
    assert_eq!(back, spec);
    // a required field given as null does not decode
    assert!(decode_workflow_spec(
        "{\"name\":null,\"region\":\"r\",\"description\":null,\"sourceId\":\"s\",\"destinationId\":\"d\",\"schedule\":null,\"enabled\":true}"
    )
    .is_err());
}

#[test]
fn source_and_destination_specs_round_trip() {
    let spec = SourceSpec {
        name: "src".to_string(),
        connector_id: Some("conn/1".to_string()),
        parameters: vec![
            Parameter {
                name: "host".to_string(),
                value: "h \"x\"".to_string(),
                secret: false,
            },
            Parameter {
                name: "port".to_string(),
                value: "5432".to_string(),
                secret: false,
            },
        ],
    };
    let back = decode_source_spec(&encode_source_spec(&spec)).expect("must decode");
    assert_eq!(back, spec);

    // every field-presence combination survives the trip
    let bare = SourceSpec {
        name: "s".to_string(),
        connector_id: None,
        parameters: vec![],
    };
    assert_eq!(decode_source_spec(&encode_source_spec(&bare)).expect("must decode"), bare);
    let params_only = SourceSpec {
        name: "s".to_string(),
        connector_id: None,
        parameters: vec![Parameter {
            name: "a".to_string(),
            value: "b".to_string(),
            secret: false,
        }],
    };
    assert_eq!(
        decode_source_spec(&encode_source_spec(&params_only)).expect("must decode"),
        params_only
    );

    let dest = DestinationSpec {
        name: "dest".to_string(),
        connector_id: Some("c2".to_string()),
        parameters: vec![Parameter {
            name: "bucket".to_string(),
            value: "b-1".to_string(),
            secret: false,
        }],
    };
    let back = decode_destination_spec(&encode_destination_spec(&dest)).expect("must decode");
    assert_eq!(back, dest);

    // the secret flag is internal: it does not travel, so it comes back
    // cleared
    let secret = SourceSpec {
        name: "s".to_string(),
        connector_id: None,
        parameters: vec![Parameter {
            name: "password".to_string(),
            value: "p".to_string(),
            secret: true,
        }],
    };
    let back = decode_source_spec(&encode_source_spec(&secret)).expect("must decode");
    assert!(!back.parameters[0].secret);
    assert_eq!(back.parameters[0].name, "password");
    assert_eq!(back.parameters[0].value, "p");
}

#[test]
fn encoded_bodies_agree_with_a_general_json_parser() {
    let spec = SourceSpec {
        name: "src \"one\"".to_string(),
        connector_id: Some("conn-1".to_string()),
        parameters: vec![
            Parameter {
                name: "host".to_string(),
                value: "h/1".to_string(),
                secret: false,
            },
            Parameter {
                name: "password".to_string(),
                value: "p".to_string(),
                secret: true,
            },
        ],
    };
    let text = encode_source_spec(&spec);
    let v: serde_json::Value = serde_json::from_str(&text).expect("must be valid JSON");
    assert_eq!(v["name"], "src \"one\"");
    assert_eq!(v["connectorId"], "conn-1");
    assert_eq!(v["parameters"][0]["name"], "host");
    assert_eq!(v["parameters"][1]["value"], "p");
    // the internal secret flag never travels
    assert!(v["parameters"][1].get("secret").is_none());

    // omitted optional fields are omitted, not null
    let bare = SourceSpec {
        name: "s".to_string(),
        connector_id: None,
        parameters: vec![],
    };
    let text = encode_source_spec(&bare);
    assert_eq!(text, "{\"name\":\"s\"}");

    let dest = DestinationSpec {
        name: "d".to_string(),
        connector_id: Some("c".to_string()),
        parameters: vec![],
    };
    assert_eq!(
        encode_destination_spec(&dest),
        "{\"name\":\"d\",\"connectorId\":\"c\"}"
    );

    let wf = WorkflowSpec {
        name: "w".to_string(),
        region: "GRA".to_string(),
        description: None,
        source_id: "s1".to_string(),
        destination_id: "d1".to_string(),
        schedule: Some("0 0 * * *".to_string()),
        enabled: true,
    };
    let text = encode_workflow_spec(&wf);
    let v: serde_json::Value = serde_json::from_str(&text).expect("must be valid JSON");
    assert_eq!(v["name"], "w");
    assert_eq!(v["region"], "GRA");
    assert_eq!(v["description"], serde_json::Value::Null);
    assert_eq!(v["sourceId"], "s1");
    assert_eq!(v["destinationId"], "d1");
    assert_eq!(v["schedule"], "0 0 * * *");
    assert_eq!(v["enabled"], true);
}

#[test]
fn control_characters_escape_like_serde() {
    let post = JobPost {
        parameters: vec!["a\u{1}b\u{1f}c\u{8}d".to_string()],
    };
    let ours = encode_job_post(&post);
    let mut map = serde_json::Map::new();
    map.insert(
        "parameters".to_string(),
        serde_json::Value::Array(vec![serde_json::Value::String(
            "a\u{1}b\u{1f}c\u{8}d".to_string(),
        )]),
    );
    let theirs = serde_json::to_string(&serde_json::Value::Object(map)).unwrap();
    assert_eq!(ours, theirs);
}
