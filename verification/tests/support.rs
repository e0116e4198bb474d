//! The supporting layers: configuration lookup, command-line value parsing,
//! listing helpers and secret hiding.

use ovhdata::cli::{DataLogContext, Features, Ovhapiv6Credentials, Region};
use ovhdata::config::{AllConfig, Config, ConfigName, ConfigOVHapiV6};
use ovhdata::model::di::ConnectorValidator;
use ovhdata::model::{EnsureSecret, Page, Parameter};
use ovhdata::options::{ascii_lower, NameValue, OutputList, OutputObject, ParseError};
use ovhdata::printer::{Output, Printer};
use ovhdata::util::{human_duration, PageQueryParams, SortQueryParams};

fn region_config(url: &str) -> Config {
    Config {
        cli_release_url: "https://example.com/releases".to_string(),
        auth_method: "token".to_string(),
        ovhapiv6: ConfigOVHapiV6 {
            endpoint_url: url.to_string(),
            create_token_url: "https://example.com/token".to_string(),
        },
    }
}

#[test]
fn config_lookup_and_selection() {
    let mut all = AllConfig {
        current_config_name: ConfigName("OVH-EU".to_string()),
        configs: vec![
            (ConfigName("OVH-EU".to_string()), region_config("https://eu.example")),
            (ConfigName("OVH-CA".to_string()), region_config("https://ca.example")),
        ],
    };
    assert_eq!(all.get_current_config_name().as_str(), "OVH-EU");
    let current = all.get_current_config().expect("current must resolve");
    assert_eq!(current.ovhapiv6.endpoint_url, "https://eu.example");

    let ca = all.get_config(&ConfigName("OVH-CA".to_string()));
    assert_eq!(
        ca.expect("must exist").ovhapiv6.endpoint_url,
        "https://ca.example"
    );
    assert!(all.get_config(&ConfigName("US".to_string())).is_none());

    let picked = all
        .set_current_config(ConfigName("OVH-CA".to_string()))
        .expect("known name must select");
    assert_eq!(picked.ovhapiv6.endpoint_url, "https://ca.example");
    assert_eq!(all.get_current_config_name().as_str(), "OVH-CA");

    assert!(all.set_current_config(ConfigName("US".to_string())).is_err());
    assert_eq!(all.get_current_config_name().as_str(), "OVH-CA");
}

#[test]
fn config_add_replaces_by_name() {
    let mut all = AllConfig {
        current_config_name: ConfigName("OVH-EU".to_string()),
        configs: vec![(ConfigName("OVH-EU".to_string()), region_config("https://old.example"))],
    };
    all.add_config(
        ConfigName("OVH-EU".to_string()),
        region_config("https://new.example"),
    );
    assert_eq!(all.configs.len(), 1);
    let got = all.get_config(&ConfigName("OVH-EU".to_string())).unwrap();
    assert_eq!(got.ovhapiv6.endpoint_url, "https://new.example");

    all.add_config(
        ConfigName("OVH-CA".to_string()),
        region_config("https://ca.example"),
    );
    assert_eq!(all.configs.len(), 2);
}

#[test]
fn name_value_parses_at_first_equals() {
    let nv = NameValue::parse("host=h=1").expect("must parse");
    assert_eq!(nv.name, "host");
    assert_eq!(nv.value, "h=1");

    let nv = NameValue::parse("key=").expect("must parse");
    assert_eq!(nv.name, "key");
    assert_eq!(nv.value, "");

    let nv = NameValue::parse("=v").expect("must parse");
    assert_eq!(nv.name, "");
    assert_eq!(nv.value, "v");

    assert_eq!(NameValue::parse("noequals"), Err(ParseError::NameValueParse));

    let p = NameValue::parse("a=b").unwrap().into_parameter();
    assert_eq!(p.name, "a");
    assert_eq!(p.value, "b");
    assert!(!p.secret);
}

#[test]
fn output_formats_parse_case_insensitively() {
    assert_eq!(ascii_lower("JSON"), "json");
    assert_eq!("YAML".parse::<OutputObject>(), Ok(OutputObject::Yaml));
    assert_eq!("json".parse::<OutputList>(), Ok(OutputList::Json));
    assert_eq!("Table".parse::<OutputList>(), Ok(OutputList::Table));
    assert_eq!("nope".parse::<OutputObject>(), Err(ParseError::OutputParse));
    assert!(matches!(Output::default_table(), Output::Table(h) if h.is_empty()));
}

#[test]
fn durations_render_with_coarsening_units() {
    assert_eq!(human_duration(&30), "30s");
    assert_eq!(human_duration(&119), "119s");
    assert_eq!(human_duration(&120), "2m");
    assert_eq!(human_duration(&3600), "60m");
    assert_eq!(human_duration(&7200), "2h");
    assert_eq!(human_duration(&172800), "2d");
    assert_eq!(human_duration(&190000), "2d");
}

#[test]
fn query_params_enrich_in_order() {
    let page = PageQueryParams {
        page: Some(2),
        size: Some(50),
    };
    assert!(page.has_params());
    let q = page.enrich_query(&vec![("a".to_string(), "b".to_string())]);
    assert_eq!(
        q,
        vec![
            ("a".to_string(), "b".to_string()),
            ("page".to_string(), "2".to_string()),
            ("size".to_string(), "50".to_string()),
        ]
    );

    let sort = SortQueryParams {
        order: Some("asc".to_string()),
        sort: None,
        updated_after: Some(-5),
        updated_before: None,
    };
    assert!(sort.has_params());
    let q = sort.enrich_query(&vec![]);
    assert_eq!(
        q,
        vec![
            ("order".to_string(), "asc".to_string()),
            ("updatedAfter".to_string(), "-5".to_string()),
        ]
    );

    let none = PageQueryParams {
        page: None,
        size: None,
    };
    assert!(!none.has_params());
    assert_eq!(none.enrich_query(&vec![]), vec![]);
}

#[test]
fn secrets_never_show() {
    let p = Parameter {
        name: "password".to_string(),
        value: "hunter2".to_string(),
        secret: true,
    };
    let hidden = p.hide_secrets();
    assert_eq!(hidden.value, "[secret_hidden]");
    assert_eq!(hidden.name, "password");

    let open = Parameter {
        name: "host".to_string(),
        value: "h".to_string(),
        secret: false,
    };
    assert_eq!(open.hide_secrets().value, "h");

    let creds = Ovhapiv6Credentials {
        application_key: Some("ak".to_string()),
        application_secret: Some("verysecret".to_string()),
        consumer_key: Some("ck".to_string()),
    };
    let hidden = creds.hide_secrets();
    assert_eq!(hidden.application_secret.as_deref(), Some("[hidden_secret]"));
    assert_eq!(hidden.application_key.as_deref(), Some("ak"));
}

#[test]
fn page_wraps_items_as_single_page() {
    let page = Page::new_unique(vec![1u32, 2, 3]);
    assert_eq!(page.items, vec![1, 2, 3]);
    assert_eq!(page.metadata.current_page, 0);
    assert_eq!(page.metadata.page_count, 1);
    assert_eq!(page.metadata.total, 3);
    assert!(page.metadata.links.next.is_none());
}

#[test]
fn validator_help_states_integer_bounds() {
    let validator = ConnectorValidator {
        min: 1,
        max: 5,
        regex: None,
    };
    assert_eq!(
        Printer::get_validator_help("int", &Some(validator.clone())),
        "Min value=1 , max value=5"
    );
    let flat = ConnectorValidator {
        min: 3,
        max: 3,
        regex: None,
    };
    assert_eq!(
        Printer::get_validator_help("int", &Some(flat)),
        "None (any integer without spaces)"
    );
    assert_eq!(
        Printer::get_validator_help("string", &Some(validator)),
        "None (string by default)"
    );
    assert_eq!(Printer::get_validator_help("int", &None), "None");
}

#[test]
fn connector_parameters_merge_from_input() {
    let cp = |name: &str, value_type: &str| ovhdata::model::di::ConnectorParameter {
        name: name.to_string(),
        default: None,
        mandatory: true,
        value_type: value_type.to_string(),
        validator: None,
        description: String::new(),
    };
    let nv = |name: &str, value: &str| NameValue {
        name: name.to_string(),
        value: value.to_string(),
    };
    let input = vec![nv("host", "h1"), nv("password", "p"), nv("host", "h2")];
    let connectors = vec![cp("host", "string"), cp("password", "secret"), cp("port", "int")];
    let merged = Printer::ask_connector_parameters(&input, &connectors);
    assert_eq!(merged.len(), 2);
    // connector order, last occurrence of a repeated name wins
    assert_eq!(merged[0].name, "host");
    assert_eq!(merged[0].value, "h2");
    assert!(!merged[0].secret);
    // a parameter of type secret is marked secret
    assert_eq!(merged[1].name, "password");
    assert!(merged[1].secret);
}

#[test]
fn misc_defaults_hold() {
    let f = Features::default();
    assert!(f.auto_upgrade && f.confirm_before_upgrade && f.app_beta_banner);
    assert_eq!(Region::EU.as_str(), "OVH-EU");
    assert_eq!(Region::CA.as_str(), "OVH-CA");
    let ctx = DataLogContext::default().with_worker_id(7);
    assert_eq!(ctx.worker_id, "7");
    assert_eq!(ctx.project_uuid, "null");
    let ua = ovhdata::util::UserAgent::new("ovhdata-cli", "1.2.3", "linux");
    assert_eq!(ua.as_string(), "ovhdata-cli/1.2.3 (linux)");
}
