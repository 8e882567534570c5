use docgen::renderer::DocumentRendererFactory;

const FORMAT_ISO: &str = "%FT%T%z";

const ALL_GENERATORS: [&str; 56] = [
    "date",
    "now",
    "hash",
    "random_value",
    "chance",
    "randomint",
    "digit",
    "username",
    "domainsuffix",
    "ipv4",
    "ipv6",
    "ip",
    "macaddress",
    "freeemail",
    "safeemail",
    "freeemailprovider",
    "word",
    "firstname",
    "lastname",
    "title",
    "suffix",
    "name",
    "namewithtitle",
    "filepath",
    "filename",
    "fileextension",
    "dirpath",
    "companysuffix",
    "companyname",
    "buzzword",
    "buzzwordmiddle",
    "buzzwordtail",
    "catchphase",
    "bsverb",
    "bsadj",
    "bsnoun",
    "bs",
    "profession",
    "industry",
    "cityprefix",
    "citysuffix",
    "cityname",
    "countryname",
    "countrycode",
    "streetsuffix",
    "streetname",
    "timezone",
    "statename",
    "stateabbr",
    "secondaryaddresstype",
    "secondaryaddress",
    "zipcode",
    "postcode",
    "buildingnumber",
    "latitude",
    "longitude",
];

#[test]
fn it_replaces_the_generators_with_values() {
    let mut renderer = DocumentRendererFactory::create_renderer();

    let result = renderer
        .render(
            r#"{
            "values": {
              "@timestamp": "{{date()}}",
              "file.hash.md5": "{{hash()}}"
            },
            "index": {
              "mappings": {
                "properties": {
                  "file.hash.md5": { "type": "keyword" },
                  "@timestamp": { "type": "date" }
                }
              }
            }
          }
        "#,
        )
        .unwrap();

    assert_eq!(result.contains("date()"), false);
    assert_eq!(result.contains("hash()"), false);

    let dt = chrono::Utc::now();

    assert_eq!(result.contains(&dt.format(FORMAT_ISO).to_string()), true);
}

#[test]
fn end_to_end_substitutes_both_spans() {
    let mut renderer = DocumentRendererFactory::create_renderer();
    let result = renderer.render(r#"{"ts": "{{now()}}", "id": "{{hash()}}"}"#).unwrap();

    assert!(result.starts_with(r#"{"ts": ""#));
    assert!(result.ends_with(r#""}"#));
    assert!(!result.contains("{{"));
    assert!(!result.contains("}}"));

    let after_ts = &result[r#"{"ts": ""#.len()..];
    let ts: &str = after_ts.split('"').next().unwrap();
    assert_eq!(ts.len(), 24);
    assert!(ts.ends_with("+0000"));

    let id_marker = r#""id": ""#;
    let id_start = result.find(id_marker).unwrap() + id_marker.len();
    let id: &str = result[id_start..].split('"').next().unwrap();
    assert_eq!(id.len(), 16);
    assert!(id.chars().all(|c| c.is_ascii_alphanumeric()));
}

#[test]
fn recognized_placeholders_leave_no_placeholder_syntax() {
    let mut renderer = DocumentRendererFactory::create_renderer();
    let template = "{{date()}} {{now()}} {{hash()}} {{randomint(range=4)}} \
        {{random_value(options='a|b')}} {{chance(range=3, options='x|y')}} \
        {{username()}} {{cityname()}} {{digit()}}";
    let result = renderer.render(template).unwrap();
    assert!(!result.contains("{{"));
    assert!(!result.contains("}}"));
    assert!(!result.contains("()"));
}

#[test]
fn list_generators_covers_every_declared_generator() {
    let renderer = DocumentRendererFactory::create_renderer();
    let listed = renderer.get_generators();
    assert!(!listed.is_empty());
    for name in ALL_GENERATORS {
        assert!(
            listed.iter().any(|(n, d)| n == name && !d.is_empty()),
            "generator {} is not listed",
            name
        );
    }
}

#[test]
fn template_syntax_error_fails_the_render() {
    let mut renderer = DocumentRendererFactory::create_renderer();
    let result = renderer.render(r#"{{date()"#);
    assert!(result.is_err());
    assert!(!result.unwrap_err().message().is_empty());
}

#[test]
fn unknown_placeholder_fails_the_render() {
    let mut renderer = DocumentRendererFactory::create_renderer();
    assert!(renderer.render(r#"{{nosuchgenerator()}}"#).is_err());
}

#[test]
fn failing_generator_aborts_the_whole_render() {
    let mut renderer = DocumentRendererFactory::create_renderer();
    // `chance` without its required arguments signals a typed error, and the
    // render returns nothing but that failure.
    assert!(renderer.render(r#"ok so far {{chance()}}"#).is_err());
}
