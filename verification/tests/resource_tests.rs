use telemetry_rust::resource::{Attribute, ResourceDescriptor};

fn text(value: Option<&String>) -> Option<&str> {
    value.map(|v| v.as_str())
}

#[test]
fn service_name_is_read_back() {
    let descriptor = ResourceDescriptor::from_attributes(vec![Attribute::new("service.name", "x")]);
    assert_eq!(text(descriptor.get("service.name")), Some("x"));
    assert_eq!(text(descriptor.service_name()), Some("x"));
}

#[test]
fn every_key_of_the_set_is_read_back() {
    let descriptor = ResourceDescriptor::from_attributes(vec![
        Attribute::new("service.name", "svc"),
        Attribute::new("service.version", "1.2.3"),
        Attribute::new("service.environment", "staging"),
        Attribute::new("job", "telemetry"),
    ]);
    assert_eq!(text(descriptor.get("service.name")), Some("svc"));
    assert_eq!(text(descriptor.get("service.version")), Some("1.2.3"));
    assert_eq!(text(descriptor.get("service.environment")), Some("staging"));
    assert_eq!(text(descriptor.get("job")), Some("telemetry"));
    assert_eq!(text(descriptor.service_version()), Some("1.2.3"));
    assert_eq!(text(descriptor.service_environment()), Some("staging"));
}

#[test]
fn reading_twice_gives_the_same_value() {
    let descriptor = ResourceDescriptor::from_attributes(vec![Attribute::new("job", "a")]);
    let first = text(descriptor.get("job")).map(|s| s.to_string());
    let second = text(descriptor.get("job")).map(|s| s.to_string());
    assert_eq!(first, second);
    assert_eq!(first, Some("a".to_string()));
}

#[test]
fn absent_key_reads_as_none() {
    let descriptor = ResourceDescriptor::from_attributes(vec![Attribute::new("service.name", "x")]);
    assert_eq!(descriptor.get("service.version"), None);
    assert_eq!(descriptor.service_version(), None);
    assert_eq!(descriptor.service_environment(), None);
    assert!(!descriptor.contains_key("job"));
    assert!(descriptor.contains_key("service.name"));
}

#[test]
fn empty_descriptor_has_no_key() {
    let descriptor = ResourceDescriptor::from_attributes(Vec::new());
    assert_eq!(descriptor.get("service.name"), None);
    assert_eq!(descriptor.service_name(), None);
    assert_eq!(descriptor.entries().len(), 0);
}

#[test]
fn repeated_key_keeps_its_last_value() {
    let descriptor = ResourceDescriptor::from_attributes(vec![
        Attribute::new("job", "first"),
        Attribute::new("service.name", "svc"),
        Attribute::new("job", "second"),
    ]);
    assert_eq!(text(descriptor.get("job")), Some("second"));
    assert_eq!(descriptor.entries().len(), 3);
}

#[test]
fn keys_are_matched_exactly() {
    let descriptor = ResourceDescriptor::from_attributes(vec![Attribute::new("service.name", "x")]);
    assert_eq!(descriptor.get("service.nam"), None);
    assert_eq!(descriptor.get("service.name "), None);
    assert_eq!(descriptor.get("Service.Name"), None);
}

#[test]
fn duplicate_has_the_same_entries() {
    let descriptor = ResourceDescriptor::from_attributes(vec![
        Attribute::new("service.name", "svc"),
        Attribute::new("job", "j"),
    ]);
    let copy = descriptor.duplicate();
    assert_eq!(copy.entries().len(), 2);
    assert_eq!(text(copy.get("service.name")), Some("svc"));
    assert_eq!(text(copy.get("job")), Some("j"));
}

#[test]
fn attribute_duplicate_keeps_key_and_value() {
    let attribute = Attribute::new("k", "v");
    let copy = attribute.duplicate();
    assert_eq!(copy.key, "k");
    assert_eq!(copy.value, "v");
}

#[test]
fn exported_resource_carries_the_attributes() {
    let descriptor = ResourceDescriptor::from_attributes(vec![
        Attribute::new("service.name", "x"),
        Attribute::new("job", "first"),
        Attribute::new("job", "second"),
    ]);
    assert_eq!(descriptor.exported_value("service.name"), Some("x".to_string()));
    assert_eq!(descriptor.exported_value("job"), Some("second".to_string()));
}

#[test]
fn exported_resource_is_read_by_key() {
    let descriptor = ResourceDescriptor::from_attributes(vec![
        Attribute::new("service.name", "x"),
        Attribute::new("service.version", "9"),
    ]);
    assert_eq!(descriptor.exported_value("service.version"), Some("9".to_string()));
    assert_eq!(descriptor.exported_value("no.such.attribute.of.this.service"), None);
}

#[test]
fn exported_resource_holds_what_the_sdk_detects() {
    let descriptor = ResourceDescriptor::from_attributes(vec![Attribute::new("service.name", "x")]);
    assert_eq!(descriptor.exported_value("telemetry.sdk.language"), Some("rust".to_string()));
}
