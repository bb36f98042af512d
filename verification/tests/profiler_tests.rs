use telemetry_rust::profiler::ProfilerSettings;

#[test]
fn profiler_settings_of_a_service() {
    let settings = ProfilerSettings::for_service("http://localhost:4040", "shop");
    assert_eq!(settings.url, "http://localhost:4040");
    assert_eq!(settings.application_name, "shop");
    assert_eq!(settings.sample_rate, 100);
    assert!(settings.report_thread_id);
    assert!(settings.report_thread_name);
    assert_eq!(settings.tags.len(), 2);
    assert_eq!(settings.tags[0].key, "service_name");
    assert_eq!(settings.tags[0].value, "shop");
    assert_eq!(settings.tags[1].key, "language");
    assert_eq!(settings.tags[1].value, "rust");
}
