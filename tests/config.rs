use cellbook::config::Config;

#[test]
fn builders_set_one_field_each() {
    let c = Config::default();
    assert!(c.auto_reload);
    assert_eq!(c.debounce_ms, 500);
    let c = c.auto_reload(false).debounce_ms(20).image_viewer("feh").plot_viewer("gnuplot").show_timings(true).clear_on_run(true);
    assert!(!c.auto_reload);
    assert_eq!(c.debounce_ms, 20);
    assert_eq!(c.image_viewer.as_deref(), Some("feh"));
    assert_eq!(c.plot_viewer.as_deref(), Some("gnuplot"));
    assert!(c.show_timings);
    assert!(c.clear_on_run);
}
