use cpc_gpio_bridge::utils::trace;
use cpc_gpio_bridge::utils::Config;
use cpc_gpio_bridge::utils::LevelFilter;
use cpc_gpio_bridge::utils::Trace;
use cpc_gpio_bridge::utils::Version;

fn config(trace: Trace) -> Config {
    Config {
        trace,
        instance: String::from("cpcd_0"),
        lock_dir: String::from("/tmp"),
        deinit: false,
    }
}

#[test]
fn trace_off_logs_info_only() {
    let trace_config = trace(&config(Trace::Off));
    assert_eq!(trace_config.bridge, LevelFilter::Info);
    assert!(!trace_config.libcpc);
}

#[test]
fn trace_bridge_logs_debug() {
    let trace_config = trace(&config(Trace::Bridge));
    assert_eq!(trace_config.bridge, LevelFilter::Debug);
    assert!(!trace_config.libcpc);
}

#[test]
fn trace_libcpc_traces_the_transport() {
    let trace_config = trace(&config(Trace::Libcpc));
    assert_eq!(trace_config.bridge, LevelFilter::Info);
    assert!(trace_config.libcpc);
}

#[test]
fn trace_all_does_both() {
    let trace_config = trace(&config(Trace::All));
    assert_eq!(trace_config.bridge, LevelFilter::Debug);
    assert!(trace_config.libcpc);
}

#[test]
fn versions_are_compatible_by_major() {
    let ours = Version { major: 1, minor: 0, patch: 0 };
    assert!(ours.is_compatible_with(&Version { major: 1, minor: 7, patch: 3 }));
    assert!(!ours.is_compatible_with(&Version { major: 2, minor: 0, patch: 0 }));
}

#[test]
fn versions_are_written_with_dots() {
    assert_eq!(Version { major: 1, minor: 0, patch: 0 }.text(), "1.0.0");
    assert_eq!(Version { major: 12, minor: 255, patch: 7 }.text(), "12.255.7");
}
