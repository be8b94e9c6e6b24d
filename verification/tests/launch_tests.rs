use bolt_core::launch::{asset_port, plan_start, Notice, StartError, StartPlan, ADDRESS, VERSION};

fn args(list: &[&str]) -> Vec<String> {
    list.iter().map(|s| s.to_string()).collect()
}

fn idle() -> StartPlan {
    StartPlan { reset: false, launch: false, is_tauri: false, is_headless: false, notice: Notice::Nothing }
}

#[test]
fn constants() {
    assert_eq!(VERSION, "0.12.5");
    assert_eq!(ADDRESS, "127.0.0.1");
}

#[test]
fn no_flag_launches() {
    assert_eq!(plan_start(&args(&["bolt"]), false), Ok(StartPlan { launch: true, ..idle() }));
    assert_eq!(
        plan_start(&args(&["bolt"]), true),
        Ok(StartPlan { launch: true, reset: true, ..idle() })
    );
}

#[test]
fn flags() {
    assert_eq!(plan_start(&args(&["bolt", "--reset"]), false), Ok(StartPlan { reset: true, ..idle() }));
    assert_eq!(plan_start(&args(&["bolt", "-h"]), false), Ok(StartPlan { notice: Notice::Help, ..idle() }));
    assert_eq!(
        plan_start(&args(&["bolt", "--help"]), false),
        Ok(StartPlan { notice: Notice::Help, ..idle() })
    );
    assert_eq!(
        plan_start(&args(&["bolt", "-v"]), false),
        Ok(StartPlan { notice: Notice::Version, ..idle() })
    );
    assert_eq!(
        plan_start(&args(&["bolt", "--version"]), true),
        Ok(StartPlan { notice: Notice::Version, reset: true, ..idle() })
    );
    assert_eq!(
        plan_start(&args(&["bolt", "--tauri"]), false),
        Ok(StartPlan { is_tauri: true, launch: true, ..idle() })
    );
    assert_eq!(
        plan_start(&args(&["bolt", "--headless"]), false),
        Ok(StartPlan { is_headless: true, launch: true, ..idle() })
    );
    assert_eq!(
        plan_start(&args(&["bolt", "--headless", "--nonsense"]), false),
        Ok(StartPlan { is_headless: true, launch: true, ..idle() })
    );
}

#[test]
fn errors() {
    assert_eq!(plan_start(&args(&[]), false), Err(StartError::NoProgramName));
    assert_eq!(plan_start(&args(&["bolt", "--nonsense"]), false), Err(StartError::UnknownFlag));
    assert_eq!(plan_start(&args(&["bolt", ""]), true), Err(StartError::UnknownFlag));
    assert_eq!(plan_start(&args(&["bolt", "--Reset"]), false), Err(StartError::UnknownFlag));
}

#[test]
fn what_a_launch_needs() {
    let plain = plan_start(&args(&["bolt"]), false).unwrap();
    assert!(plain.needs_dist() && plain.serves_assets());
    let tauri = plan_start(&args(&["bolt", "--tauri"]), false).unwrap();
    assert!(!tauri.needs_dist() && !tauri.serves_assets());
    let headless = plan_start(&args(&["bolt", "--headless"]), false).unwrap();
    assert!(headless.needs_dist() && !headless.serves_assets());
    let help = plan_start(&args(&["bolt", "-h"]), false).unwrap();
    assert!(!help.needs_dist() && !help.serves_assets());
}

#[test]
fn asset_port_is_the_next_one() {
    assert_eq!(asset_port(3344), Some(3345));
    assert_eq!(asset_port(0), Some(1));
    assert_eq!(asset_port(65534), Some(65535));
    assert_eq!(asset_port(65535), None);
}
