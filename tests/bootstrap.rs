use studio::build_mode::{BuildMode, Platform, Profile};
use studio::capability::Capability;
use studio::config::{BuilderConfig, RegistrationError};
use studio::coordinator::{
    decide_launch, CoordinatorState, LaunchDecision, RelaunchEvent, SingleInstanceCoordinator,
};
use studio::gate::{
    apply_platform_gate, base_capability_list, build_config, compose_base,
    desktop_capability_list,
};
use studio::lifecycle::{start, Phase, Startup};
use studio::window::{
    enable_devtools_if_debug, focus_main_window, main_window_label, WindowAction,
};

const BASE: [Capability; 6] = [
    Capability::Shell,
    Capability::Dialog,
    Capability::Fs,
    Capability::Process,
    Capability::Os,
    Capability::Http,
];

const ALL: [Capability; 8] = [
    Capability::Shell,
    Capability::Dialog,
    Capability::Fs,
    Capability::Process,
    Capability::Os,
    Capability::Http,
    Capability::SingleInstance,
    Capability::Updater,
];

fn modes() -> Vec<BuildMode> {
    vec![
        BuildMode::new(Platform::Desktop, Profile::Debug),
        BuildMode::new(Platform::Desktop, Profile::Release),
        BuildMode::new(Platform::Mobile, Profile::Debug),
        BuildMode::new(Platform::Mobile, Profile::Release),
    ]
}

#[test]
fn mobile_config_is_the_base_set() {
    for profile in [Profile::Debug, Profile::Release] {
        let config = build_config(BuildMode::new(Platform::Mobile, profile));
        assert_eq!(config.capabilities(), BASE.to_vec());
        assert!(!config.contains(Capability::SingleInstance));
        assert!(!config.contains(Capability::Updater));
    }
}

#[test]
fn desktop_config_adds_single_instance_then_updater() {
    for profile in [Profile::Debug, Profile::Release] {
        let config = build_config(BuildMode::new(Platform::Desktop, profile));
        assert_eq!(config.capabilities(), ALL.to_vec());
        assert_eq!(config.len(), 8);
    }
}

#[test]
fn composition_is_deterministic() {
    for mode in modes() {
        assert_eq!(build_config(mode).capabilities(), build_config(mode).capabilities());
    }
}

#[test]
fn base_and_desktop_lists() {
    assert_eq!(base_capability_list(), BASE.to_vec());
    assert_eq!(
        desktop_capability_list(),
        vec![Capability::SingleInstance, Capability::Updater]
    );
    assert_eq!(compose_base().capabilities(), BASE.to_vec());
}

#[test]
fn mobile_gate_adds_nothing() {
    let mut config = compose_base();
    let r = apply_platform_gate(&mut config, BuildMode::new(Platform::Mobile, Profile::Debug));
    assert_eq!(r, Ok(()));
    assert_eq!(config.capabilities(), BASE.to_vec());
}

#[test]
fn desktop_gate_applied_twice_is_rejected() {
    let mode = BuildMode::new(Platform::Desktop, Profile::Release);
    let mut config = build_config(mode);
    let r = apply_platform_gate(&mut config, mode);
    assert_eq!(r, Err(RegistrationError::Duplicate(Capability::SingleInstance)));
    assert_eq!(config.capabilities(), ALL.to_vec());
}

#[test]
fn registering_twice_is_rejected_for_every_capability() {
    for c in ALL {
        let mut config = BuilderConfig::new();
        assert_eq!(config.register(c), Ok(()));
        assert_eq!(config.register(c), Err(RegistrationError::Duplicate(c)));
        assert_eq!(config.capabilities(), vec![c]);
    }
}

#[test]
fn register_each_stops_at_first_duplicate() {
    let mut config = BuilderConfig::new();
    let list = vec![Capability::Fs, Capability::Os, Capability::Fs, Capability::Http];
    let r = config.register_each(&list);
    assert_eq!(r, Err(RegistrationError::Duplicate(Capability::Fs)));
    assert_eq!(config.capabilities(), vec![Capability::Fs, Capability::Os]);
}

#[test]
fn registering_a_base_capability_after_build_is_rejected() {
    let mut config = build_config(BuildMode::new(Platform::Mobile, Profile::Release));
    assert_eq!(
        config.register(Capability::Http),
        Err(RegistrationError::Duplicate(Capability::Http))
    );
    assert_eq!(config.register(Capability::Updater), Ok(()));
    assert_eq!(config.len(), 7);
}

#[test]
fn capability_names() {
    let names: Vec<&str> = ALL.iter().map(|c| c.name()).collect();
    assert_eq!(
        names,
        vec!["shell", "dialog", "fs", "process", "os", "http", "single-instance", "updater"]
    );
    assert!(Capability::Updater.is_desktop_only());
    assert!(Capability::SingleInstance.is_desktop_only());
    assert!(!Capability::Http.is_desktop_only());
}

#[test]
fn main_window_label_is_main() {
    assert_eq!(main_window_label(), "main");
}

#[test]
fn devtools_open_only_in_debug() {
    let debug = BuildMode::new(Platform::Desktop, Profile::Debug);
    let release = BuildMode::new(Platform::Desktop, Profile::Release);
    let mobile_debug = BuildMode::new(Platform::Mobile, Profile::Debug);
    assert_eq!(enable_devtools_if_debug(debug, true), Some(WindowAction::OpenDevtools));
    assert_eq!(enable_devtools_if_debug(mobile_debug, true), Some(WindowAction::OpenDevtools));
    assert_eq!(enable_devtools_if_debug(release, true), None);
    assert_eq!(enable_devtools_if_debug(release, false), None);
}

#[test]
fn missing_window_is_a_no_op() {
    assert_eq!(focus_main_window(false), None);
    for mode in modes() {
        assert_eq!(enable_devtools_if_debug(mode, false), None);
    }
    assert_eq!(focus_main_window(true), Some(WindowAction::Focus));
}

#[test]
fn launch_decisions() {
    let desktop = BuildMode::new(Platform::Desktop, Profile::Release);
    let mobile = BuildMode::new(Platform::Mobile, Profile::Release);
    assert_eq!(decide_launch(desktop, true), LaunchDecision::ForwardToPrimary);
    assert_eq!(decide_launch(desktop, false), LaunchDecision::Start);
    assert_eq!(decide_launch(mobile, true), LaunchDecision::Start);
    assert_eq!(decide_launch(mobile, false), LaunchDecision::Start);
}

#[test]
fn coordinator_listens_after_registration() {
    let mut coordinator = SingleInstanceCoordinator::new();
    let event = RelaunchEvent::new(vec!["--foo".to_string()], "/tmp".to_string());
    assert_eq!(coordinator.state(), CoordinatorState::Unregistered);
    assert_eq!(coordinator.handle_relaunch(&event, true), None);
    coordinator.register();
    assert_eq!(coordinator.state(), CoordinatorState::Listening);
    assert_eq!(coordinator.handle_relaunch(&event, true), Some(WindowAction::Focus));
    assert_eq!(coordinator.handle_relaunch(&event, false), None);
    assert_eq!(coordinator.state(), CoordinatorState::Listening);
}

#[test]
fn second_launch_forwards_and_registers_nothing() {
    let mode = BuildMode::new(Platform::Desktop, Profile::Release);
    let args = vec!["--open".to_string(), "file.txt".to_string()];
    match start(mode, true, args.clone(), "/home/user".to_string()) {
        Startup::Forwarded(event) => {
            assert_eq!(event.args, args);
            assert_eq!(event.working_directory, "/home/user");
        }
        Startup::Started(_) => panic!("a second desktop instance must not start"),
    }
}

#[test]
fn mobile_launch_always_starts() {
    let mode = BuildMode::new(Platform::Mobile, Profile::Debug);
    match start(mode, true, vec![], "/".to_string()) {
        Startup::Started(app) => {
            assert_eq!(app.capabilities(), BASE.to_vec());
            assert_eq!(app.coordinator_state(), CoordinatorState::Unregistered);
            assert_eq!(app.phase(), Phase::Configured);
            assert_eq!(app.mode(), mode);
        }
        Startup::Forwarded(_) => panic!("mobile builds have no single-instance rule"),
    }
}

#[test]
fn release_setup_opens_nothing() {
    let mode = BuildMode::new(Platform::Desktop, Profile::Release);
    let Startup::Started(mut app) = start(mode, false, vec![], "/".to_string()) else {
        panic!("the first instance must start");
    };
    assert_eq!(app.run_setup(true), None);
    assert_eq!(app.phase(), Phase::SetupDone);
    app.enter_event_loop();
    assert_eq!(app.phase(), Phase::Running);
}

#[test]
fn relaunch_end_to_end() {
    let mode = BuildMode::new(Platform::Desktop, Profile::Debug);

    let Startup::Started(mut primary) = start(mode, false, vec![], "/".to_string()) else {
        panic!("process A must start");
    };
    assert_eq!(primary.capabilities(), ALL.to_vec());
    assert_eq!(primary.coordinator_state(), CoordinatorState::Listening);

    let mut devtools_opened = 0;
    if primary.run_setup(true) == Some(WindowAction::OpenDevtools) {
        devtools_opened += 1;
    }
    primary.enter_event_loop();
    assert_eq!(devtools_opened, 1);

    let event = match start(mode, true, vec!["--foo".to_string()], "/tmp".to_string()) {
        Startup::Forwarded(event) => event,
        Startup::Started(_) => panic!("process B must exit"),
    };
    assert_eq!(event.args, vec!["--foo".to_string()]);
    assert_eq!(event.working_directory, "/tmp");

    let action = primary.on_relaunch(&event, true);
    assert_eq!(action, Some(WindowAction::Focus));
    if action == Some(WindowAction::OpenDevtools) {
        devtools_opened += 1;
    }
    assert_eq!(devtools_opened, 1);
    assert_eq!(primary.phase(), Phase::Running);
    assert_eq!(primary.coordinator_state(), CoordinatorState::Listening);
}

#[test]
fn relaunch_without_main_window_is_a_no_op() {
    let mode = BuildMode::new(Platform::Desktop, Profile::Release);
    let Startup::Started(primary) = start(mode, false, vec![], "/".to_string()) else {
        panic!("the first instance must start");
    };
    let event = RelaunchEvent::new(vec![], "/".to_string());
    assert_eq!(primary.on_relaunch(&event, false), None);
}
