use riri_imgui_hook::d3d11_impl::init as d3d11_init;
use riri_imgui_hook::d3d12_impl::init as d3d12_init;
use riri_imgui_hook::discovery::{backoff, pick_module, Discovery, DiscoveryAction, MAX_ATTEMPTS};

#[test]
fn backoff_is_quadratic() {
    assert_eq!(backoff(0), 250);
    assert_eq!(backoff(1), 350);
    assert_eq!(backoff(2), 650);
    assert_eq!(backoff(10), 10_250);
    assert_eq!(backoff(19), 36_350);
    assert_eq!(backoff(100_000), 1_000_000_000_250);
}

#[test]
fn the_first_loaded_module_is_picked() {
    assert_eq!(pick_module(&vec![]), None);
    assert_eq!(pick_module(&vec![0, 0, 0]), None);
    assert_eq!(pick_module(&vec![0, 0x4000, 0x5000]), Some(1));
    assert_eq!(pick_module(&vec![0x10, 0, 0]), Some(0));
    assert_eq!(pick_module(&vec![0, 0, 0, 0, 9]), Some(4));
}

#[test]
fn twenty_failed_polls_end_the_search() {
    assert_eq!(MAX_ATTEMPTS, 20);
    let mut state = Discovery::new();
    let mut sleeps = vec![];
    let mut actions = 0;
    loop {
        let (next, action) = state.on_poll(None);
        actions += 1;
        state = next;
        match action {
            DiscoveryAction::Retry { millis } => sleeps.push(millis),
            DiscoveryAction::GiveUp => break,
            DiscoveryAction::InstallHooks { .. } => panic!("nothing was found"),
            DiscoveryAction::Nothing => panic!("the search was not over"),
        }
    }
    assert_eq!(actions, 20);
    assert_eq!(state, Discovery::Abandoned);
    assert!(state.is_over());
    assert_eq!(sleeps.len(), 19);
    for (i, millis) in sleeps.iter().enumerate() {
        assert_eq!(*millis, 250 + 100 * (i as u64) * (i as u64));
    }
    // Later polls change nothing, even if they find the module.
    assert_eq!(state.on_poll(Some((0x4000, 0))), (Discovery::Abandoned, DiscoveryAction::Nothing));
    assert_eq!(state.on_poll(None), (Discovery::Abandoned, DiscoveryAction::Nothing));
}

#[test]
fn a_found_module_ends_the_search_with_hooks() {
    let state = Discovery::new();
    assert!(!state.is_over());
    let (state, action) = state.on_poll(None);
    assert_eq!(state, Discovery::Searching { attempt: 1 });
    assert_eq!(action, DiscoveryAction::Retry { millis: 250 });
    let (state, action) = state.on_poll(Some((0x7000, 2)));
    assert_eq!(state, Discovery::Found { module: 0x7000, dll: 2 });
    assert_eq!(action, DiscoveryAction::InstallHooks { module: 0x7000, dll: 2 });
    assert!(state.is_over());
    assert_eq!(state.on_poll(None), (state, DiscoveryAction::Nothing));
}

#[test]
fn the_last_attempt_can_still_find_the_module() {
    let state = Discovery::Searching { attempt: 19 };
    assert_eq!(
        state.on_poll(Some((1, 0))),
        (Discovery::Found { module: 1, dll: 0 }, DiscoveryAction::InstallHooks { module: 1, dll: 0 })
    );
    assert_eq!(state.on_poll(None), (Discovery::Abandoned, DiscoveryAction::GiveUp));
    assert_eq!(
        Discovery::Searching { attempt: 18 }.on_poll(None),
        (Discovery::Searching { attempt: 19 }, DiscoveryAction::Retry { millis: 32_650 })
    );
}

#[test]
fn polls_for_the_immediate_context_runtime() {
    assert_eq!(
        d3d11_init::dll_names(),
        vec!["d3d11.dll", "d3d11_1.dll", "d3d11_2.dll", "d3d11_3.dll", "d3d11_4.dll"]
    );
    let state = Discovery::new();
    let (state, action) = d3d11_init::start_d3d11(state, &vec![0, 0, 0, 0, 0]);
    assert_eq!(state, Discovery::Searching { attempt: 1 });
    assert_eq!(action, DiscoveryAction::Retry { millis: 250 });
    let (state, action) = d3d11_init::start_d3d11(state, &vec![0, 0, 0x5000, 0x6000, 0]);
    assert_eq!(state, Discovery::Found { module: 0x5000, dll: 2 });
    assert_eq!(action, DiscoveryAction::InstallHooks { module: 0x5000, dll: 2 });
}

#[test]
fn polls_for_the_command_list_runtime() {
    assert_eq!(d3d12_init::dll_names(), vec!["d3d12.dll"]);
    let mut state = Discovery::new();
    for attempt in 0..19u64 {
        let (next, action) = d3d12_init::start_d3d12(state, &vec![0]);
        assert_eq!(action, DiscoveryAction::Retry { millis: 250 + 100 * attempt * attempt });
        state = next;
    }
    let (next, action) = d3d12_init::start_d3d12(state, &vec![0]);
    assert_eq!(next, Discovery::Abandoned);
    assert_eq!(action, DiscoveryAction::GiveUp);
    let (found, action) = d3d12_init::start_d3d12(state, &vec![0x9000]);
    assert_eq!(found, Discovery::Found { module: 0x9000, dll: 0 });
    assert_eq!(action, DiscoveryAction::InstallHooks { module: 0x9000, dll: 0 });
}
