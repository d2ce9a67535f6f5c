use otel_collector_loader::dispatch::{
    classify_foreign_status, resolve_wait, set_go_args, WaitOutcome,
};
use otel_collector_loader::errors::{exit_code_of, LoadError};
use otel_collector_loader::selection::{
    marshalable_plugin_path, plain_entry_name, resolve_symbol, rich_entry_name,
    runtime_info_name, select_entry, EntryChoice,
};

#[test]
fn plain_only_object_selects_plain_not_missing() {
    let r = select_entry(false, true, String::from("/tmp/plugin.bin"));
    assert_eq!(r, Ok(EntryChoice::Plain));
    assert_ne!(r, Err(LoadError::RequiredSymbolMissing));
}

#[test]
fn rich_is_preferred_and_the_aux_path_passes_through_unchanged() {
    let aux = String::from("/tmp/plugin.bin");
    let r = select_entry(true, true, aux.clone());
    match r {
        Ok(EntryChoice::Rich(p)) => assert_eq!(p.as_bytes(), aux.as_bytes()),
        other => panic!("rich entry point not chosen: {:?}", other),
    }
    // Rich alone is likewise chosen.
    let r2 = select_entry(true, false, String::from("a b/c"));
    assert_eq!(r2, Ok(EntryChoice::Rich(String::from("a b/c"))));
}

#[test]
fn scenario_rich_entry_receives_exactly_the_supplied_path() {
    // The rich entry point writes its received path argument to a side
    // record; invoking with "/tmp/plugin.bin" must record exactly that.
    let r = select_entry(true, true, String::from("/tmp/plugin.bin"));
    let mut side_record = String::new();
    match r {
        Ok(EntryChoice::Rich(p)) => {
            // the stand-in foreign body, handed the path by value
            side_record.push_str(&p);
        }
        other => panic!("rich entry point not chosen: {:?}", other),
    }
    assert_eq!(side_record, "/tmp/plugin.bin");
}

#[test]
fn neither_entry_point_is_required_symbol_missing() {
    let r = select_entry(false, false, String::from("/tmp/plugin.bin"));
    assert_eq!(r, Err(LoadError::RequiredSymbolMissing));
}

#[test]
fn entry_point_names_match_the_export_table() {
    assert_eq!(rich_entry_name(), "MainWithPlugin");
    assert_eq!(plain_entry_name(), "Main");
    assert_eq!(runtime_info_name(), "GetRuntimeInfo");
}

#[test]
fn resolving_an_absent_export_names_it() {
    assert_eq!(resolve_symbol(true, "GetRuntimeInfo"), Ok(()));
    assert_eq!(
        resolve_symbol(false, "GetRuntimeInfo"),
        Err(LoadError::SymbolNotFound(String::from("GetRuntimeInfo")))
    );
}

#[test]
fn foreign_status_zero_is_success_anything_else_carries_the_code() {
    assert_eq!(classify_foreign_status(0), Ok(()));
    assert_eq!(classify_foreign_status(5), Err(LoadError::ForeignCallFailure(5)));
    assert_eq!(classify_foreign_status(-1), Err(LoadError::ForeignCallFailure(-1)));
}

#[test]
fn waiting_resolves_each_outcome_as_documented() {
    assert_eq!(resolve_wait(WaitOutcome::Completed), Ok(()));
    assert_eq!(
        resolve_wait(WaitOutcome::WorkerFault),
        Err(LoadError::ThreadJoinFailure)
    );
    assert_eq!(
        resolve_wait(WaitOutcome::JoinFailed),
        Err(LoadError::ThreadJoinFailure)
    );
    // An interrupt only stops the waiting, never the call: not an error.
    assert_eq!(resolve_wait(WaitOutcome::Interrupted), Ok(()));
}

#[test]
fn only_nul_free_paths_can_cross_the_boundary() {
    assert!(marshalable_plugin_path("/tmp/plugin.bin"));
    assert!(marshalable_plugin_path(""));
    assert!(!marshalable_plugin_path("/tmp/plug\0in.bin"));
    assert!(!marshalable_plugin_path("\0"));
}

#[test]
fn set_go_args_has_nothing_to_do() {
    assert_eq!(set_go_args(), Ok(()));
}

#[test]
fn every_error_condition_earns_its_own_nonzero_exit_code() {
    let errors = vec![
        LoadError::NotFound,
        LoadError::LoadFailure(String::from("x")),
        LoadError::NotLoaded,
        LoadError::SymbolNotFound(String::from("Main")),
        LoadError::RequiredSymbolMissing,
        LoadError::ForeignCallFailure(9),
        LoadError::ThreadJoinFailure,
    ];
    let codes: Vec<u8> = errors.iter().map(|e| e.exit_code()).collect();
    assert_eq!(codes, vec![2, 3, 4, 5, 6, 7, 8]);
    for (i, a) in codes.iter().enumerate() {
        assert_ne!(*a, 0);
        for b in codes.iter().skip(i + 1) {
            assert_ne!(*a, *b);
        }
    }
    for e in errors {
        assert_eq!(exit_code_of(&Err(e.clone())), e.exit_code());
    }
}
