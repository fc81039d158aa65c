use initializer::datasets::{demographics, transit};
use initializer::error::ImportError;
use initializer::run::{decide, Action, Decision, Event, ImportRun, Phase, RunOptions, RunOutcome};
use initializer::statement::{declaration_statement, stage_statement};

fn opts(force: bool, abort_if_present: bool) -> RunOptions {
    RunOptions { force, abort_if_present }
}

fn store_failure() -> neo4rs::Error {
    neo4rs::Error::ConnectionError
}

/// Drives a run, answering every statement with success except the stage at
/// `failing_stage`; returns the actions issued and the final action.
fn drive(
    run: &mut ImportRun,
    first: Action,
    present: bool,
    confirm: bool,
    failing_stage: Option<usize>,
) -> (Vec<String>, Action) {
    let mut log = Vec::new();
    let mut action = first;
    let mut stage = 0usize;
    loop {
        let event = match &action {
            Action::Probe(_) => {
                log.push("probe".to_string());
                Event::Probed(Ok(present))
            }
            Action::Confirm => {
                log.push("confirm".to_string());
                Event::Confirmed(confirm)
            }
            Action::Declare(s) => {
                log.push(format!("declare {}", s));
                Event::Declared(Ok(()))
            }
            Action::Load { name, .. } => {
                log.push(format!("load {}", name));
                let this = stage;
                stage += 1;
                let elapsed_millis = 10 * stage as u64;
                if Some(this) == failing_stage {
                    Event::Loaded { elapsed_millis, result: Err(store_failure()) }
                } else {
                    Event::Loaded { elapsed_millis, result: Ok(()) }
                }
            }
            Action::Finish(_) => return (log, action),
        };
        assert!(run.accepts_event(&event));
        action = run.advance(event);
    }
}

#[test]
fn decision_table() {
    assert_eq!(decide(false, opts(false, false)), Decision::Proceed);
    assert_eq!(decide(false, opts(true, true)), Decision::Proceed);
    assert_eq!(decide(true, opts(false, true)), Decision::Skip);
    assert_eq!(decide(true, opts(true, true)), Decision::Skip);
    assert_eq!(decide(true, opts(true, false)), Decision::Proceed);
    assert_eq!(decide(true, opts(false, false)), Decision::AskConfirmation);
}

#[test]
fn absent_dataset_is_imported_in_catalog_order() {
    let d = transit();
    let expected_decls: Vec<String> =
        d.declarations.iter().map(|x| format!("declare {}", declaration_statement(x))).collect();
    let (mut run, first) = ImportRun::start(transit(), opts(false, false));
    let (log, last) = drive(&mut run, first, false, false, None);
    assert!(matches!(last, Action::Finish(Ok(RunOutcome::Imported))));
    assert_eq!(log.len(), 1 + 8 + 7);
    assert_eq!(log[0], "probe");
    assert_eq!(log[1..9].to_vec(), expected_decls);
    assert_eq!(
        log[9..].to_vec(),
        vec![
            "load agencies",
            "load stops",
            "load routes",
            "load services",
            "load service exceptions",
            "load trips",
            "load stop times"
        ]
    );
    assert!(run.is_finished());
    let names: Vec<&str> = run.outcomes.iter().map(|o| o.name.as_str()).collect();
    assert_eq!(names.len(), 7);
    assert_eq!(names[6], "stop times");
    assert_eq!(run.outcomes[2].elapsed_millis, 30);
}

#[test]
fn load_actions_carry_the_stage_statement() {
    let (mut run, _) = ImportRun::start(demographics(), opts(false, false));
    let mut action = run.advance(Event::Probed(Ok(false)));
    action = match action {
        Action::Declare(_) => run.advance(Event::Declared(Ok(()))),
        _ => panic!("expected a declaration"),
    };
    action = match action {
        Action::Declare(_) => run.advance(Event::Declared(Ok(()))),
        _ => panic!("expected a declaration"),
    };
    match action {
        Action::Load { name, status, statement } => {
            assert_eq!(name, "Importing population data");
            assert_eq!(status, "Importing population data");
            assert_eq!(statement, stage_statement(&demographics().stages[0]));
        }
        _ => panic!("expected the first stage"),
    }
    assert_eq!(run.phase, Phase::Loading(0));
}

#[test]
fn present_dataset_with_abort_flag_is_skipped_after_the_probe() {
    let (mut run, first) = ImportRun::start(transit(), opts(false, true));
    let (log, last) = drive(&mut run, first, true, true, None);
    assert_eq!(log, vec!["probe"]);
    assert!(matches!(last, Action::Finish(Ok(RunOutcome::Skipped))));
    assert!(run.outcomes.is_empty());
    assert!(!run.accepts_event(&Event::Declared(Ok(()))));
}

#[test]
fn present_dataset_with_force_is_imported() {
    let (mut run, first) = ImportRun::start(demographics(), opts(true, false));
    let (log, last) = drive(&mut run, first, true, false, None);
    assert_eq!(log.len(), 1 + 2 + 3);
    assert!(!log.contains(&"confirm".to_string()));
    assert!(matches!(last, Action::Finish(Ok(RunOutcome::Imported))));
}

#[test]
fn present_dataset_asks_and_may_be_declined() {
    let (mut run, first) = ImportRun::start(transit(), opts(false, false));
    let (log, last) = drive(&mut run, first, true, false, None);
    assert_eq!(log, vec!["probe", "confirm"]);
    assert!(matches!(last, Action::Finish(Ok(RunOutcome::Declined))));
}

#[test]
fn present_dataset_asks_and_may_be_confirmed() {
    let (mut run, first) = ImportRun::start(transit(), opts(false, false));
    let (log, last) = drive(&mut run, first, true, true, None);
    assert_eq!(log.len(), 2 + 8 + 7);
    assert_eq!(log[1], "confirm");
    assert!(matches!(last, Action::Finish(Ok(RunOutcome::Imported))));
}

#[test]
fn failed_probe_is_a_connection_error() {
    let (mut run, _) = ImportRun::start(transit(), opts(false, false));
    let action = run.advance(Event::Probed(Err(store_failure())));
    assert!(matches!(action, Action::Finish(Err(ImportError::Connection(neo4rs::Error::ConnectionError)))));
    assert!(run.is_finished());
}

#[test]
fn failed_constraint_names_the_declaration() {
    let (mut run, _) = ImportRun::start(transit(), opts(false, false));
    run.advance(Event::Probed(Ok(false)));
    let action = run.advance(Event::Declared(Err(store_failure())));
    match action {
        Action::Finish(Err(ImportError::ConstraintCreation { node, prop, .. })) => {
            assert_eq!(node, "(r:Route)");
            assert_eq!(prop, "r.id");
        }
        _ => panic!("expected a constraint error"),
    }
    assert!(run.outcomes.is_empty());
}

#[test]
fn failed_index_names_the_declaration() {
    let (mut run, _) = ImportRun::start(demographics(), opts(false, false));
    run.advance(Event::Probed(Ok(false)));
    let action = run.advance(Event::Declared(Err(store_failure())));
    match action {
        Action::Finish(Err(ImportError::IndexCreation { node, prop, .. })) => {
            assert_eq!(node, "(s:SubDistrict)");
            assert_eq!(prop, "(s.district_num)");
        }
        _ => panic!("expected an index error"),
    }
}

#[test]
fn failure_on_third_stage_halts_before_the_fourth() {
    let (mut run, first) = ImportRun::start(transit(), opts(false, false));
    let (log, last) = drive(&mut run, first, false, false, Some(2));
    assert_eq!(log.last().unwrap(), "load routes");
    assert!(!log.contains(&"load services".to_string()));
    match last {
        Action::Finish(Err(ImportError::DataImport { name, source })) => {
            assert_eq!(name, "routes");
            assert!(matches!(source, neo4rs::Error::ConnectionError));
        }
        _ => panic!("expected a stage error"),
    }
    assert_eq!(run.outcomes.len(), 3);
    assert_eq!(run.outcomes[1].name, "stops");
    assert!(run.outcomes[1].succeeded);
    assert_eq!(run.outcomes[2].name, "routes");
    assert!(!run.outcomes[2].succeeded);
    assert_eq!(run.outcomes[2].elapsed_millis, 30);
    assert!(run.is_finished());
    assert!(!run.accepts_event(&Event::Loaded { elapsed_millis: 1, result: Ok(()) }));
}

#[test]
fn rerunning_issues_the_same_statements() {
    let (mut a, first_a) = ImportRun::start(transit(), opts(false, false));
    let (log_a, _) = drive(&mut a, first_a, false, false, None);
    let (mut b, first_b) = ImportRun::start(transit(), opts(true, false));
    let (log_b, _) = drive(&mut b, first_b, true, false, None);
    assert_eq!(log_a, log_b);
}

fn empty_dataset() -> initializer::catalog::Dataset {
    initializer::catalog::Dataset {
        kind: initializer::catalog::DatasetKind::Transit,
        presence_labels: vec![initializer::catalog::Label::Agency],
        declarations: vec![],
        stages: vec![],
    }
}

#[test]
fn dataset_without_schema_or_stages_finishes_after_the_decision() {
    let (mut run, first) = ImportRun::start(empty_dataset(), opts(false, false));
    let (log, last) = drive(&mut run, first, false, false, None);
    assert_eq!(log, vec!["probe"]);
    assert!(matches!(last, Action::Finish(Ok(RunOutcome::Imported))));
}

#[test]
fn dataset_without_schema_starts_with_its_first_stage() {
    let mut d = empty_dataset();
    d.stages = transit().stages;
    let (mut run, _) = ImportRun::start(d, opts(false, false));
    let action = run.advance(Event::Probed(Ok(false)));
    assert!(matches!(action, Action::Load { ref name, .. } if name == "agencies"));
}

#[test]
fn dataset_without_stages_finishes_after_its_schema() {
    let mut d = empty_dataset();
    d.declarations = demographics().declarations;
    let (mut run, first) = ImportRun::start(d, opts(false, false));
    let (log, last) = drive(&mut run, first, false, false, None);
    assert_eq!(log.len(), 3);
    assert!(matches!(last, Action::Finish(Ok(RunOutcome::Imported))));
}

#[test]
fn declaring_twice_issues_the_same_statements() {
    let first: Vec<String> = transit().declarations.iter().map(declaration_statement).collect();
    let second: Vec<String> = transit().declarations.iter().map(declaration_statement).collect();
    assert_eq!(first, second);
    let mut unique = first.clone();
    unique.sort();
    unique.dedup();
    assert_eq!(unique.len(), first.len());
}

#[test]
fn failed_demographic_stage_is_named_as_shown() {
    let (mut run, first) = ImportRun::start(demographics(), opts(false, false));
    let (log, last) = drive(&mut run, first, false, false, Some(1));
    assert_eq!(log.last().unwrap(), "load Importing registration district names");
    match last {
        Action::Finish(Err(ImportError::DataImport { name, .. })) => {
            assert_eq!(name, "Importing registration district names");
        }
        _ => panic!("expected a stage error"),
    }
}

#[test]
fn start_import_skips_the_probe() {
    let (mut run, first) = ImportRun::start_import(demographics());
    assert!(matches!(first, Action::Declare(_)));
    let (log, last) = drive(&mut run, first, true, false, None);
    assert_eq!(log.len(), 2 + 3);
    assert!(!log.contains(&"probe".to_string()));
    assert!(matches!(last, Action::Finish(Ok(RunOutcome::Imported))));
    assert!(run.outcomes.iter().all(|o| o.succeeded));
}
