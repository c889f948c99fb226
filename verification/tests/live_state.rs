use std::collections::HashSet;

use mlb_parser::content::Movement;
use mlb_parser::livestate::RunnerPositions;
use mlb_parser::ontology::Base;

#[test]
fn simplify_movements() {
    let mut runner_positions = RunnerPositions::empty();
    runner_positions.home = Some("Garrett Hampson".to_string());
    runner_positions.first = Some("Cam Devanney".to_string());
    runner_positions.third = Some("Freddy Fermin".to_string());

    let movements = vec![
        Movement {
            runner: "Freddy Fermin".to_string(),
            from: Base::Third,
            to: Base::Home,
            out: false,
        },
        Movement {
            runner: "Cam Devanney".to_string(),
            from: Base::First,
            to: Base::Second,
            out: false,
        },
        Movement {
            runner: "Garrett Hampson".to_string(),
            from: Base::Home,
            to: Base::Home,
            out: true,
        },
    ];

    let simplified_movements = runner_positions.simplify_movements(&movements);
    assert_eq!(
        HashSet::<_>::from_iter(simplified_movements),
        HashSet::from([
            Movement {
                runner: "Freddy Fermin".to_string(),
                from: Base::Third,
                to: Base::Home,
                out: false,
            },
            Movement {
                runner: "Cam Devanney".to_string(),
                from: Base::First,
                to: Base::Second,
                out: false,
            },
            Movement {
                runner: "Garrett Hampson".to_string(),
                from: Base::Home,
                to: Base::Home,
                out: true,
            },
        ])
    );
}

#[test]
fn simplify_collapses_one_runner_chain() {
    let positions = RunnerPositions::empty();
    let movements = vec![
        Movement {
            runner: "A".to_string(),
            from: Base::Home,
            to: Base::First,
            out: false,
        },
        Movement {
            runner: "A".to_string(),
            from: Base::First,
            to: Base::Second,
            out: true,
        },
    ];
    let simplified = positions.simplify_movements(&movements);
    assert_eq!(
        simplified,
        vec![Movement {
            runner: "A".to_string(),
            from: Base::Home,
            to: Base::Second,
            out: true,
        }]
    );
}

#[test]
fn simplify_is_idempotent_on_concrete_list() {
    let positions = RunnerPositions::empty();
    let movements = vec![
        Movement {
            runner: "A".to_string(),
            from: Base::Home,
            to: Base::First,
            out: false,
        },
        Movement {
            runner: "B".to_string(),
            from: Base::First,
            to: Base::Second,
            out: false,
        },
        Movement {
            runner: "A".to_string(),
            from: Base::First,
            to: Base::Third,
            out: false,
        },
    ];
    let once = positions.simplify_movements(&movements);
    let twice = positions.simplify_movements(&once);
    assert_eq!(
        HashSet::<Movement>::from_iter(once.clone()),
        HashSet::<Movement>::from_iter(twice)
    );
}

#[test]
fn process_rejects_backward_movement() {
    let mut positions = RunnerPositions::empty();
    positions.third = Some("A".to_string());
    let movements = vec![Movement {
        runner: "A".to_string(),
        from: Base::Third,
        to: Base::Second,
        out: false,
    }];
    let result = positions.process_movements(&movements, &Vec::new());
    assert!(result.is_err());
    assert_eq!(
        result.unwrap_err(),
        "Cannot move runner from third to second"
    );
}

#[test]
fn process_rejects_empty_base() {
    let mut positions = RunnerPositions::empty();
    let movements = vec![Movement {
        runner: "A".to_string(),
        from: Base::Second,
        to: Base::Third,
        out: false,
    }];
    let result = positions.process_movements(&movements, &Vec::new());
    assert!(result.is_err());
    assert_eq!(result.unwrap_err(), "No runner is on second base");
}

#[test]
fn process_rejects_unknown_runner() {
    let mut positions = RunnerPositions::empty();
    positions.first = Some("A".to_string());
    let movements = vec![Movement {
        runner: "B".to_string(),
        from: Base::First,
        to: Base::Second,
        out: false,
    }];
    let result = positions.process_movements(&movements, &Vec::new());
    assert!(result.is_err());
    assert_eq!(
        result.unwrap_err(),
        "Runner B is not on first base and is not a pinch runner"
    );
}

#[test]
fn process_accepts_pinch_runner_and_updates_occupancy() {
    let mut positions = RunnerPositions::empty();
    positions.first = Some("A".to_string());
    let movements = vec![Movement {
        runner: "B".to_string(),
        from: Base::First,
        to: Base::Second,
        out: false,
    }];
    let pinch = vec!["B".to_string()];
    let result = positions.process_movements(&movements, &pinch);
    assert!(result.is_ok());
    assert_eq!(positions.second, Some("B".to_string()));
    // No slot is cleared on an advance; first keeps its last-bound runner.
    assert_eq!(positions.first, Some("A".to_string()));
}

#[test]
fn process_skips_update_for_out_runner() {
    let mut positions = RunnerPositions::empty();
    positions.first = Some("A".to_string());
    let movements = vec![Movement {
        runner: "A".to_string(),
        from: Base::First,
        to: Base::Second,
        out: true,
    }];
    let result = positions.process_movements(&movements, &Vec::new());
    assert!(result.is_ok());
    assert_eq!(positions.second, None);
}
