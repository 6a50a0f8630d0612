use latex_clean::flow::{decide, Plan};

fn three_matches() -> Vec<String> {
    vec![
        "./paper.aux".to_string(),
        "./paper.log".to_string(),
        "./build/paper.out".to_string(),
    ]
}

#[test]
fn simulate_reports_all_selected() {
    // Dry run, all three matches selected and confirmed: three paths to
    // report, none to delete.
    match decide(true, true, three_matches()) {
        Plan::Simulate(paths) => {
            assert_eq!(paths, vec!["./paper.aux", "./paper.log", "./build/paper.out"]);
        }
        _ => panic!("a confirmed dry run must simulate"),
    }
}

#[test]
fn confirmed_real_run_deletes_exactly_the_selection() {
    match decide(true, false, vec!["./paper.aux".to_string()]) {
        Plan::Delete(paths) => {
            assert_eq!(paths, vec!["./paper.aux"]);
        }
        _ => panic!("a confirmed real run must delete"),
    }
}

#[test]
fn declining_aborts_in_real_mode() {
    assert!(matches!(decide(false, false, three_matches()), Plan::Abort));
}

#[test]
fn declining_aborts_in_simulate_mode() {
    assert!(matches!(decide(false, true, three_matches()), Plan::Abort));
}

#[test]
fn empty_selection_still_follows_the_mode() {
    assert!(matches!(decide(true, true, Vec::new()), Plan::Simulate(v) if v.is_empty()));
    assert!(matches!(decide(true, false, Vec::new()), Plan::Delete(v) if v.is_empty()));
}
