use manual_seal::contract_rounds::TestCode;

#[test]
fn code_is_prepared_a_thousand_times() {
    let mut run = TestCode::new(vec![0, 97, 115, 109]);
    let mut rounds = 0;
    while let Some(code) = run.next() {
        assert_eq!(*code, vec![0, 97, 115, 109]);
        assert!(!run.passed());
        rounds += 1;
        run.report(true);
    }
    assert_eq!(rounds, 1000);
    assert!(run.passed());
    run.report(false);
    assert!(run.passed());
}

#[test]
fn one_failure_fails_the_run() {
    let mut run = TestCode::new(vec![]);
    for _ in 0..999 {
        run.report(true);
    }
    run.report(false);
    assert!(run.next().is_none());
    assert!(!run.passed());
    run.report(true);
    assert!(!run.passed());
}
