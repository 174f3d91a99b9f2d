use smash::opts::Opts;
use smash::strategy::{Resolution, Strategy};

#[test]
fn always_commit_commits_at_every_position() {
    for index in 0..1000u32 {
        assert_eq!(Strategy::AlwaysCommit.decide(index), Resolution::Commit);
    }
    assert_eq!(Strategy::AlwaysCommit.decide(u32::MAX), Resolution::Commit);
    assert_eq!(Strategy::AlwaysCommit.decide(u32::MAX - 1), Resolution::Commit);
}

#[test]
fn mixed_checks_parity_before_multiples_of_three() {
    assert_eq!(Strategy::Mixed.decide(0), Resolution::Rollback);
    assert_eq!(Strategy::Mixed.decide(1), Resolution::Commit);
    assert_eq!(Strategy::Mixed.decide(2), Resolution::Rollback);
    assert_eq!(Strategy::Mixed.decide(3), Resolution::Abandon);
    assert_eq!(Strategy::Mixed.decide(6), Resolution::Rollback);
}

#[test]
fn mixed_goes_by_the_residue_modulo_six() {
    for index in 0..600u32 {
        let expected = match index % 6 {
            3 => Resolution::Abandon,
            1 | 5 => Resolution::Commit,
            _ => Resolution::Rollback,
        };
        assert_eq!(Strategy::Mixed.decide(index), expected);
    }
    assert_eq!(Strategy::Mixed.decide(4), Resolution::Rollback);
    assert_eq!(Strategy::Mixed.decide(5), Resolution::Commit);
    assert_eq!(Strategy::Mixed.decide(9), Resolution::Abandon);
    // 4294967295 is odd and a multiple of three.
    assert_eq!(Strategy::Mixed.decide(u32::MAX), Resolution::Abandon);
    assert_eq!(Strategy::Mixed.decide(u32::MAX - 1), Resolution::Rollback);
}

#[test]
fn strategy_is_selected_by_name() {
    assert_eq!(Strategy::from_name("mixed"), Strategy::Mixed);
    assert_eq!(Strategy::from_name("simple"), Strategy::AlwaysCommit);
    assert_eq!(Strategy::from_name(""), Strategy::AlwaysCommit);
    assert_eq!(Strategy::from_name("Mixed"), Strategy::AlwaysCommit);
    assert_eq!(Strategy::from_name("mixed "), Strategy::AlwaysCommit);
    assert_eq!(Strategy::from_name("anything else"), Strategy::AlwaysCommit);
}

#[test]
fn default_options() {
    let opts = Opts::default();
    assert_eq!(opts.name, "simple");
    assert_eq!(opts.concurrency, 10);
    assert_eq!(opts.iterations, 1);
    assert_eq!(opts.wait, 5000);
    assert_eq!(opts.timeout, 1000);
    assert_eq!(opts.strategy(), Strategy::AlwaysCommit);
    assert_eq!(opts.lifecycle_count(), 10);
}

#[test]
fn options_select_the_strategy() {
    let mut opts = Opts::default();
    opts.name = "mixed".to_string();
    assert_eq!(opts.strategy(), Strategy::Mixed);
    opts.name = "other".to_string();
    assert_eq!(opts.strategy(), Strategy::AlwaysCommit);
}

#[test]
fn lifecycle_count_is_the_product_of_rounds_and_concurrency() {
    let mut opts = Opts::default();
    opts.iterations = 2;
    opts.concurrency = 3;
    assert_eq!(opts.lifecycle_count(), 6);
    opts.iterations = 0;
    assert_eq!(opts.lifecycle_count(), 0);
    opts.iterations = 7;
    opts.concurrency = 0;
    assert_eq!(opts.lifecycle_count(), 0);
    opts.iterations = u32::MAX;
    opts.concurrency = u32::MAX;
    assert_eq!(opts.lifecycle_count(), 18446744065119617025);
}
