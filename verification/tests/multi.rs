use canhttp::multi::{
    first_repetition, has_distinct_keys, parallel_call, InvalidResults, MultiResults, OutcomeClass,
    PendingResults, ReduceWithEquality, ReduceWithThreshold, ReductionError,
};
use itertools::Itertools;

fn check_inconsistent_error(results: MultiResults<u8, &str, &str>) {
    let reduced = results.clone().reduce(ReduceWithEquality);
    assert_eq!(reduced, Err(ReductionError::InconsistentResults(results)))
}

#[test]
fn should_be_inconsistent_results() {
    // different errors
    check_inconsistent_error(MultiResults::from_non_empty_iter(vec![
        (0_u8, Err("reject")),
        (1, Err("transient")),
    ]));
    // different ok results
    check_inconsistent_error(MultiResults::from_non_empty_iter(vec![
        (0_u8, Ok("hello")),
        (1, Ok("world")),
    ]));

    // mix of errors and ok results
    for inconsistent_result in [Ok("different"), Err("offline")] {
        for index in 0..4 {
            let mut results = [Ok("same"), Ok("same"), Ok("same"), Ok("same")];
            results[index] = inconsistent_result.clone();

            let [result_0, result_1, result_2, result_3] = results;

            check_inconsistent_error(MultiResults::from_non_empty_iter(vec![
                (0_u8, result_0),
                (1, result_1),
                (2, result_2),
                (3, result_3),
            ]));
        }
    }
}

fn check_consistent_error(results: MultiResults<u8, &str, &str>, expected_error: &str) {
    let reduced = results.reduce(ReduceWithEquality);
    assert_eq!(
        reduced,
        Err(ReductionError::ConsistentError(expected_error))
    )
}

#[test]
fn should_be_consistent_error() {
    check_consistent_error(
        MultiResults::from_non_empty_iter(vec![(0_u8, Err("error"))]),
        "error",
    );
    check_consistent_error(
        MultiResults::from_non_empty_iter(vec![(0_u8, Err("error")), (1, Err("error"))]),
        "error",
    );
}

fn check_consistent_result(results: MultiResults<u8, &str, &str>, expected_result: &str) {
    let reduced = results.reduce(ReduceWithEquality);
    assert_eq!(reduced, Ok(expected_result))
}

#[test]
fn should_be_consistent_result() {
    check_consistent_result(
        MultiResults::from_non_empty_iter(vec![(1, Ok("same"))]),
        "same",
    );
    check_consistent_result(
        MultiResults::from_non_empty_iter(vec![(0_u8, Ok("same")), (1, Ok("same"))]),
        "same",
    );
}

fn check_quorum_result(
    results: MultiResults<u8, &str, &str>,
    threshold: u8,
    expected_result: &str,
) {
    let reduced = results.reduce(ReduceWithThreshold::new(threshold));
    assert_eq!(reduced, Ok(expected_result));
}

#[test]
fn should_get_consistent_result() {
    // unanimous
    check_quorum_result(
        MultiResults::from_non_empty_iter(vec![
            (0_u8, Ok("same")),
            (1, Ok("same")),
            (2, Ok("same")),
            (3, Ok("same")),
        ]),
        3,
        "same",
    );

    // 3 out-of-4 ok
    for inconsistent_result in [Ok("different"), Err("offline")] {
        for index_inconsistent in 0..4_usize {
            let mut results = [Ok("same"), Ok("same"), Ok("same"), Ok("same")];
            results[index_inconsistent] = inconsistent_result.clone();
            let [result_0, result_1, result_2, result_3] = results;

            check_quorum_result(
                MultiResults::from_non_empty_iter(vec![
                    (0_u8, result_0),
                    (1, result_1),
                    (2, result_2),
                    (3, result_3),
                ]),
                3,
                "same",
            );
        }
    }
}

fn check_inconsistent_result(results: MultiResults<u8, &str, &str>, threshold: u8) {
    let reduced = results.clone().reduce(ReduceWithThreshold::new(threshold));
    assert_eq!(reduced, Err(ReductionError::InconsistentResults(results)));
}

#[test]
fn should_get_inconsistent_error() {
    //not enough results
    check_inconsistent_result(MultiResults::from_non_empty_iter(vec![(0, Ok("same"))]), 2);
    check_inconsistent_result(
        MultiResults::from_non_empty_iter(vec![(0, Ok("same")), (1, Ok("same"))]),
        3,
    );
    check_inconsistent_result(
        MultiResults::from_non_empty_iter(vec![(0, Ok("same")), (1, Err("offline"))]),
        3,
    );

    // 2-out-of-4 ok
    let inconsistent_results = [Ok("different"), Err("offline")];
    for (inconsistent_res_1, inconsistent_res_2) in inconsistent_results
        .clone()
        .iter()
        .cartesian_product(inconsistent_results)
    {
        for indexes in (0..4_usize).permutations(2) {
            let mut results = [Ok("same"), Ok("same"), Ok("same"), Ok("same")];
            results[indexes[0]] = inconsistent_res_1.clone();
            results[indexes[1]] = inconsistent_res_2.clone();
            let [result_0, result_1, result_2, result_3] = results;

            check_inconsistent_result(
                MultiResults::from_non_empty_iter(vec![
                    (0_u8, result_0),
                    (1, result_1),
                    (2, result_2),
                    (3, result_3),
                ]),
                3,
            );
        }
    }

    // 1-out-of-4 ok
    for ok_index in 0..4_usize {
        let mut results = [
            Err("offline"),
            Err("offline"),
            Err("offline"),
            Err("offline"),
        ];
        results[ok_index] = Ok("same");
        let [result_0, result_1, result_2, result_3] = results;

        check_inconsistent_result(
            MultiResults::from_non_empty_iter(vec![
                (0_u8, result_0),
                (1, result_1),
                (2, result_2),
                (3, result_3),
            ]),
            3,
        );
    }
}

#[test]
fn should_get_consistent_error() {
    let results: MultiResults<_, &str, _> = MultiResults::from_non_empty_iter(vec![
        (0_u8, Err("offline")),
        (1, Err("offline")),
        (2, Err("offline")),
        (3, Err("offline")),
    ]);

    assert_eq!(
        results.reduce(ReduceWithThreshold::new(3)),
        Err(ReductionError::ConsistentError("offline"))
    )
}

fn add(operands: (u32, u32)) -> Result<u32, String> {
    Ok(operands.0 + operands.1)
}

#[test]
fn should_call_every_provider_once_and_in_order() {
    let results = parallel_call(add, vec![(0_u8, (2, 3)), (1, (4, 5))]);
    assert_eq!(
        results,
        MultiResults::from_non_empty_iter(vec![(0_u8, Ok(5)), (1, Ok(9))])
    );
    assert_eq!(results.len(), 2);
    assert_eq!(results.key(0), &0);
    assert_eq!(results.outcome(1), &Ok(9));

    let reduced = results.clone().reduce(ReduceWithEquality);
    assert_eq!(reduced, Err(ReductionError::InconsistentResults(results)));

    let agreeing: MultiResults<u8, u32, String> =
        MultiResults::from_non_empty_iter(vec![(0_u8, Ok(5)), (1, Ok(5))]);
    assert_eq!(agreeing.reduce(ReduceWithEquality), Ok(5));
}

fn fail_on_odd(request: u32) -> Result<u32, String> {
    if request % 2 == 0 {
        Ok(request / 2)
    } else {
        Err(format!("odd request {request}"))
    }
}

#[test]
fn should_record_failures_verbatim() {
    let results = parallel_call(fail_on_odd, vec![("a", 4), ("b", 3), ("c", 8)]);
    assert_eq!(
        results.into_vec(),
        vec![
            ("a", Ok(2)),
            ("b", Err("odd request 3".to_string())),
            ("c", Ok(4)),
        ]
    );
}

#[test]
fn should_give_empty_set_for_no_request() {
    let results: MultiResults<u8, u32, String> = parallel_call(fail_on_odd, vec![]);
    assert!(results.is_empty());
    assert_eq!(results, MultiResults::default());
}

#[test]
fn should_refuse_repeated_key() {
    let built: Result<MultiResults<u8, u32, String>, _> =
        MultiResults::try_from_non_empty_iter(vec![(0, Ok(5)), (1, Ok(9)), (0, Ok(13))]);
    assert_eq!(
        built,
        Err(InvalidResults::DuplicateKey {
            first: 0,
            second: 2
        })
    );

    let built: Result<MultiResults<u8, u32, String>, _> = MultiResults::try_from_non_empty_iter(
        vec![(7, Ok(1)), (3, Ok(1)), (3, Err("late".to_string())), (7, Ok(1))],
    );
    assert_eq!(
        built,
        Err(InvalidResults::DuplicateKey {
            first: 1,
            second: 2
        })
    );
}

#[test]
fn should_refuse_empty_list() {
    let built: Result<MultiResults<u8, u32, String>, _> =
        MultiResults::try_from_non_empty_iter(vec![]);
    assert_eq!(built, Err(InvalidResults::Empty));
}

#[test]
fn should_keep_one_entry_per_pair() {
    let pairs: Vec<(u8, Result<u32, String>)> =
        vec![(2, Ok(5)), (0, Err("down".to_string())), (1, Ok(5))];
    let built = MultiResults::try_from_non_empty_iter(pairs.clone()).unwrap();
    assert_eq!(built.len(), 3);
    assert!(!built.is_empty());
    assert_eq!(built, MultiResults::from_non_empty_iter(pairs.clone()));
    assert_eq!(built.into_vec(), pairs);
}

#[test]
fn should_compare_sets_by_entries_and_order() {
    let forward: MultiResults<u8, u32, String> =
        MultiResults::from_non_empty_iter(vec![(0, Ok(5)), (1, Ok(9))]);
    let backward: MultiResults<u8, u32, String> =
        MultiResults::from_non_empty_iter(vec![(1, Ok(9)), (0, Ok(5))]);
    assert_ne!(forward, backward);
    assert_eq!(forward, forward.clone());
}

#[test]
fn should_answer_by_key_whatever_the_order() {
    let entries: Vec<(u8, Result<u32, String>)> = vec![
        (0, Ok(5)),
        (1, Err("down".to_string())),
        (2, Ok(9)),
        (3, Ok(5)),
    ];
    let in_order = MultiResults::from_non_empty_iter(entries.clone());
    for permuted in entries.clone().into_iter().permutations(4) {
        let shuffled = MultiResults::from_non_empty_iter(permuted);
        for key in 0..5_u8 {
            assert_eq!(in_order.get(&key), shuffled.get(&key));
        }
    }
    assert_eq!(in_order.get(&1), Some(&Err("down".to_string())));
    assert_eq!(in_order.get(&2), Some(&Ok(9)));
    assert_eq!(in_order.get(&4), None);
}

#[test]
fn should_list_classes_in_the_order_they_open() {
    let results: MultiResults<u8, &str, &str> = MultiResults::from_non_empty_iter(vec![
        (0, Ok("a")),
        (1, Err("a")),
        (2, Ok("b")),
        (3, Ok("a")),
        (4, Err("a")),
        (5, Ok("a")),
    ]);
    assert_eq!(
        results.classes(),
        vec![
            OutcomeClass { first: 0, size: 3 },
            OutcomeClass { first: 1, size: 2 },
            OutcomeClass { first: 2, size: 1 },
        ]
    );
    let none: MultiResults<u8, &str, &str> = MultiResults::default();
    assert_eq!(none.classes(), vec![]);
}

#[test]
fn should_not_reach_quorum_with_a_single_entry() {
    let lone: MultiResults<u8, &str, &str> = MultiResults::from_non_empty_iter(vec![(0, Ok("same"))]);
    assert_eq!(
        lone.clone().reduce(ReduceWithThreshold::new(2)),
        Err(ReductionError::InconsistentResults(lone.clone()))
    );
    assert_eq!(lone.clone().reduce(ReduceWithThreshold::new(1)), Ok("same"));
    assert_eq!(lone.reduce(ReduceWithEquality), Ok("same"));
}

#[test]
fn should_trust_a_failure_only_when_all_agree() {
    let lone: MultiResults<u8, &str, &str> =
        MultiResults::from_non_empty_iter(vec![(0, Err("offline"))]);
    assert_eq!(
        lone.reduce(ReduceWithThreshold::new(2)),
        Err(ReductionError::ConsistentError("offline"))
    );

    let majority: MultiResults<u8, &str, &str> = MultiResults::from_non_empty_iter(vec![
        (0, Err("offline")),
        (1, Err("offline")),
        (2, Err("offline")),
        (3, Err("busy")),
    ]);
    assert_eq!(
        majority.clone().reduce(ReduceWithThreshold::new(3)),
        Err(ReductionError::InconsistentResults(majority))
    );
}

#[test]
fn should_pick_the_largest_class_and_the_first_on_a_tie() {
    let results: MultiResults<u8, &str, &str> = MultiResults::from_non_empty_iter(vec![
        (0, Ok("few")),
        (1, Ok("many")),
        (2, Err("offline")),
        (3, Ok("many")),
    ]);
    assert_eq!(results.clone().reduce(ReduceWithThreshold::new(1)), Ok("many"));
    assert_eq!(results.clone().reduce(ReduceWithThreshold::new(2)), Ok("many"));
    assert_eq!(
        results.clone().reduce(ReduceWithThreshold::new(3)),
        Err(ReductionError::InconsistentResults(results))
    );

    let tied: MultiResults<u8, &str, &str> = MultiResults::from_non_empty_iter(vec![
        (0, Ok("left")),
        (1, Ok("right")),
        (2, Ok("right")),
        (3, Ok("left")),
    ]);
    assert_eq!(tied.clone().reduce(ReduceWithThreshold::new(2)), Ok("left"));
    assert_eq!(tied.reduce(ReduceWithThreshold::new(0)), Ok("left"));
}

#[test]
fn should_accept_any_threshold_of_zero_only_with_a_success() {
    let failed: MultiResults<u8, &str, &str> =
        MultiResults::from_non_empty_iter(vec![(0, Err("offline")), (1, Err("busy"))]);
    assert_eq!(
        failed.clone().reduce(ReduceWithThreshold::new(0)),
        Err(ReductionError::InconsistentResults(failed))
    );
}

#[test]
fn should_reduce_the_same_set_to_the_same_answer() {
    let sets: Vec<MultiResults<u8, &str, &str>> = vec![
        MultiResults::from_non_empty_iter(vec![(0, Ok("same")), (1, Ok("same")), (2, Ok("same"))]),
        MultiResults::from_non_empty_iter(vec![(0, Ok("same")), (1, Ok("other")), (2, Ok("same"))]),
        MultiResults::from_non_empty_iter(vec![(0, Err("offline")), (1, Err("offline"))]),
        MultiResults::from_non_empty_iter(vec![(0, Err("offline")), (1, Ok("same"))]),
    ];
    for results in sets {
        assert_eq!(
            results.clone().reduce(ReduceWithEquality),
            results.clone().reduce(ReduceWithEquality)
        );
        for threshold in 0..4 {
            assert_eq!(
                results.clone().reduce(ReduceWithThreshold::new(threshold)),
                results.clone().reduce(ReduceWithThreshold::new(threshold))
            );
        }
    }
}

#[test]
fn should_gather_outcomes_in_the_order_of_the_requests() {
    let requests = vec![("a", 4_u32), ("b", 3), ("c", 8)];
    let expected: MultiResults<&str, u32, String> = parallel_call(fail_on_odd, requests.clone());

    for order in (0..3_usize).permutations(3) {
        let (mut pending, to_send): (PendingResults<&str, u32, String>, Vec<u32>) =
            PendingResults::start(requests.clone());
        assert_eq!(to_send, vec![4, 3, 8]);
        assert_eq!(pending.len(), 3);
        assert!(!pending.is_complete());
        for (step, place) in order.iter().enumerate() {
            assert!(pending.is_awaited(*place));
            pending.record(*place, fail_on_odd(to_send[*place]));
            assert!(!pending.is_awaited(*place));
            assert_eq!(pending.is_complete(), step == 2);
        }
        assert!(!pending.is_awaited(3));
        assert_eq!(pending.finish(), expected);
    }
}

#[test]
fn should_finish_at_once_without_requests() {
    let (pending, to_send): (PendingResults<u8, u32, String>, Vec<u32>) =
        PendingResults::start(vec![]);
    assert!(to_send.is_empty());
    assert!(pending.is_complete());
    assert_eq!(pending.finish(), MultiResults::default());
}

#[test]
fn should_tell_equal_sets_from_unequal_ones() {
    let left: MultiResults<u8, &str, &str> =
        MultiResults::from_non_empty_iter(vec![(0, Ok("same")), (1, Err("same"))]);
    let same: MultiResults<u8, &str, &str> =
        MultiResults::from_non_empty_iter(vec![(0, Ok("same")), (1, Err("same"))]);
    let other_key: MultiResults<u8, &str, &str> =
        MultiResults::from_non_empty_iter(vec![(0, Ok("same")), (2, Err("same"))]);
    let other_variant: MultiResults<u8, &str, &str> =
        MultiResults::from_non_empty_iter(vec![(0, Ok("same")), (1, Ok("same"))]);
    let other_value: MultiResults<u8, &str, &str> =
        MultiResults::from_non_empty_iter(vec![(0, Ok("other")), (1, Err("same"))]);
    let shorter: MultiResults<u8, &str, &str> =
        MultiResults::from_non_empty_iter(vec![(0, Ok("same"))]);
    assert_eq!(left, same);
    assert_ne!(left, other_key);
    assert_ne!(left, other_variant);
    assert_ne!(left, other_value);
    assert_ne!(left, shorter);
    assert_ne!(shorter, left);
}

#[test]
fn should_find_the_first_repeated_key() {
    let none: Vec<(u8, &str)> = vec![];
    assert!(has_distinct_keys(&none));
    assert_eq!(first_repetition(&none), None);
    assert!(has_distinct_keys(&vec![(3_u8, "a")]));
    assert!(has_distinct_keys(&vec![(3_u8, "a"), (1, "a"), (2, "a")]));
    assert_eq!(first_repetition(&vec![(3_u8, "a"), (1, "a"), (2, "a")]), None);

    let repeated = vec![(7_u8, "a"), (3, "b"), (5, "c"), (3, "d"), (7, "e"), (3, "f")];
    assert!(!has_distinct_keys(&repeated));
    assert_eq!(first_repetition(&repeated), Some((1, 3)));
    assert_eq!(first_repetition(&vec![(0_u8, ()), (0, ())]), Some((0, 1)));
}

#[test]
fn should_agree_with_a_threshold_of_all_providers() {
    let sets: Vec<MultiResults<u8, &str, &str>> = vec![
        MultiResults::from_non_empty_iter(vec![(0, Ok("same"))]),
        MultiResults::from_non_empty_iter(vec![(0, Err("offline"))]),
        MultiResults::from_non_empty_iter(vec![(0, Ok("same")), (1, Ok("same")), (2, Ok("same"))]),
        MultiResults::from_non_empty_iter(vec![(0, Ok("same")), (1, Ok("other")), (2, Ok("same"))]),
        MultiResults::from_non_empty_iter(vec![(0, Err("offline")), (1, Err("offline"))]),
        MultiResults::from_non_empty_iter(vec![(0, Err("offline")), (1, Err("busy"))]),
        MultiResults::from_non_empty_iter(vec![(0, Err("same")), (1, Ok("same"))]),
    ];
    for results in sets {
        let all = results.len() as u8;
        assert_eq!(
            results.clone().reduce(ReduceWithEquality),
            results.reduce(ReduceWithThreshold::new(all))
        );
    }
}

#[test]
fn should_keep_the_value_of_the_majority_whatever_comes_first() {
    for outcomes in [Ok("minor"), Ok("major"), Ok("major"), Err("offline"), Ok("major")]
        .into_iter()
        .permutations(5)
    {
        let results: MultiResults<usize, &str, &str> =
            MultiResults::from_non_empty_iter(outcomes.into_iter().enumerate().collect());
        assert_eq!(results.reduce(ReduceWithThreshold::new(3)), Ok("major"));
    }
}
