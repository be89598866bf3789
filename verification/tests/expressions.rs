use waitforit::{Reading, Step, Wait, WaitMultiple, Waits};

fn updated(path: &str) -> Waits {
    Waits::single(Wait::new_file_update(path, false))
}

fn present(path: &str) -> Waits {
    Waits::single(Wait::path_exists(path))
}

/// Runs one tick as a driver does: from probe to probe, reading what the
/// script holds for each leaf, and noting which leaves were probed.
fn drive(waits: &mut Waits, script: &[Reading]) -> (bool, Vec<usize>) {
    let mut probed = Vec::new();
    let mut step = waits.begin();
    loop {
        match step {
            Step::Done(met) => return (met, probed),
            Step::Probe(leaf) => {
                probed.push(leaf);
                step = waits.feed(leaf, script[leaf]);
            }
        }
    }
}

#[test]
fn or_with_left_side_met_skips_the_right_side() {
    let mut waits = present("/tmp/b").or(updated("/tmp/a"));
    let script = [Reading::Existence(true), Reading::Modified(Some(1))];
    assert_eq!(drive(&mut waits, &script), (true, vec![0]));
    // The skipped condition has recorded no baseline.
    assert_eq!(waits, present("/tmp/b").or(updated("/tmp/a")));
}

#[test]
fn or_evaluates_its_left_side_first() {
    let mut waits = updated("/tmp/a").or(present("/tmp/b"));
    let script = [Reading::Modified(Some(1)), Reading::Existence(true)];
    assert_eq!(drive(&mut waits, &script), (true, vec![0, 1]));
    assert_eq!(
        waits,
        Waits::single(Wait::Update {
            not: false,
            path: "/tmp/a".to_string(),
            modified: Some(1)
        })
        .or(present("/tmp/b"))
    );
}

#[test]
fn and_with_left_side_unmet_skips_the_right_side() {
    let mut waits = present("/tmp/b").and(updated("/tmp/a"));
    let script = [Reading::Existence(false), Reading::Modified(Some(1))];
    assert_eq!(drive(&mut waits, &script), (false, vec![0]));
    assert_eq!(waits, present("/tmp/b").and(updated("/tmp/a")));
}

#[test]
fn skipped_condition_takes_its_baseline_when_first_reached() {
    let mut waits = present("/tmp/b").and(updated("/tmp/a"));
    let absent = [Reading::Existence(false), Reading::Modified(Some(1))];
    assert_eq!(drive(&mut waits, &absent), (false, vec![0]));
    // Reached for the first time: the reading is a baseline, not a change.
    let present = [Reading::Existence(true), Reading::Modified(Some(2))];
    assert_eq!(drive(&mut waits, &present), (false, vec![0, 1]));
    let changed = [Reading::Existence(true), Reading::Modified(Some(3))];
    assert_eq!(drive(&mut waits, &changed), (true, vec![0, 1]));
}

#[test]
fn nested_expression_goes_from_leaf_to_leaf() {
    // (a and b) or (c and d)
    let build = || {
        present("a").and(present("b")).or(present("c").and(present("d")))
    };
    let reading = |a: bool, b: bool, c: bool, d: bool| {
        [
            Reading::Existence(a),
            Reading::Existence(b),
            Reading::Existence(c),
            Reading::Existence(d),
        ]
    };
    assert_eq!(drive(&mut build(), &reading(true, true, false, false)), (true, vec![0, 1]));
    assert_eq!(drive(&mut build(), &reading(false, true, true, true)), (true, vec![0, 2, 3]));
    assert_eq!(drive(&mut build(), &reading(true, false, true, false)), (false, vec![0, 1, 2, 3]));
    assert_eq!(drive(&mut build(), &reading(false, false, false, true)), (false, vec![0, 2]));
}

#[test]
fn replay_agrees_with_the_driver() {
    let flags = [false, true];
    for a in flags {
        for b in flags {
            for c in flags {
                let script = vec![
                    Reading::Existence(a),
                    Reading::Modified(Some(9)),
                    Reading::Existence(c),
                    Reading::Size(if b { Some(4) } else { None }),
                ];
                let build = || {
                    present("a")
                        .or(updated("b"))
                        .and(present("c").or(Waits::single(Wait::new_file_size("d", true))))
                };
                let mut driven = build();
                let mut replayed = build();
                let (met, _) = drive(&mut driven, &script);
                assert_eq!(replayed.condition_met(&script), met);
                assert_eq!(replayed, driven);
                assert_eq!(met, a && c);
            }
        }
    }
}

#[test]
fn leaves_are_counted_and_probed_by_number() {
    let waits = present("a").and(updated("b")).or(present("c"));
    assert_eq!(waits.leaves(), 3);
    assert_eq!(waits.probe(0), Wait::path_exists("a").probe());
    assert_eq!(waits.probe(1), Wait::new_file_update("b", false).probe());
    assert_eq!(waits.probe(2), Wait::path_exists("c").probe());
    assert_eq!(Waits::single(Wait::new_elapsed(1)).leaves(), 1);
}

#[test]
fn single_condition_is_its_own_tick() {
    let mut waits = Waits::single(Wait::new_file_size("/tmp/f", false));
    assert_eq!(waits.begin(), Step::Probe(0));
    assert_eq!(waits.feed(0, Reading::Size(Some(10))), Step::Done(false));
    assert_eq!(waits.feed(0, Reading::Size(Some(20))), Step::Done(true));
}

#[test]
fn feed_names_the_next_leaf() {
    let mut either = present("a").or(present("b"));
    assert_eq!(either.feed(0, Reading::Existence(false)), Step::Probe(1));
    assert_eq!(either.feed(1, Reading::Existence(false)), Step::Done(false));
    assert_eq!(either.feed(0, Reading::Existence(true)), Step::Done(true));
    let mut both = present("a").and(present("b"));
    assert_eq!(both.feed(0, Reading::Existence(true)), Step::Probe(1));
    assert_eq!(both.feed(1, Reading::Existence(true)), Step::Done(true));
    assert_eq!(both.feed(0, Reading::Existence(false)), Step::Done(false));
}

#[test]
fn any_of_several_conditions() {
    let mut several = WaitMultiple::new(vec![
        Wait::path_exists("a"),
        Wait::new_file_size("b", false),
        Wait::path_exists("c"),
    ]);
    assert_eq!(several.len(), 3);
    let script = vec![
        Reading::Existence(false),
        Reading::Size(Some(1)),
        Reading::Existence(false),
    ];
    assert!(!several.condition_met(&script));
    let script = vec![
        Reading::Existence(true),
        Reading::Size(Some(2)),
        Reading::Existence(false),
    ];
    assert!(several.condition_met(&script));
    // The first condition ended the tick: the second was not evaluated.
    assert_eq!(
        several.0[1],
        Wait::FileSize { not: false, path: "b".to_string(), bytes: Some(1) }
    );
}

#[test]
fn no_condition_is_nothing_to_wait_for() {
    let mut none = WaitMultiple::new(Vec::new());
    assert_eq!(none.begin(), Step::Done(true));
    assert!(none.condition_met(&Vec::new()));
}

#[test]
fn several_conditions_step_by_step() {
    let mut several = WaitMultiple::new(vec![Wait::path_exists("a")]).or(Wait::not_exists("b"));
    assert_eq!(several.begin(), Step::Probe(0));
    assert_eq!(several.probe(1), Wait::not_exists("b").probe());
    assert_eq!(several.feed(0, Reading::Existence(false)), Step::Probe(1));
    assert_eq!(several.feed(1, Reading::Existence(true)), Step::Done(false));
    assert_eq!(several.feed(1, Reading::Existence(false)), Step::Done(true));
    assert_eq!(several.feed(0, Reading::Existence(true)), Step::Done(true));
}

#[test]
fn condition_converts_into_an_expression() {
    let wait = Wait::new_elapsed(5);
    assert_eq!(Waits::from(wait.clone()), Waits::Single(wait.clone()));
    assert_eq!(Waits::single(wait.clone()), Waits::Single(wait));
}
