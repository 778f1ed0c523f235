use stuntcopter::level::Progression;

#[test]
fn ramp_matches_the_original() {
    // (level, wagon_px, gravity_px) after each level-up, from the source table.
    let expected = [
        (2, 2, 4),
        (3, 3, 4),
        (4, 3, 3),
        (5, 3, 2),
        (6, 3, 1),
        (7, 3, 1),
    ];
    let mut p = Progression::default();
    assert_eq!((p.level.get(), p.wagon.px(), p.gravity.px()), (1, 1, 4));
    for &(level, wagon, gravity) in &expected {
        p.level_up();
        assert_eq!(
            (p.level.get(), p.wagon.px(), p.gravity.px()),
            (level, wagon, gravity)
        );
    }
}

#[test]
fn status_words_follow_the_ramp() {
    let mut p = Progression::default();
    assert_eq!(p.wagon.word(), "WALK");
    assert_eq!(p.gravity.word(), "HEAVY");
    p.level_up();
    assert_eq!(p.wagon.word(), "TROT");
    p.level_up();
    assert_eq!(p.wagon.word(), "GALLOP");
    assert_eq!(p.gravity.word(), "HEAVY");
    p.level_up();
    assert_eq!(p.gravity.word(), "NORMAL");
    p.level_up();
    assert_eq!(p.gravity.word(), "FLYING");
    p.level_up();
    assert_eq!(p.gravity.word(), "OH BOY");
    p.level_up();
    assert_eq!(p.gravity.word(), "OH BOY");
}
