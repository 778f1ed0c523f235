use stuntcopter::geom::Pos;
use stuntcopter::score::Height;
use stuntcopter::sprite::Sprite;
use stuntcopter::stuntman::{classify, Faller, Flip, Outcome, Splat, Wreck, FLIP_FRAMES};

fn kind(offset: i32) -> Outcome {
    classify(offset, 0)
}

#[test]
fn stuntman_collision_boundaries_match_the_original() {
    assert!(matches!(kind(-7), Outcome::Splat)); // just left of the wagon
    assert!(matches!(kind(-6), Outcome::Landed)); // first hay column
    assert!(matches!(kind(33), Outcome::Landed)); // last hay column
    assert!(matches!(kind(34), Outcome::HitDriver));
    assert!(matches!(kind(44), Outcome::HitDriver));
    assert!(matches!(kind(45), Outcome::HitHorse));
    assert!(matches!(kind(70), Outcome::HitHorse)); // back of the horse
    assert!(matches!(kind(71), Outcome::Splat)); // just past it
}

#[test]
fn flip_shows_fifteen_poses_then_finishes() {
    let mut flip = Flip::new();
    let mut poses = 0;
    let mut last = None;
    while !flip.finished() {
        let pose = flip.pose();
        assert!(pose.is_some(), "a pose shows on every tick of the flip");
        if pose != last {
            poses += 1;
            last = pose;
        }
        flip.advance();
    }
    assert_eq!(poses, FLIP_FRAMES, "one distinct pose per backflip step");
}

#[test]
fn splat_crumbles_then_leaves_the_wreck() {
    let mut splat = Splat::new(Wreck::Driver, 0);
    // Every crumple frame shows a pose; once spent, only the wreck remains.
    while !splat.finished() {
        assert!(splat.pose().is_some());
        splat.advance();
    }
    assert!(splat.pose().is_none(), "the crumple is spent when finished");
}

#[test]
fn classification_depends_only_on_the_offset() {
    assert_eq!(classify(214, 200), Outcome::Landed);
    assert_eq!(classify(1014, 1000), Outcome::Landed);
    assert_eq!(classify(240, 200), Outcome::HitDriver);
    assert_eq!(classify(250, 200), Outcome::HitHorse);
    assert_eq!(classify(100, 200), Outcome::Splat);
}

#[test]
fn the_flip_pose_changes_every_three_ticks_and_loops_to_the_first() {
    let mut flip = Flip::new();
    assert_eq!(flip.pose(), Some(Sprite::Flip01));
    flip.advance();
    flip.advance();
    assert_eq!(flip.pose(), Some(Sprite::Flip01));
    flip.advance();
    assert_eq!(flip.pose(), Some(Sprite::Flip02));
    while flip.tick < 42 {
        flip.advance();
    }
    // The fifteenth step shows the first pose again.
    assert_eq!(flip.pose(), Some(Sprite::Flip01));
    for _ in 0..3 {
        flip.advance();
    }
    assert!(flip.finished());
    assert_eq!(flip.pose(), None);
}

#[test]
fn the_splat_runs_six_frames_of_two_ticks() {
    let mut splat = Splat::new(Wreck::Horse, 42);
    assert_eq!(splat.pose(), Some(Sprite::ManSplat1));
    for _ in 0..11 {
        splat.advance();
    }
    assert_eq!(splat.pose(), Some(Sprite::ManSplat6));
    assert!(!splat.finished());
    splat.advance();
    assert!(splat.finished());
    assert_eq!(splat.wreck, Wreck::Horse);
    assert_eq!(splat.x, 42);
}

#[test]
fn a_faller_tumbles_through_five_frames() {
    let mut f = Faller::new(Pos::new(10, 20), Height::new(100));
    assert_eq!(f.sprite(), Sprite::ManDrop1);
    f.fall(4);
    assert_eq!(f.pos, Pos::new(10, 24));
    assert_eq!(f.sprite(), Sprite::ManDrop2);
    for _ in 0..4 {
        f.fall(1);
    }
    assert_eq!(f.pos.y, 28);
    assert_eq!(f.sprite(), Sprite::ManDrop1);
    f.gust(-2);
    assert_eq!(f.pos.x, 8);
    assert_eq!(f.height_of_drop, Height::new(100));
}
