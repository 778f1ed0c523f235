use stuntcopter::config::{COPTER_BOTTOM_LIMIT, COPTER_H, GROUND_Y, MAN_HANG_DH, MEN_PER_LEVEL};
use stuntcopter::copter::{TOP_LIMIT, WRAP_LEFT, WRAP_RIGHT};
use stuntcopter::event::{Event, EventLog, NoSink};
use stuntcopter::geom::{Pos, Vel};
use stuntcopter::intents::Intents;
use stuntcopter::score::{Height, Level, Points, Score};
use stuntcopter::stuntman::{Flip, Outcome, Splat, Stuntman, Wreck};
use stuntcopter::world::World;

fn steer(dh: i32, dv: i32) -> Intents {
    Intents {
        req: Vel::new(dh, dv),
        drop: false,
    }
}

/// Line up a drop `inset` pixels into the wagon from copter height `y`, and
/// run until the drop resolves, returning the events of the landing tick.
fn drop_at(world: &mut World, inset: i32, y: i32) -> Vec<Event> {
    let wagon_x = 200;
    world.pin_wagon(Some(wagon_x));
    world.pin_copter(Some(Pos::new(wagon_x + inset - MAN_HANG_DH, y)));
    world.tick(
        &Intents {
            req: Vel::new(0, 0),
            drop: true,
        },
        &mut NoSink,
    );
    let mut log = EventLog::default();
    for _ in 0..500 {
        log.clear();
        world.tick(&steer(0, 0), &mut log);
        if !matches!(world.stuntman, Stuntman::Falling(_)) {
            break;
        }
    }
    log.events().to_vec()
}

#[test]
fn a_landing_scores_level_times_the_drop_height() {
    let mut world = World::default();
    let height = GROUND_Y - (40 + COPTER_H);
    let events = drop_at(&mut world, 14, 40);
    assert_eq!(
        events[0],
        Event::Resolved {
            outcome: Outcome::Landed,
            points: Points::new(height),
            height: Height::new(height),
        }
    );
    assert_eq!(events[1], Event::CelebrationStarted);
    assert_eq!(world.score, Score::new(height));
    assert_eq!(world.hiscore, Score::new(height));
    assert_eq!(world.results[0], Some(Outcome::Landed));
}

#[test]
fn a_landing_on_level_two_scores_double() {
    let mut world = World::default();
    world.progression.level_up();
    let height = GROUND_Y - (40 + COPTER_H);
    drop_at(&mut world, 14, 40);
    assert_eq!(world.score.get(), 2 * height);
}

#[test]
fn hitting_the_horse_leaves_one_man_and_no_points() {
    let mut world = World::default();
    let events = drop_at(&mut world, 50, 40);
    assert!(matches!(
        events[0],
        Event::Resolved {
            outcome: Outcome::HitHorse,
            points: Points(0),
            ..
        }
    ));
    assert_eq!(events[1], Event::CrashStarted { wreck: Wreck::Horse });
    assert_eq!(world.men_left, 1);
    assert_eq!(world.score.get(), 0);
    assert_eq!(world.results[0], Some(Outcome::HitHorse));
}

#[test]
fn missing_the_wagon_splats_on_the_ground() {
    let mut world = World::default();
    let events = drop_at(&mut world, -40, 40);
    assert_eq!(events[1], Event::CrashStarted { wreck: Wreck::Ground });
    assert_eq!(world.men_left, MEN_PER_LEVEL);
    match world.stuntman {
        Stuntman::Crashing(s) => assert_eq!(s.wreck, Wreck::Ground),
        _ => panic!("a miss crashes"),
    }
}

#[test]
fn the_copter_accelerates_one_pixel_per_tick() {
    let mut world = World::default();
    world.tick(&steer(4, -3), &mut NoSink);
    assert_eq!(world.copter.velocity(), Vel::new(1, -1));
    world.tick(&steer(4, -3), &mut NoSink);
    assert_eq!(world.copter.velocity(), Vel::new(2, -2));
    world.tick(&steer(-4, -3), &mut NoSink);
    assert_eq!(world.copter.velocity(), Vel::new(1, -3));
    assert_eq!(world.copter.pos, Pos::new(212 + 1 + 2 + 1, 110 - 1 - 2 - 3));
}

#[test]
fn the_copter_stays_in_its_flight_band() {
    let mut world = World::default();
    for _ in 0..400 {
        world.tick(&steer(4, 4), &mut NoSink);
        assert!(world.copter.pos.x >= WRAP_LEFT && world.copter.pos.x <= WRAP_RIGHT);
        assert!(world.copter.pos.y >= TOP_LIMIT);
        assert!(world.copter.pos.y + COPTER_H <= COPTER_BOTTOM_LIMIT);
    }
    for _ in 0..400 {
        world.tick(&steer(-4, -3), &mut NoSink);
        assert!(world.copter.pos.x >= WRAP_LEFT && world.copter.pos.x <= WRAP_RIGHT);
        assert!(world.copter.pos.y >= TOP_LIMIT);
    }
    assert_eq!(world.copter.pos.y, TOP_LIMIT);
}

#[test]
fn the_height_readout_is_never_negative() {
    let mut world = World::default();
    assert_eq!(world.height(), Height::new(GROUND_Y - (110 + COPTER_H)));
    world.copter.pos = Pos::new(0, 300);
    assert_eq!(world.height(), Height::new(0));
}

#[test]
fn begin_keeps_the_high_score_and_the_wind_stream() {
    let mut world = World::default();
    world.score = Score::new(120);
    world.hiscore = Score::new(500);
    world.men_left = 2;
    world.over = true;
    world.progression.level_up();
    world.reseed(99);
    let mut expected_rng = stuntcopter::rng::Rng::new(99);
    world.begin();
    assert_eq!(world.hiscore.get(), 500);
    assert_eq!(world.score.get(), 0);
    assert_eq!(world.men_left, MEN_PER_LEVEL);
    assert!(!world.over);
    assert_eq!(world.progression.level, Level::new(1));
    assert_eq!(world.rng.range(0, 1000), expected_rng.range(0, 1000));
}

#[test]
fn the_level_banner_counts_down_to_zero() {
    let mut world = World::default();
    world.level_banner = 2;
    world.tick(&steer(0, 0), &mut NoSink);
    assert_eq!(world.level_banner, 1);
    world.tick(&steer(0, 0), &mut NoSink);
    world.tick(&steer(0, 0), &mut NoSink);
    assert_eq!(world.level_banner, 0);
}

#[test]
fn the_cloud_drifts_one_pixel_every_third_tick() {
    let mut world = World::default();
    let x0 = world.cloud.pos.x;
    world.tick(&steer(0, 0), &mut NoSink);
    world.tick(&steer(0, 0), &mut NoSink);
    assert_eq!(world.cloud.pos.x, x0);
    world.tick(&steer(0, 0), &mut NoSink);
    assert_eq!(world.cloud.pos.x, x0 - 1);
}

#[test]
fn a_respawned_cloud_reappears_off_the_right_edge_in_the_sky_band() {
    let mut world = World::default();
    world.cloud.pos = Pos::new(-64, 30);
    let frame = world.cloud.frame;
    for _ in 0..3 {
        world.tick(&steer(0, 0), &mut NoSink);
    }
    assert_eq!(world.cloud.pos.x, 512);
    assert!(world.cloud.pos.y >= 8 && world.cloud.pos.y < 120);
    assert_eq!(world.cloud.frame, (frame + 1) % 3);
}

#[test]
fn the_wagon_rolls_and_wraps() {
    let mut world = World::default();
    world.tick(&steer(0, 0), &mut NoSink);
    assert_eq!(world.wagon.x, 1);
    world.wagon.x = 513;
    world.tick(&steer(0, 0), &mut NoSink);
    assert_eq!(world.wagon.x, 513 - 582);
}

#[test]
fn same_world_and_intents_give_the_same_run() {
    let mut a = World::default();
    let mut b = World::default();
    a.reseed(5);
    b.reseed(5);
    let mut la = EventLog::default();
    let mut lb = EventLog::default();
    for i in 0..600 {
        let intents = Intents {
            req: Vel::new((i % 9) - 4, (i % 8) - 3),
            drop: i % 97 == 0,
        };
        a.tick(&intents, &mut la);
        b.tick(&intents, &mut lb);
        assert_eq!(a.copter.pos, b.copter.pos);
        assert_eq!(a.cloud.pos, b.cloud.pos);
        assert_eq!(a.score, b.score);
        if a.over {
            break;
        }
    }
    assert_eq!(la.events(), lb.events());
}

#[test]
fn the_last_man_spent_without_five_landings_ends_the_game() {
    let mut world = World::default();
    world.men_left = 1;
    world.good_jumps = 3;
    world.score = Score::new(77);
    world.stuntman = Stuntman::Celebrating(Flip::new());
    let mut log = EventLog::default();
    for _ in 0..45 {
        world.tick(&steer(0, 0), &mut log);
    }
    assert!(world.over);
    assert_eq!(world.hiscore.get(), 77);
    let events = log.events();
    assert_eq!(
        &events[events.len() - 2..],
        [
            Event::ManRetired { men_left: 0 },
            Event::GameEnded {
                score: Score::new(77)
            }
        ]
    );
}

#[test]
fn clearing_a_level_reports_the_new_level() {
    let mut world = World::default();
    world.men_left = 1;
    world.good_jumps = MEN_PER_LEVEL;
    world.stuntman = Stuntman::Crashing(Splat::new(Wreck::Ground, 0));
    let mut log = EventLog::default();
    for _ in 0..12 {
        world.tick(&steer(0, 0), &mut log);
    }
    let events = log.events();
    assert_eq!(
        &events[events.len() - 2..],
        [
            Event::ManRetired { men_left: 0 },
            Event::LevelCleared {
                level: Level::new(2)
            }
        ]
    );
    assert_eq!(world.men_left, MEN_PER_LEVEL);
    assert_eq!(world.good_jumps, 0);
    assert_eq!(world.results, [None; 5]);
    assert_eq!(world.level_banner, 60);
}

#[test]
fn render_state_and_current_man_follow_the_world() {
    let mut world = World::default();
    let r = world.render_state();
    assert_eq!(r.copter, world.copter.pos);
    assert_eq!(r.faller, None);
    assert_eq!(world.current_man(), 0);
    world.men_left = 2;
    assert_eq!(world.current_man(), 3);
    world.men_left = -3;
    assert_eq!(world.current_man(), 4);
    world.tick(
        &Intents {
            req: Vel::new(0, 0),
            drop: true,
        },
        &mut NoSink,
    );
    assert!(world.render_state().faller.is_some());
    assert_eq!(world.hang_pos(), Pos::new(world.copter.pos.x + 36, world.copter.pos.y + 23));
}

#[test]
fn attract_ticks_only_idle_the_scene() {
    let mut world = World::default();
    let before = world.copter.pos;
    world.attract_tick();
    assert_eq!(world.copter.pos, before);
    assert_eq!(world.wagon.x, 1);
    assert!(matches!(world.stuntman, Stuntman::Hanging));
    assert!(!world.wagon_pinned());
    world.pin_wagon(Some(10));
    assert!(world.wagon_pinned());
    world.pin_copter(Some(Pos::new(1, 2)));
    assert_eq!(world.copter_pinned(), Some(Pos::new(1, 2)));
}

#[test]
fn the_sink_never_changes_the_world() {
    let mut a = World::default();
    let mut b = World::default();
    let mut log = EventLog::default();
    for i in 0..400 {
        let intents = Intents {
            req: Vel::new((i % 9) - 4, (i % 7) - 3),
            drop: i % 61 == 0,
        };
        a.tick(&intents, &mut log);
        b.tick(&intents, &mut NoSink);
        assert_eq!(a.copter.pos, b.copter.pos);
        assert_eq!(a.copter.vel, b.copter.vel);
        assert_eq!(a.wagon.x, b.wagon.x);
        assert_eq!(a.cloud.pos, b.cloud.pos);
        assert_eq!(a.score, b.score);
        assert_eq!(a.men_left, b.men_left);
        assert_eq!(a.results, b.results);
        if a.over {
            break;
        }
    }
}

#[test]
fn pins_hold_the_wagon_and_copter_whatever_the_request() {
    let mut world = World::default();
    world.tick(&steer(4, 4), &mut NoSink);
    world.tick(&steer(4, 4), &mut NoSink);
    let vel = world.copter.velocity();
    assert_eq!(vel, Vel::new(2, 2));
    world.pin_wagon(Some(123));
    world.pin_copter(Some(Pos::new(150, 60)));
    for i in 0..10 {
        let frame = world.copter.frame;
        world.tick(&steer(-4 + i % 3, 4), &mut NoSink);
        assert_eq!(world.wagon.x, 123);
        assert_eq!(world.copter.pos, Pos::new(150, 60));
        assert_eq!(world.copter.velocity(), vel);
        assert_eq!(world.copter.frame, (frame + 1) % 3);
    }
}

#[test]
fn play_keeps_the_bookkeeping_in_range_and_never_lowers_score_or_level() {
    let mut world = World::default();
    world.reseed(11);
    let mut log = EventLog::default();
    let mut ticks = 0;
    for round in 0..40 {
        // Alternate hay landings with misses so both levels and losses occur.
        let inset = if round % 7 == 6 { 90 } else { 14 };
        world.pin_wagon(Some(200));
        world.pin_copter(Some(Pos::new(200 + inset - MAN_HANG_DH, 150)));
        let mut drop = true;
        loop {
            let before = (world.score, world.hiscore, world.progression.level);
            assert!(world.can_tick(&Intents { req: Vel::new(0, 0), drop }));
            world.tick(&Intents { req: Vel::new(0, 0), drop }, &mut log);
            drop = false;
            ticks += 1;
            assert!(world.score.get() >= before.0.get());
            assert!(world.hiscore.get() >= before.1.get());
            assert!(world.progression.level.get() >= before.2.get());
            assert!(world.hiscore.get() >= world.score.get());
            assert!((0..=MEN_PER_LEVEL).contains(&world.good_jumps));
            assert!(world.current_man() <= 4);
            if world.over {
                assert_eq!(world.men_left, 0);
            } else {
                assert!((1..=MEN_PER_LEVEL).contains(&world.men_left));
            }
            if world.over || matches!(world.stuntman, Stuntman::Hanging) {
                break;
            }
        }
        if world.over {
            break;
        }
    }
    assert!(ticks > 0);
    assert!(world.progression.level.get() >= 2);
}

#[test]
fn the_range_check_admits_play_and_refuses_runaway_values() {
    let mut world = World::default();
    assert!(world.can_tick(&steer(4, -3)));
    assert!(!world.can_tick(&steer(2_000_000, 0)));
    world.score = Score::new(1_500_000_000);
    assert!(!world.can_tick(&steer(0, 0)));
    world.score = Score::new(0);
    world.copter.frame = 3;
    assert!(!world.can_tick(&steer(0, 0)));
}
