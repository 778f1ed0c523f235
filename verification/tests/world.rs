use stuntcopter::config::{MAN_HANG_DH, MEN_PER_LEVEL};
use stuntcopter::event::{Event, EventLog, NoSink};
use stuntcopter::geom::{Pos, Vel};
use stuntcopter::intents::Intents;
use stuntcopter::stuntman::{Flip, Outcome, Splat, Stuntman, Wreck};
use stuntcopter::world::World;

fn idle() -> Intents {
    Intents {
        req: Vel::new(0, 0),
        drop: false,
    }
}

fn drop() -> Intents {
    Intents {
        req: Vel::new(0, 0),
        drop: true,
    }
}

/// Tick until `stuntman` leaves its current animated variant (or we give up).
fn run_until_transition(world: &mut World) {
    for _ in 0..500 {
        match world.stuntman {
            Stuntman::Celebrating(_) | Stuntman::Crashing(_) if !world.over => {
                world.tick(&idle(), &mut NoSink);
            }
            _ => break,
        }
    }
}

#[test]
fn a_finished_celebration_hangs_the_next_man() {
    let mut world = World::default();
    world.stuntman = Stuntman::Celebrating(Flip::new());
    run_until_transition(&mut world);
    assert!(matches!(world.stuntman, Stuntman::Hanging));
    assert_eq!(world.men_left, MEN_PER_LEVEL - 1);
    assert!(!world.over);
}

#[test]
fn clearing_a_level_ramps_difficulty_and_shows_the_banner() {
    let mut world = World::default();
    world.good_jumps = MEN_PER_LEVEL; // all five landed
    world.men_left = 1; // on the last man
    world.stuntman = Stuntman::Celebrating(Flip::new());
    run_until_transition(&mut world);
    assert_eq!(world.progression.level.get(), 2);
    assert!(world.level_banner > 0);
    assert!(!world.over);
    assert!(matches!(world.stuntman, Stuntman::Hanging));
}

#[test]
fn a_hay_landing_triggers_the_celebration() {
    let mut world = World::default();
    let wagon_x = 200;
    world.pin_wagon(Some(wagon_x));
    // The man's x is copter.x + MAN_HANG_DH; aim it 14px into the hay (well
    // inside the `< 34` success band), and drop from high up.
    let copter_x = wagon_x + 14 - MAN_HANG_DH;
    world.pin_copter(Some(Pos::new(copter_x, 40)));

    world.tick(&drop(), &mut NoSink);
    assert!(matches!(world.stuntman, Stuntman::Falling(_)));

    for _ in 0..500 {
        world.tick(&idle(), &mut NoSink);
        if !matches!(world.stuntman, Stuntman::Falling(_)) {
            break;
        }
    }
    assert!(
        matches!(world.stuntman, Stuntman::Celebrating(_)),
        "a drop into the hay celebrates"
    );
    assert_eq!(world.good_jumps, 1);
    assert!(world.score.get() > 0);
}

#[test]
fn the_event_log_records_a_drop_and_a_landing() {
    let mut world = World::default();
    let wagon_x = 200;
    world.pin_wagon(Some(wagon_x));
    world.pin_copter(Some(Pos::new(wagon_x + 14 - MAN_HANG_DH, 40)));

    // An EventLog collects what the tick reports — no timing or rendering.
    let mut log = EventLog::default();
    world.tick(&drop(), &mut log);
    assert_eq!(log.events(), [Event::Dropped]);

    // Drive to the landing and confirm the celebration announces itself: the
    // resolution (cause) and the backflip starting (effect), in that order.
    let mut resolved = false;
    let mut celebrated = false;
    for _ in 0..500 {
        log.clear();
        world.tick(&idle(), &mut log);
        for &event in log.events() {
            match event {
                Event::Resolved {
                    outcome: Outcome::Landed,
                    points,
                    ..
                } if points.get() > 0 => {
                    resolved = true;
                }
                Event::CelebrationStarted => {
                    assert!(resolved, "the landing resolves before it celebrates");
                    celebrated = true;
                }
                _ => {}
            }
        }
        if celebrated {
            break;
        }
    }
    assert!(celebrated, "a hay landing starts the backflip celebration");
}

#[test]
fn striking_the_driver_ends_the_game_and_leaves_the_wreck() {
    let mut world = World::default();
    world.men_left = 1; // the driver hit set MenLeft := 1
    world.stuntman = Stuntman::Crashing(Splat::new(Wreck::Driver, 100));
    run_until_transition(&mut world);
    assert!(world.over);
    // The wreck is left in place for the game-over screen, not cleared.
    assert!(matches!(world.stuntman, Stuntman::Crashing(_)));
}
