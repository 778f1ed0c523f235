use stuntcopter::audio::{cues, fanfare_index, is_crash, loop_action, wav, Cue, LoopAction, Noise};
use stuntcopter::debug::DebugKeys;
use stuntcopter::event::Event;
use stuntcopter::geom::{Pos, Vel};
use stuntcopter::hud::{checker_pixel, digit_sprite, dither_pixel, score_digits, thumb};
use stuntcopter::input::{clamp_request, keyboard_steer, SteerKeys};
use stuntcopter::scene::{Scene, SceneStep};
use stuntcopter::score::{Height, Points};
use stuntcopter::sprite::Sprite;
use stuntcopter::stuntman::{Outcome, Wreck};
use stuntcopter::world::World;

#[test]
fn celebrations_and_crashes_call_for_their_sounds() {
    let events = [
        Event::Dropped,
        Event::Resolved {
            outcome: Outcome::Splat,
            points: Points::new(0),
            height: Height::new(10),
        },
        Event::CrashStarted { wreck: Wreck::Ground },
        Event::Resolved {
            outcome: Outcome::Landed,
            points: Points::new(30),
            height: Height::new(30),
        },
        Event::CelebrationStarted,
    ];
    assert_eq!(cues(&events, 3), vec![Cue::Splat, Cue::Fanfare(2)]);
    assert_eq!(cues(&events[..1], 3), vec![]);
}

#[test]
fn the_fanfare_is_clamped_to_the_top_level() {
    assert_eq!(fanfare_index(1), 0);
    assert_eq!(fanfare_index(5), 4);
    assert_eq!(fanfare_index(9), 4);
    assert_eq!(fanfare_index(0), 0);
    assert!(is_crash(Outcome::HitDriver));
    assert!(!is_crash(Outcome::Landed));
}

#[test]
fn the_drone_starts_and_stops_only_on_a_change() {
    assert_eq!(loop_action(false, true), LoopAction::Start);
    assert_eq!(loop_action(true, true), LoopAction::Keep);
    assert_eq!(loop_action(true, false), LoopAction::Stop);
    assert_eq!(loop_action(false, false), LoopAction::Keep);
}

#[test]
fn noise_is_xorshift32_from_a_fixed_seed() {
    let mut n = Noise::new();
    let mut x: u32 = 0x1234_5678;
    for _ in 0..10 {
        x ^= x << 13;
        x ^= x >> 17;
        x ^= x << 5;
        assert_eq!(n.next_u32(), x);
    }
}

#[test]
fn wav_frames_samples_behind_a_pcm_header() {
    let bytes = wav(&[0, 1, -1, 0x1234]);
    assert_eq!(bytes.len(), 44 + 8);
    assert_eq!(&bytes[0..4], b"RIFF");
    assert_eq!(&bytes[4..8], &(36u32 + 8).to_le_bytes());
    assert_eq!(&bytes[8..12], b"WAVE");
    assert_eq!(&bytes[12..16], b"fmt ");
    assert_eq!(&bytes[24..28], &22_050u32.to_le_bytes());
    assert_eq!(&bytes[28..32], &44_100u32.to_le_bytes());
    assert_eq!(&bytes[36..40], b"data");
    assert_eq!(&bytes[40..44], &8u32.to_le_bytes());
    assert_eq!(&bytes[44..], &[0, 0, 1, 0, 0xff, 0xff, 0x34, 0x12]);
    assert_eq!(wav(&[]).len(), 44);
}

#[test]
fn the_score_panel_shows_five_digits_and_a_trailing_zero() {
    assert_eq!(score_digits(12345), [1, 2, 3, 4, 5, 0]);
    assert_eq!(score_digits(219), [0, 0, 2, 1, 9, 0]);
    assert_eq!(score_digits(123456), [2, 3, 4, 5, 6, 0]);
    assert_eq!(digit_sprite(0), Sprite::Num0);
    assert_eq!(digit_sprite(7), Sprite::Num7);
    assert_eq!(digit_sprite(12), Sprite::Num9);
    assert_eq!(thumb(Some(Outcome::Landed)), Some(true));
    assert_eq!(thumb(Some(Outcome::HitHorse)), Some(false));
    assert_eq!(thumb(None), None);
}

#[test]
fn the_panel_fill_patterns() {
    // Row 0 is 0x77 = 0111_0111: pixel 0 blank, 1..3 ink, 4 blank.
    assert!(!dither_pixel(0, 0));
    assert!(dither_pixel(1, 0));
    assert!(!dither_pixel(4, 0));
    // Row 1 is 0xDD = 1101_1101.
    assert!(dither_pixel(0, 1));
    assert!(!dither_pixel(2, 1));
    assert!(dither_pixel(8, 1));
    assert!(checker_pixel(0, 0));
    assert!(!checker_pixel(1, 0));
    assert!(checker_pixel(3, 5));
}

#[test]
fn keyboard_steering_uses_the_full_deflection() {
    let none = SteerKeys {
        left: false,
        right: false,
        up: false,
        down: false,
    };
    assert_eq!(keyboard_steer(none), None);
    let k = SteerKeys {
        left: true,
        up: true,
        ..none
    };
    assert_eq!(keyboard_steer(k), Some(Vel::new(-4, -3)));
    let k = SteerKeys {
        left: true,
        right: true,
        down: true,
        ..none
    };
    assert_eq!(keyboard_steer(k), Some(Vel::new(4, 4)));
    assert_eq!(clamp_request(Vel::new(9, -9)), Vel::new(4, -3));
    assert_eq!(clamp_request(Vel::new(-2, 1)), Vel::new(-2, 1));
}

#[test]
fn scenes_move_on_confirm_exit_and_game_over() {
    let s = Scene::Attract.step(true, false, false);
    assert_eq!(
        s,
        SceneStep {
            scene: Scene::Playing,
            begin: true,
            clear_drop: true
        }
    );
    assert_eq!(Scene::Playing.step(false, true, false).scene, Scene::Paused);
    assert_eq!(Scene::Playing.step(false, true, true).scene, Scene::GameOver);
    assert_eq!(Scene::Paused.step(false, true, false).scene, Scene::Attract);
    let s = Scene::Paused.step(true, true, false);
    assert_eq!(s.scene, Scene::Playing);
    assert!(!s.begin && s.clear_drop);
    assert!(Scene::GameOver.step(true, false, false).begin);
    assert_eq!(Scene::GameOver.step(false, true, false).scene, Scene::GameOver);
    assert!(Scene::Playing.plays() && !Scene::Paused.plays());
}

#[test]
fn the_debug_log_keeps_the_newest_eight_events() {
    let mut d = stuntcopter::debug::Debug::default();
    let mut events = Vec::new();
    for i in 0..11 {
        events.push(Event::ManRetired { men_left: i });
    }
    d.record(&events[..3]);
    assert_eq!(d.recent(), events[..3].to_vec());
    d.record(&events[3..]);
    assert_eq!(d.recent(), events[3..].to_vec());
}

#[test]
fn debug_keys_pin_toggle_and_line_up() {
    let none = DebugKeys {
        toggle_mouse: false,
        pin_wagon: false,
        pin_copter: false,
        line_up: false,
        low: false,
        right: false,
        left: false,
        down: false,
        up: false,
    };
    let mut d = stuntcopter::debug::Debug::default();
    let mut world = World::default();
    assert!(d.mouse_steer());
    d.update(
        &mut world,
        DebugKeys {
            toggle_mouse: true,
            pin_wagon: true,
            ..none
        },
    );
    assert!(!d.mouse_steer());
    assert_eq!(world.wagon_pinned, Some(0));
    d.update(
        &mut world,
        DebugKeys {
            line_up: true,
            ..none
        },
    );
    assert_eq!(world.wagon_pinned, Some(219));
    assert_eq!(world.copter_pinned, Some(Pos::new(219 + 14 - 36, 40)));
    d.update(
        &mut world,
        DebugKeys {
            right: true,
            up: true,
            ..none
        },
    );
    assert_eq!(world.copter_pinned, Some(Pos::new(219 + 14 - 36 + 4, 36)));
    d.update(
        &mut world,
        DebugKeys {
            pin_copter: true,
            ..none
        },
    );
    assert_eq!(world.copter_pinned, None);
}

#[test]
fn the_line_up_preset_drops_straight_into_the_hay() {
    for (low, height) in [(false, 219), (true, 49)] {
        let mut d = stuntcopter::debug::Debug::default();
        let mut world = World::default();
        d.update(
            &mut world,
            DebugKeys {
                toggle_mouse: false,
                pin_wagon: false,
                pin_copter: false,
                line_up: true,
                low,
                right: false,
                left: false,
                down: false,
                up: false,
            },
        );
        let mut log = stuntcopter::EventLog::default();
        let press = stuntcopter::Intents {
            req: Vel::new(0, 0),
            drop: true,
        };
        world.tick(&press, &mut log);
        assert_eq!(log.events(), &[Event::Dropped]);
        let idle = stuntcopter::Intents::default();
        let limit = 248 - (if low { 210 } else { 40 } + 23);
        let mut ticks = 0;
        while !matches!(world.stuntman, stuntcopter::stuntman::Stuntman::Celebrating(_)) {
            assert!(ticks < limit, "the man lands within his fall distance");
            world.tick(&idle, &mut log);
            ticks += 1;
        }
        assert_eq!(
            log.events()[1],
            Event::Resolved {
                outcome: Outcome::Landed,
                points: Points(height),
                height: Height(height),
            }
        );
    }
}

#[test]
fn a_debug_update_is_refused_only_when_the_nudge_would_overflow() {
    let none = DebugKeys {
        toggle_mouse: false,
        pin_wagon: false,
        pin_copter: false,
        line_up: false,
        low: false,
        right: false,
        left: false,
        down: false,
        up: false,
    };
    let d = stuntcopter::debug::Debug::default();
    let mut world = World::default();
    assert!(d.can_update(&world, none));
    world.pin_copter(Some(Pos::new(i32::MAX - 2, 0)));
    assert!(d.can_update(&world, none));
    assert!(!d.can_update(&world, DebugKeys { right: true, ..none }));
    assert!(d.can_update(&world, DebugKeys { left: true, ..none }));
    // The line-up preset replaces the far pin before the nudge.
    assert!(d.can_update(&world, DebugKeys { line_up: true, right: true, ..none }));
    // Unpinning leaves nothing to nudge.
    assert!(d.can_update(&world, DebugKeys { pin_copter: true, right: true, ..none }));
}
