# StuntCopter

A helicopter stunt game: fly the copter, drop the stuntman, and land him in
the hay of a moving wagon. Five men per level; every landing scores
`level x drop height`, hitting the driver or the horse ends the game, and
clearing a level speeds up the wagon and then eases gravity.

## Layout

- `src/` — the game model as a verified library. Every rule of the game is
  stated as a contract over spec functions and proved: copter inertia and
  flight band, wagon and cloud motion, the seedable xorshift wind, the
  stuntman's state machine, landing classification, scoring, level
  progression, and `World::tick`, whose result and reported events are
  pinned to `World::after_tick` and `World::tick_events`. The presentation
  rules that are plain decisions live here too: scene flow, keyboard
  steering, sound cues, the score panel's numerals and fill patterns, the
  debug controls, and the WAV framing of generated sounds.
- `tests/` — scenario tests that run the compiled library.
- `app/` — the macroquad front end: window, input sampling, drawing, audio
  playback, and the floating-point sound synthesis. It calls the library
  for every decision.
