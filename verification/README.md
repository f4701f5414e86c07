# Penguin Cannon

An endless three-lane runner: a penguin flees an orca across ice, water and
(after a cannon launch) the sky. This crate holds the game's rules as a
library proved with Verus; `app/` is the Bevy shell that renders, reads
input, plays sound and hands the rules plain values each frame.

## Layout

- `src/` — the verified rules, all on fixed-point integers (micrometres,
  microseconds, per-mille factors, 24-bit random rolls, milli-pixels):
  - `tuning` — every gameplay constant;
  - `timer` — one-shot and repeating timers on microseconds;
  - `states` — biomes, the ice/water cycle, the sky altitude drain;
  - `chase` — the orca gap, hits, regeneration, the catch;
  - `game` — one whole frame of the run's rules (pending transitions with
    their hooks, then the systems under their run conditions), with the
    laws that span frames;
  - `rng` — the xorshift generator behind every spawn roll;
  - `spawn` — run speed, score, spawn tables and timers, collisions;
  - `player` — lane steering and the vertical feel of each biome;
  - `touch` — swipe/tap classification and the held-key emulation;
  - `transitions` — which layer-crossing moment a biome change plays;
  - `audio` — which sound a gameplay cue plays, and the mute toggle;
  - `hud` — HUD wording and the restart.
- `tests/` — scenario tests of the rules on concrete values.
- `app/` — the Bevy plugins: meshes, materials, cameras, UI layout, audio
  playback, float animation, and the conversion between Bevy's floats and
  the library's integer units.
