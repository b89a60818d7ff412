# combat2d

The rules of a small 2D platform brawler, written in Verus and proved
against their contracts.

- `src/timer.rs` — one-shot countdown timers in nanoseconds; ticking goes
  through `bevy::time::Timer`.
- `src/health.rs` — hit points, kill count, best score, run summary, the
  lowest generated chunk and falling into the void.
- `src/enemy.rs` — the ground-enemy behaviour state machine (idle, patrol,
  chase, attack, dead), enemy movement choices and per-chunk spawn budgets.
- `src/combat.rs` — the player's sword swing (each enemy hit at most once
  per swing), enemy melee and flyer contact on the player, sprite tints.
- `src/player.rs` — facing, input lock, jumping and animation choice.
- `src/screens.rs` — screen transitions and the game-over summary.

Laws are stated as `law_*` proof functions next to the definitions they
speak of. `app/` holds the Bevy game that runs these rules: the ECS
systems, physics, input, rendering, random rolls and floating-point
geometry.
