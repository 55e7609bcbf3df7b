# pack_opening

The decision logic of a card-pack opening sequence, verified with Verus.

A pack flies in, waits for a swipe, opens, lets its first card rise, and then
reveals its cards one swipe at a time. Each animated step starts a batch of
tweens under a fresh batch id and advances when all of them have finished;
completions of older batches are stale and ignored, which is how a swipe can
interrupt any animation.

- `src/sequence.rs`: the steps, the pack's batch bookkeeping and the event
  handlers (`spawn_pack`, `on_tween_batch_done`, `on_player_swiped`,
  `dispatch_swipe`, and the setup operations).
- `src/model.rs`: the mathematical model each handler is proved to follow.
- `src/laws.rs`: what holds across events (stale completions are ignored,
  interrupted tweens are orphaned, waiting steps are passive, the session
  stays coherent, counters only grow).
- `src/tween.rs`, `src/cards.rs`: the tween orders the sequence issues and the
  cards it deals.
- `app/`: the Bevy game around the library: entities, meshes, the
  floating-point tween presets and their interpolation, UI and wiring.
