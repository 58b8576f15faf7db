# pokered_core

The rules of a Pokémon Red style game, written in Verus and proved against
their contracts.

- `src/` — the verified library:
  - `link/` — the Cable Club trade: the wire-protocol state machine
    (`LinkTradeManager`), the trade driver that applies an exchange to the
    party (`LinkTradeDriver`), the message set and the battle-action bytes,
    and an in-memory transport pair over the engine's channel transport.
  - `naming_screen.rs` — the naming screen, with the pinyin input.
  - `oak_speech.rs` — Professor Oak's intro speech, frame by frame.
  - `overworld/` — field moves and their texts, the STRENGTH boulder push,
    event flags, hidden items and coins, fishing, the Cycling Road lock,
    poison ticks, NPC interaction, the script command dispatch, the
    Vermilion Gym trash-can puzzle, spinner tables and the presentation
    timers.
  - `pokemon.rs`, `species.rs`, `direction.rs`, `text.rs` — shared types.
- `tests/` — scenario tests of the library.
- `app/` — glue that Verus does not see: serde forms of the link messages,
  conversions to the engine's types, sound-cue names, random draws for
  fishing, and the scene-script host.
