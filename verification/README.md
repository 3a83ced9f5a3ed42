# wicked_waifus_handlers

Verified request handlers of a game server, written in Verus.

- `src/protocol.rs` – the protocol messages the handlers read and answer with.
- `src/player.rs`, `src/data.rs` – the player, its world and the game data tables.
- `src/combat.rs` – the combat pack: role switches, state machine conditions, damage.
- `src/inventory.rs` – item and weapon listings.
- `src/weapon.rs` – weapon skins and weapon equipment.
- `src/random.rs` – the random draws, made by the `rand` crate.
- `app/` – glue that draws damage rolls (the critical multiplier is floating
  point), logs, and checks the handlers' preconditions.
