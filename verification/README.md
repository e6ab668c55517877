# inter_module

The decisions that the BitCraft game and global modules make when they
receive inter-module messages, written in Verus and proved against their
contracts.

- `src/game`: restoring a player's skills and granting hub items.
- `src/global`: renaming claims, adding and donating empire currency,
  placing NPC watchtowers, and the global module's reducers (which
  deliveries are admitted, how duplicates are answered, where each message
  kind is routed, which errors are recorded).
- `src/text`: decimal formatting of counts.
- `app/`: the SpacetimeDB glue for the module crates; it reads the rows a
  handler needs, calls the library, and writes the rows the library returns.
- `tests/`: tests of the library on concrete values.
