# rift_game

Gameplay data and rules of an action-RPG dungeon crawler, written in Verus:
every function in `src/` carries a contract that Verus proves, with one
exception: `string_from_chars` (in `text`) builds a `String`
from its characters through std's `String::from_iter`, which vstd does not
specify, so its contract (the string's characters are the input's) is
trusted rather than proved.

## Layout

- `src/` — the verified library.
  - `loot/` — the loot system: the xorshift generator, affix pools and
    families, base items, rolling (`Item::roll` returns a plan with every
    draw it made), uniques, the enchanting anvil (reroll pools, gates and
    the weighted reroll), wire / persistence rows, drop tables, equipment
    and inventory (with item conservation), synergy footers, procedural
    names and the tooltip layout.
  - `abilities`, `loadout` — the ability registry, the action bar and its
    no-duplicates rule.
  - `experience`, `attributes`, `talents` — leveling (exact integer XP
    curve), attribute points, the Hunter talent tree.
  - `character`, `character_select` — profiles, the roster and the
    character-select screen's state machine.
  - `monsters`, `debuffs`, `classes`, `hero`, `props`, `decals`, … — role
    tables, wire bytes and small helpers.
- `tests/` — executable tests of the library.
- `app/` — host-side Rust around the library: everything measured in `f32`
  (roll magnitudes, stat sums, character sheets, ability modifiers,
  cooldown timers, tooltip text, status-effect and monster tuning tables),
  pointer hit-testing, and serde forms of the wire enums.

Magnitudes that are `f32` in the game travel through the library as their
IEEE-754 bit patterns, so saves and network rows round-trip bit for bit.
