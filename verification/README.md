# town_roles

The rules of a social-deduction game, verified with Verus: the role
catalogue and role sets, role lists and how roles are drawn from them, and
the night and day decisions of each role.

A role's decision is a function from the state of the game (`game::Game`) to
the role's next state and the list of effects (`game::effect::Effect`) the
game should apply: attacks, messages, tags, conversions and so on. Applying
effects, running phases and talking to clients belong to the server around
this library.

Layout:

- `src/vec_set.rs`, `src/sort.rs`: an insertion-ordered set and a stable sort,
  with their laws.
- `src/random.rs`: the random choices, made by the `rand` crate.
- `src/game/role_list.rs`: role sets, outlines, simplifying and drawing.
- `src/game/role/`: one module per role.
- `src/game/spectator/`: spectators and the chat they are sent.
- `tests/`: tests on concrete values.
- `app/`: reading and writing role lists as JSON.
