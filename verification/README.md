# passive_mobs

The behaviour of passive mobs, as verified rules: how bees, cats, horses, pandas, golems and
their like change when they are fed, hurt, bred, saved or simply left alone for a tick.

A rule takes the state of a mob and plain facts about the world, changes the state, and appends
to a list what the host has to do: sounds, messages to clients, movements. Draws come from
`src/random.rs`; most rules that draw have a twin that takes the draws as arguments and is
specified exactly, and the others state what holds of every outcome. Floating-point numbers reach
the rules by their bits, which `src/double.rs` compares.

- `src/` the library, verified with Verus.
- `tests/` its tests.
- `app/` the host side: floating-point arithmetic and shared state.
