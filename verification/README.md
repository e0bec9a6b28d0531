# carbonium

Carbonium is an industrial planet (type A, five energy cells, rocket allowed)
for the `common_game` space simulation. It generates Carbon and combines
nothing; above all it keeps a rocket ready for the next asteroid. Sunrays
that find the rocket ready and every cell charged are kept as Carbon in a
storage, which serves Carbon requests first.

- `src/` is the verified library (Verus):
  - `model.rs`: the planet as a sequence of cell charges plus rocket flags,
    and the spec functions that say what each event does to it;
  - `outside.rs`: the `common_game` types and methods the handlers use, with
    their trusted contracts;
  - `planet.rs`: the handlers for sunrays, asteroids, state requests and
    explorer messages, each proved against the model;
  - `laws.rs`: properties across handlers (a sunray always readies a rocket,
    an asteroid is survived exactly when the planet is prepared, serving
    explorers never costs the emergency rocket, sunrays fill the planet, a
    surplus sunray serves the next Carbon request);
  - `types.rs`: the plain request, reply and summary types.
- `app/` implements `common_game`'s `PlanetAI` trait on top of the library,
  converts between the game's message types and the library's, logs, and
  provides `create_planet`.
- `tests/` drive a real `common_game` planet through its channels.
