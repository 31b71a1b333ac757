# fungai

The rules of a fungal-network strategy game played on a hex grid, written
in Verus and verified.

`src/` is the library. Every function there carries a contract that Verus
proves: the hex metric and neighbourhoods, the map of tiles, the region
registry, where a founder may seed a network and what founding does, how
hives follow tile ownership, A* path finding over passable terrain (the
search itself is the `pathfinding` crate's), the simulation-speed dial and
its keys, the tap-or-stroke state machine of the paint button, the tile
popover text, and the integer side of drawing networks (junction tallies,
region outlines, deterministic hashes for strand wobble and ambient dust).
Laws that span several calls are stated as proof functions next to the code
they are about.

`app/` is the program around it: command-line parsing with clap's derive,
and everything that computes with floating point (layout geometry, splines,
colours, resource quantities, stroke steering and particle motion).

`tests/` exercises the library on concrete scenarios.
