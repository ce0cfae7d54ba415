# asteroids

A small Asteroids game.  The library under `src/` holds the game's discrete
logic, verified with Verus:

- `transition`, `screen`: what each screen asks for and which screen follows;
- `input`: swallowing held input across screen changes;
- `start_screen`: the start menu (cursor, selection, touch buttons);
- `game`: levels and their timed events, pause, clearing a level, controls;
- `game::hits`: which asteroid each bullet destroys;
- `game::asteroid`: the size ladder, splitting hit asteroids, listing colliding pairs;
- `game::ship`: which way the ship turns.

`app/` is the program around it (macroquad): window, drawing, reading keys and
touches, and the floating-point geometry and physics (motion, outlines,
bounces, hit tests), which hand their results to the library.
