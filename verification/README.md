# rg_audio

The audio layer of a small rltk roguelike: background music that keeps its
place when the output device changes.

- `src/` is the verified library (Verus):
  - `time_span.rs`: nanosecond-exact time spans with the range, carry and
    borrow of `std::time::Duration`, and checked sums and differences.
  - `clock.rs`: readings of the system clock as spans since the Unix epoch.
  - `track.rs`: the bookkeeping of a background track (sessions opened on a
    fresh source or continued after a pause, closed when the sink drains),
    the play time it has reached, and the laws that tie them together.
  - `output.rs`: whether the output device needs handling, and what becomes
    of a playing track when it does.
  - `tick.rs`: whether the current game state counts as initialised after a
    tick asked it.
- `app/` is the game itself: rltk states, rodio sinks and decoders, cpal
  devices and tokio tasks, driving the library.
- `tests/` runs the library on concrete values.
