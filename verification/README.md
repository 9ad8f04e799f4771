# rs_board

A board for notes on screen captures: a capture is frozen, drawn on, saved to a library or
kept as the latest draft, and exported as a picture.

- `src/` is the library. Every function states what it does in `requires` and `ensures`,
  and Verus proves it. The decisions of the program are state machines: a function takes an
  event and returns the effects that are to be carried out.
- `app/` is the program around it: windows, files, threads, the clipboard and the geometry
  that is computed with floating point numbers.
- `tests/` runs the library on concrete values.

Proof functions whose names begin with `law_` state what holds of several functions
together. `src/guarantees.rs` holds those of the program as a whole, such as that work
which was not written is never lost by closing a window.

Times are in nanoseconds, identifiers are the 128 bits of a UUID, and a value of type `f32`
that is only carried along is held as its 32 bits.
