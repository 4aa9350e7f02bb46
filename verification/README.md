# minrx

A binding to MinRX, a matcher for POSIX extended regular expressions, whose
logic is verified with Verus.

- `src/` is the verified library: compile options (`RegexBuilder`), search
  options (`MatchOptions`), the meaning of MinRX's result codes
  (`BuildError`, `MatchError`), the captures of a filled match buffer
  (`Match`, `collect_captures`) and the step-by-step decisions of an
  iteration over all matches (`MatchCursor`).
- `app/` is the thin layer that calls the C library through `minrx-sys`
  (compiling, searching, freeing, reading error descriptions), offers the
  `Regex` type and the `MatchIter` iterator, and gives the error types
  `Display` and `Error`.
- `tests/` exercises the library on concrete values.
