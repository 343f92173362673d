# fafa

A developer toolbox: number bases, colours, Base64, URL encoding, message
digests, Unix timestamps, QR codes, UUIDs, password hashes and text cases,
for the command line and for a desktop application.

- `src/` is the verified library. `cmd/` holds what each command computes
  (its report, or its error); `ui/` holds the desktop application's logic:
  navigation, built-in assets, the short-lived message, and the state of each
  tool's panel with the events that change it; `locale.rs` the texts and the
  choice of language; `radix.rs`, `hexfmt.rs`, `text.rs` and `pretty.rs` the
  shared pieces (integer parsing and printing, hexadecimal, character
  sequences, report lines).
- `app/` is the command-line program: argument parsing, coloured printing,
  and the colour command's floating-point conversions.
- `tests/` runs the library on concrete values.
