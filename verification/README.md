# mujs

Rust embedding interface for [MuJS](http://mujs.com), a small ECMAScript
interpreter written in C.

- `src/` is the verified part: the property and state flags, the conversion
  of Rust strings and booleans to what the C library receives, the typed
  description of each call into the interpreter (`Command`), and the
  interpretation of the interpreter's answers (protected-call status, C
  booleans, returned strings).
- `app/` holds the `State` type that owns the interpreter and performs the
  calls through the C ABI; each method asks the verified crate what to send
  and what its answer means.
