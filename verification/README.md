# cen64_rs

The Rust front end of the cen64 Nintendo 64 emulator, whose hardware model is
a C core. The library under `src/` is verified with Verus:

- `rsp`, `vr4300`, `ai`, `pi`, `rdp`, `ri`, `si`, `vi`: register files,
  opcode identifiers and the fields of an RSP instruction word;
- `options`: the launch options and the command line they come from;
- `cart_db`: the save memory a cartridge uses and how a run opens it;
- `allocator`: the access rights of the device's memory;
- `startup`: a run, from the first checks to the exit, as a state machine whose
  laws say what every run releases and which status it ends with.

`app/` holds the program: it reads the command line with clap, talks to the C
core and performs the actions the state machine asks for.
