# libipt

A Rust interface to libipt, Intel's Processor Trace (Intel PT) decoder
library, whose logic is verified with Verus.

- `src/` is the verified library: libipt error codes and what return values mean
  from return values (`error`), decoder status flags (`flags`), address space
  identifiers (`asid`), the configuration of encoders and decoders
  (`config`, `enc_dec_builder`, with plain models of libipt's configuration
  structures in `raw_config`), address filters and their packing into the
  configuration word, trace events and their payloads (`event`), blocks and
  instructions (`block`, `insn`) and packet payloads (`packet`).
- `app/` holds the encoder, the decoders, images and section caches, which
  call libipt's C functions through `libipt-sys` and hand each return value to
  the library.
- `tests/` exercises the library on concrete values.
