# akv

Safe bindings for [libarchive](https://www.libarchive.org/), with the
decisions around each call into the C library verified by Verus.

- `src/` — the verified library:
  - `error.rs`: the binding's errors, libarchive's status codes, how an
    error state becomes an error and how a callback's error is recorded;
  - `archive.rs`: the lifecycle of a libarchive handle (freed at most once)
    and the reading of status codes;
  - `reader/support.rs`: the formats and filters a reader enables, in order,
    each of which must be enabled without a warning;
  - `reader/seek_conv.rs`: seek requests between Rust and libarchive's
    `whence` form, with their round-trip laws;
  - `reader/callback.rs`: the `Callback` trait, `IoCallback` over a
    stream, and what each C callback answers libarchive;
  - `reader/entry.rs`, `reader/mod.rs`: entry path names, headers and data.
- `app/` — the calls into libarchive itself (`ArchiveReader`, `Entry`,
  `EntryReader`, the C callbacks), and the conversions to and from
  `std::io`.
- `tests/` — tests of the library on concrete values.

Example (through `app/`):

```rust
let io_reader = std::fs::File::open("tests/simple.zip")?;
let mut archive_reader = ArchiveReader::open_io(io_reader)?;
while let Some(entry) = archive_reader.next_entry()? {
    println!("Entry name: {}", entry.pathname_utf8()?);
    let entry_reader = entry.into_reader();
    println!("Entry content: {}", std::io::read_to_string(entry_reader)?);
}
```
