# ppv_lite86 (SSE2 vector types, verified)

128-bit vector types for x86 in the style of SSE2: four 32-bit lanes
(`u32x4_sse2`), two 64-bit lanes (`u64x2_sse2`), one 128-bit lane
(`u128x1_sse2`), and wider types built from pairs and quadruples of them
(`x2`, `x4`, `u64x4_sse2`). Type-level markers say whether SSSE3 and SSE4.1
may be used. Where an operation has one algorithm with SSSE3 (byte shuffles,
byte alignment)
and another without (shifts, 16-bit lane shuffles, packing), or one with
SSE4.1 (direct lane access) and another without (32-bit lane shuffles), both
are written out and verified; they meet the same contract except for
`u64x2_sse2::rotate_each_word_right16`, whose contract states what each path
gives. The register operations the algorithms are built from (byte and lane
shuffles, lane-wise shifts, byte interleaving and saturating packing) are
modelled in safe Rust and verified against lane-level specifications.

Every register is modelled as a `u128` with lane 0 in the low bits; all
operations are written in safe Rust and verified with Verus.

Layout of `src/`:

- `reg.rs`: lane, byte and memory views of a register, splitting and joining.
- `word.rs`: rotation and byte reversal of single 32- and 64-bit words.
- `swar.rs`: register-wide operations (byte and 32-bit lane shuffles,
  lane-wise shifts, bit-group exchanges, lane-wise byte reversal) with their
  proofs.
- `lane16.rs`: operations on the eight 16-bit lanes (byte interleaving,
  16-bit lane shuffles, saturating packing, shifts).
- `text.rs`: lanes written out as hexadecimal text.
- `markers.rs`: the instruction-set markers.
- `u32x4.rs`, `u64x2.rs`, `u128x1.rs`: the 128-bit vector types.
- `soft.rs`, `wide.rs`: pairs and quadruples of vectors.
- `storage.rs`: type-free 128-bit storage.
- `laws.rs`: properties that relate the operations to each other.
