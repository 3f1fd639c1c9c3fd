# leodos_protocols

CCSDS space communication protocols for a LEO constellation, written in
Verus: the functions of the library state their behaviour in
`requires`/`ensures` and are proved against it.

What is not proved is trusted: the calls into the `heapless` and
`aes-gcm` crates and `core::str::from_utf8` sit behind small wrappers
(and a declared type and a `Clone` specification for `heapless::Vec`)
whose contracts restate what those sources and docs show. The results of
AES-GCM sealing and opening are named rather than defined, and the one
fact about them that the proofs use is that opening what sealing produced
gives back the plaintext, as the `aes-gcm` source shows; every SDLS law
with AES-GCM rests on it.

## Layout

- `src/utils.rs` — big-endian fields in byte buffers (`be_bytes`,
  `be_value`) and the copy helpers every wire format uses.
- `src/text.rs` — decimal numbers appended to display text.
- `src/ids.rs` — spacecraft and virtual channel identifiers.
- `src/containers.rs` — the `heapless::Vec` collections that the COP-1
  and SDLS state is kept in, with their contents named as sequences.
- `src/datalink/framing` — transfer frames: USLP, TC, TM, AOS and
  Proximity-1 (with PLCW and segment headers), and the frame writers and
  readers behind the `FrameWriter`/`FrameReader` traits.
- `src/datalink/spp` and `src/network/spp.rs` — segmentation of user
  data into a sequence of space packets, with the 14-bit packet sequence
  count and the sequence flags.
- `src/datalink/link` — link channels that put a frame format, link
  security and a coding pipeline together, for sending and for receiving; the asynchronous coding
  pipeline itself is driven from `app/`.
- `src/datalink/reliability` — COP-1: the FARM-1 receiver and FOP-1
  sender state machines, the CLCW, and the reliability wrappers.
- `src/datalink/security` — SDLS: security associations, header and
  trailer layout, apply/process of frame security, AES-GCM through the
  `aes-gcm` crate, the extended procedures PDUs, key and SA management.
- `src/misc/time` — CCSDS CDS and CUC time codes.
- `src/misc/sle` — the Forward CLTU service PDUs of SLE and the BER subset
  that encodes them.
- `src/mission` — SpaceCoMP command packets and messages, the
  length-value argument encoding of ColonyOS messages, and what a ColonyOS
  executor decides on an assignment reply.
- `app/` — floating-point time conversions and the `async` link plumbing.
- `tests/` — unit and scenario tests.

## Laws

Beside the contracts of the functions, the library proves laws that span
functions, among them: frames built by the frame constructors parse back
to the fields they were built from (USLP, TC, TM, AOS, Proximity-1);
time codes decode to what was encoded (CDS, CUC); SLE CLTU PDUs decode to
what was encoded; SDLS protection is undone by processing at a receiver holding the same
security association, with any crypto backend whose decryption undoes its
encryption (clear mode and AES-GCM);
FARM-1 and FOP-1 keep their invariants, accept in-sequence frames, stay
in lockout until unlocked, and acknowledge what a CLCW reports; the
payloads a segmenter yields put back together give the data it was given;
frame counts advance by one per finished frame; a Security Header reads
back the fields it was written with; an accepted AD FDU is what FOP-1
hands back for its sequence number for as long as it stays queued.
