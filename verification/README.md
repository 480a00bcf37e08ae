# pgn2tnot

Converts chess games in PGN to T-notation, a compact move notation: for every move
of the main line, the moving piece, an optional promotion piece, the origin and the
target square — as text (`p-e2e4`, `pqe7e8`, `k-e1g1`) or packed into one `u16`
(promotion flag in bit 0, piece in bits 1–3, origin in bits 4–9, target in bits 10–15).
Games are written as binary records: result, white elo, black elo, number of moves and
the packed moves, each as two little-endian bytes.

- `src/` is the verified library (Verus): the notation and its packing (`encoding`,
  `role`), the per-move conversion state (`disambiguation`, `capture_tnotation`) over
  the shakmaty chess library (`chess`), game records and the PGN header scanner
  (`pgniterator`), chunk file naming (`filenamechunker`) and the extension filter
  (`filenameiterator`).
- `app/` is the command-line program: argument parsing, file and directory access,
  unzipping with `pzstd`, the PGN reader callbacks and progress bars.
