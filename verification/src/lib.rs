//! Conversion of chess games in PGN to "T-notation": a compact move notation
//! that names the moving piece, an optional promotion and the origin and
//! target squares, either as text or packed into one `u16` per move.

pub mod role;
pub mod text;
pub mod encoding;
pub mod chess;
pub mod disambiguation;
pub mod capture_tnotation;
pub mod reading;
pub mod pgniterator;
pub mod filenamechunker;
pub mod filenameiterator;
pub mod unzip;
