//! A verified decoder for the ELF binary file header and program header
//! table. Callers hand in raw byte buffers; the library decodes them into
//! typed header structures, with every decoding step specified against the
//! fixed on-disk layout.

pub mod laws;
pub mod parser;
pub mod utils;
