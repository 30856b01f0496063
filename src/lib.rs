//! Range attestation bound to a Poseidon commitment: the relation, the public
//! instance layout, the column layout and the witness assignment of the
//! composed circuit, and the order of the proof pipeline.
pub mod circuit;
pub mod commitment;
pub mod layout;
pub mod pipeline;
pub mod statement;
