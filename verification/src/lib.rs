//! Topology bookkeeping for a BRep modelling kernel: shape, curve and
//! surface kinds, the codes of the kernel's C interface, flat topology
//! tables, wire ordering, face loops and adjacency, shape classification,
//! named documents, and the queries that ask the kernel for sub-shapes.

pub mod abi;
pub mod brep;
pub mod decode;
pub mod document;
pub mod error;
pub mod face_wires;
pub mod kinds;
pub mod ported_kinds;
pub mod probe_layout;
pub mod session;
pub mod summary;
pub mod topology;
pub mod wire;
