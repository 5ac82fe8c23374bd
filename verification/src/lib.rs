//! Derivation of the public parameters of a layered proof-of-replication
//! scheme and of an election proof-of-spacetime scheme, together with the
//! hashing capabilities those schemes are generic over.

use vstd::prelude::*;

pub mod error;
pub mod types;
pub mod registry;
pub mod parameters;
pub mod hasher;

