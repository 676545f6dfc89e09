//! Reference adapters satisfying the collaborator contracts.

pub mod memory;
