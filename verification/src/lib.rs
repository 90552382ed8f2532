//! Build-record subsystem of a container-image build tool: a durable log of
//! produced image identifiers, extraction of an identifier from the builder's
//! streamed output, an ownership filter over inspection metadata, and the
//! crash-safe update protocol shared by recording and pruning.

pub mod args;
pub mod errors;
pub mod extract;
pub mod meta;
pub mod prune;
pub mod record;
pub mod recorder;
pub mod textops;
