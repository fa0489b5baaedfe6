//! A small rendering-engine core: a verified frame-pipelining and
//! host/device synchronization protocol, together with the pure selection
//! and bookkeeping logic around it (surface configuration, queue-family
//! selection, shader layout arithmetic) and a few standalone utilities
//! (a free-slot container, a scene tree, vector types, a clock).

pub mod container;
pub mod math;
pub mod node;
pub mod renderer;
pub mod utility;
