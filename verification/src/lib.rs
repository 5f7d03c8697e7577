//! A small server toolkit: a bounded worker-pool dispatcher with a verified
//! lifecycle protocol, plus the pure decision logic of the surrounding
//! programs (request routing, guess judging, log-request signing).

pub mod guessing;
pub mod pool;
pub mod queue;
pub mod rectangles;
pub mod routing;
pub mod signing;
