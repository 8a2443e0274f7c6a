mod clock;
pub mod common;
pub mod netcat;
pub mod queue;
pub mod roundtrip;
pub mod throughput;
pub mod ttcp;
pub mod wire;
