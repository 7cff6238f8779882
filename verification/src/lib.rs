//! Test orchestration for a hardware-facing network driver: the rules by which
//! a captured packet stream is judged, by which remote sessions keep their
//! transcripts, by which cloud machines are provisioned and torn down, and by
//! which one job is driven from admission to its report.

pub mod config;
pub mod github;
pub mod openstack;
pub mod pcap_tester;
pub mod publisher;
pub mod remote;
pub mod runner;
pub mod text;
pub mod utility;
pub mod worker;
