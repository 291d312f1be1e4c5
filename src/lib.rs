//! Support library for integration tests of a package registry and app
//! deployment platform: mirroring package versions between registries, and
//! the names, addresses and checks that the tests share.
pub mod apps;
pub mod command;
pub mod endpoint;
pub mod mirror;
pub mod rollout;
pub mod text;
