//! Leader election and service discovery on top of a cloud object store.
//!
//! A single lockfile under `{prefix}/leader` is the source of truth; competing
//! nodes serialize through conditional writes (`If-None-Match: *` and
//! `If-Match: <etag>`). This crate holds the decisions: what a lease means, how a
//! participant moves between follower and leader, when a cached leader address
//! may be reused, which nodes count as alive. The object store, the timers and
//! the transport are driven from outside: each decision says what is to be done
//! next and takes the answer back as a plain value.
#![allow(unused_imports)]

pub mod client;
pub mod clock;
pub mod cluster;
pub mod config;
pub mod discovery;
pub mod duration;
pub mod election;
pub mod error;
pub mod lease;
pub mod node;
pub mod path;

pub use client::{
    Attempt, HttpFailure, LeaderClient, Lookup, Request, RequestEvent, RequestStep, ShouldInvalidate,
};
pub use config::{Config, DiscoveryConfig};
pub use discovery::{Beat, BeatEvent, DiscoveryService, ListEvent, WriteReply};
pub use duration::Duration;
pub use election::{
    Action, Event, LeaderElection, Pause, PutMode, PutReply, Role, State, Step,
};
pub use error::{Error, LeaderError, StoreError};
pub use lease::{LeaderInfo, Lease};
pub use node::NodeInfo;
