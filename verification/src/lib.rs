//! A Kubernetes operator that manages fleets of Minecraft game servers and
//! their front-end proxies. Two custom resources — a MinecraftSet of
//! identical game backends and a MinecraftProxy pool that routes players to
//! them — are reconciled into four child objects each: a stateful workload,
//! a headless service, a disruption budget, and a secret carrying the
//! derived per-namespace forwarding token. This crate holds the reconcile
//! planning, the token derivation, the label-selector join that tells a
//! proxy its backends, and the rules the children obey; the surrounding
//! process performs the API calls and serves the HTTP surface.

use vstd::prelude::*;

pub mod helpers;
pub mod objects;
pub mod runnable;
pub mod text;

verus! {

/// The failure taxonomy of the operator: Kubernetes API failures, JSON
/// serialization failures, upstream HTTP failures, missing configuration
/// variables at startup, structural faults of a custom resource (a missing
/// name, namespace or uid), and everything else.
#[derive(Debug, Clone, PartialEq, Eq)]
pub enum Error {
    KubeError(String),
    SerializationError(String),
    ReqwestError(String),
    VarError(String),
    MyceliumError(String),
    Other(String),
}

impl Error {
    /// The human-readable message carried by the error.
    pub fn message(&self) -> (r: &String)
        ensures
            r@ == self.message_view(),
    {
        match self {
            Error::KubeError(m) => m,
            Error::SerializationError(m) => m,
            Error::ReqwestError(m) => m,
            Error::VarError(m) => m,
            Error::MyceliumError(m) => m,
            Error::Other(m) => m,
        }
    }

    pub open spec fn message_view(&self) -> Seq<char> {
        match self {
            Error::KubeError(m) => m@,
            Error::SerializationError(m) => m@,
            Error::ReqwestError(m) => m@,
            Error::VarError(m) => m@,
            Error::MyceliumError(m) => m@,
            Error::Other(m) => m@,
        }
    }
}

} // verus!
