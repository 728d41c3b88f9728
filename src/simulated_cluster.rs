//! A smaller client capability, with status and pods only, and its
//! simulated backend.

use vstd::prelude::*;
use crate::client::texts;

verus! {

/// What a dashboard needs from a backend that reports status and pods.
pub trait ClusterClient {
    /// The status line that the client reports.
    spec fn status_text(&self) -> Seq<char>;

    /// The workloads that the client reports, in order.
    spec fn pod_names(&self) -> Seq<Seq<char>>;

    /// A short description of the backend's state.
    fn status(&self) -> (r: String)
        ensures
            r@ == self.status_text(),
    ;

    /// The workloads currently known.
    fn get_pods(&self) -> (r: Vec<String>)
        ensures
            texts(r@) == self.pod_names(),
    ;
}

/// A backend with canned data, always connected.
pub struct SimulatedClient;

impl ClusterClient for SimulatedClient {
    open spec fn status_text(&self) -> Seq<char> {
        "Connected to simulated cluster"@
    }

    open spec fn pod_names(&self) -> Seq<Seq<char>> {
        seq!["pod-1"@, "pod-2"@, "pod-3"@]
    }

    fn status(&self) -> (r: String) {
        "Connected to simulated cluster".to_string()
    }

    fn get_pods(&self) -> (r: Vec<String>) {
        let r = vec!["pod-1".to_string(), "pod-2".to_string(), "pod-3".to_string()];
        assert(texts(r@) =~= self.pod_names());
        r
    }
}

} // verus!
