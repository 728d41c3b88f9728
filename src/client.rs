//! Cluster clients: the capability that the dashboard queries, a simulated
//! backend with canned data, and a placeholder for a real backend.

use vstd::prelude::*;
use crate::config::Config;

verus! {

/// The texts of a list of strings.
pub open spec fn texts(v: Seq<String>) -> Seq<Seq<char>> {
    v.map_values(|s: String| s@)
}

/// The contexts that a client reports unless it knows better.
pub open spec fn default_context_names() -> Seq<Seq<char>> {
    seq!["default"@, "dev"@, "prod"@]
}

/// The contexts that a client reports unless it knows better, in order.
pub fn default_contexts() -> (r: Vec<String>)
    ensures
        texts(r@) == default_context_names(),
{
    let r = vec!["default".to_string(), "dev".to_string(), "prod".to_string()];
    assert(texts(r@) =~= default_context_names());
    r
}

/// What a dashboard needs from a cluster backend. None of the queries fails:
/// a backend that cannot answer says so in the text it returns.
pub trait ClusterClient {
    /// The status line that the client reports.
    spec fn status_text(&self) -> Seq<char>;

    /// The workloads that the client reports, in order.
    spec fn pod_names(&self) -> Seq<Seq<char>>;

    /// The contexts that the client reports, in order.
    open spec fn context_names(&self) -> Seq<Seq<char>> {
        default_context_names()
    }

    /// A short description of the backend's state.
    fn status(&self) -> (r: String)
        ensures
            r@ == self.status_text(),
    ;

    /// The workloads currently known.
    fn get_pods(&self) -> (r: Vec<String>)
        ensures
            texts(r@) == self.pod_names(),
    ;

    /// The cluster contexts available.
    fn get_contexts(&self) -> (r: Vec<String>)
        ensures
            texts(r@) == self.context_names(),
    ;
}

pub struct SimulatedClient;

impl ClusterClient for SimulatedClient {
    open spec fn status_text(&self) -> Seq<char> {
        "Simulating cluster"@
    }

    open spec fn pod_names(&self) -> Seq<Seq<char>> {
        seq!["pod-1"@, "pod-2"@, "pod-3"@]
    }

    fn status(&self) -> (r: String) {
        "Simulating cluster".to_string()
    }

    fn get_pods(&self) -> (r: Vec<String>) {
        let r = vec!["pod-1".to_string(), "pod-2".to_string(), "pod-3".to_string()];
        assert(texts(r@) =~= self.pod_names());
        r
    }

    fn get_contexts(&self) -> (r: Vec<String>) {
        default_contexts()
    }
}

/// The prefix of a real client's status line; the context's name and a
/// closing quote follow it.
pub open spec fn real_status_prefix() -> Seq<char> {
    "Real cluster client (stub) with context '"@
}

/// The marker that stands for a pod listing that a real client cannot give yet.
pub open spec fn pods_not_implemented() -> Seq<char> {
    "POD LISTING NOT IMPLEMENTED"@
}

/// A client for a real cluster, reached through the named context. It makes
/// no call to a backend: it reports itself as a stub and its pod listing as
/// not implemented.
pub struct RealClient {
    ctx: String,
}

impl RealClient {
    /// The name of the context that the client was made for.
    pub closed spec fn context(&self) -> Seq<char> {
        self.ctx@
    }

    /// A client for the context named `ctx`.
    pub fn new(ctx: String) -> (r: Self)
        ensures
            r.context() == ctx@,
    {
        Self { ctx }
    }
}

impl ClusterClient for RealClient {
    open spec fn status_text(&self) -> Seq<char> {
        real_status_prefix() + self.context() + "'"@
    }

    open spec fn pod_names(&self) -> Seq<Seq<char>> {
        seq![pods_not_implemented()]
    }

    fn status(&self) -> (r: String) {
        let mut r = String::from_str("Real cluster client (stub) with context '");
        r.append(self.ctx.as_str());
        r.append("'");
        r
    }

    fn get_pods(&self) -> (r: Vec<String>) {
        let r = vec!["POD LISTING NOT IMPLEMENTED".to_string()];
        assert(texts(r@) =~= self.pod_names());
        r
    }

    fn get_contexts(&self) -> (r: Vec<String>) {
        default_contexts()
    }
}

/// The client that the configuration asks for.
pub enum SelectedClient {
    Simulated(SimulatedClient),
    Real(RealClient),
}

impl ClusterClient for SelectedClient {
    open spec fn status_text(&self) -> Seq<char> {
        match self {
            SelectedClient::Simulated(c) => c.status_text(),
            SelectedClient::Real(c) => c.status_text(),
        }
    }

    open spec fn pod_names(&self) -> Seq<Seq<char>> {
        match self {
            SelectedClient::Simulated(c) => c.pod_names(),
            SelectedClient::Real(c) => c.pod_names(),
        }
    }

    open spec fn context_names(&self) -> Seq<Seq<char>> {
        match self {
            SelectedClient::Simulated(c) => c.context_names(),
            SelectedClient::Real(c) => c.context_names(),
        }
    }

    fn status(&self) -> (r: String) {
        match self {
            SelectedClient::Simulated(c) => c.status(),
            SelectedClient::Real(c) => c.status(),
        }
    }

    fn get_pods(&self) -> (r: Vec<String>) {
        match self {
            SelectedClient::Simulated(c) => c.get_pods(),
            SelectedClient::Real(c) => c.get_pods(),
        }
    }

    fn get_contexts(&self) -> (r: Vec<String>) {
        match self {
            SelectedClient::Simulated(c) => c.get_contexts(),
            SelectedClient::Real(c) => c.get_contexts(),
        }
    }
}

/// Picks the client that `config` asks for: the simulated one when it says
/// so, else a real one for its default context.
pub fn select_client(config: &Config) -> (r: SelectedClient)
    ensures
        config.simulated <==> r is Simulated,
        !config.simulated ==> r->Real_0.context() == config.kube.default_ctx@,
{
    if config.simulated {
        SelectedClient::Simulated(SimulatedClient)
    } else {
        SelectedClient::Real(RealClient::new(config.kube.default_ctx.clone()))
    }
}

/// Every simulated client reports the same three pods, in the same order, so
/// repeated queries agree.
pub proof fn lemma_simulated_pods_stable(a: SimulatedClient, b: SimulatedClient)
    ensures
        a.pod_names() == b.pod_names(),
        a.pod_names() == seq!["pod-1"@, "pod-2"@, "pod-3"@],
{
}

/// A client that does not state its own contexts reports the default ones:
/// the simulated and the real client both do.
pub proof fn lemma_stock_clients_default_contexts(s: SimulatedClient, r: RealClient)
    ensures
        s.context_names() == seq!["default"@, "dev"@, "prod"@],
        r.context_names() == seq!["default"@, "dev"@, "prod"@],
{
}

} // verus!
