//! The startup configuration: which kind of client to use, and what is known
//! of a real backend.

use vstd::prelude::*;
use crate::client::texts;

verus! {

/// What is known of a real backend: the default context, the clusters and the
/// users.
pub struct KubeConfig {
    pub default_ctx: String,
    pub clusters: Vec<String>,
    pub users: Vec<String>,
}

/// The startup configuration.
pub struct Config {
    pub simulated: bool,
    pub kube: KubeConfig,
}

/// The name of the context, and of the cluster, that a fresh configuration
/// knows.
pub open spec fn simulated_name() -> Seq<char> {
    "simulated"@
}

impl Config {
    /// The configuration written when none exists yet: simulated, with the
    /// simulated cluster as its only cluster and default context, and `user`
    /// as its only user.
    pub fn default_for_user(user: String) -> (r: Config)
        ensures
            r.simulated,
            r.kube.default_ctx@ == simulated_name(),
            texts(r.kube.clusters@) == seq![simulated_name()],
            texts(r.kube.users@) == seq![user@],
    {
        let clusters = vec!["simulated".to_string()];
        let users = vec![user];
        assert(texts(clusters@) =~= seq![simulated_name()]);
        assert(texts(users@) =~= seq![users@[0]@]);
        let kube = KubeConfig { default_ctx: "simulated".to_string(), clusters, users };
        Config { simulated: true, kube }
    }
}

} // verus!
