//! The shell commands: what each declares, decides and shows.

pub mod analytics;
pub mod buckets;
pub mod buckets_config;
pub mod clusters_rebalance;
pub mod shell;
pub mod users_roles;
pub mod whoami;

pub use analytics::Analytics;
pub use buckets::Buckets;
pub use buckets_config::BucketsConfig;
pub use clusters_rebalance::ClustersRebalance;
pub use users_roles::UsersRoles;
pub use whoami::Whoami;
