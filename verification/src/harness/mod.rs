//! Multi-agent harness logic: turn routing, wakes, prompts, agent sessions, logs, balance.

pub mod action_log;
pub mod agent_proxy;
pub mod agents;
pub mod balance;
pub mod balance_laws;
pub mod corpus;
pub mod debug_log;
pub mod feed_laws;
pub mod matching;
pub mod plan_laws;
pub mod prompts;
pub mod proxy_acl;
pub mod record_laws;
pub mod results_log;
pub mod scheduler;
pub mod selection;
pub mod session_laws;
pub mod socket;
pub mod stream;
pub mod summary;
pub mod told_laws;
pub mod tui;
pub mod turn_laws;
pub mod wake;
