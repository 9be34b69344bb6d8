//! SQL from people and agents: planning, exact execution, and what is recorded of it.
pub mod agent;
pub mod agent_execute;
pub mod agent_plan;
pub mod agent_plan_laws;
pub mod agent_prepare;
pub mod desktop_classify;
pub mod desktop_preview;
pub mod desktop_propose;
pub mod desktop_run;
pub mod desktop_run_laws;
pub mod guidance;
pub mod pool;
pub mod shared;
