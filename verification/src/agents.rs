pub mod ai_agent;
pub mod chat_agent;
pub mod deduplication_agent;
pub mod fixing_agent;
pub mod multi_agent_system;
pub mod specialized_auditors;
