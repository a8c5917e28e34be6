//! Workflow guidance, popup bookkeeping and daemon messaging for the
//! cunzhi assistant, with their behaviour stated and proved in Verus.

pub mod text;
pub mod workflow;
pub mod mcp;
pub mod app;
pub mod workflow_mcp;
