//! Cloud API (DashScope): request values and response decoding.

pub mod dashscope;
pub mod sse;
