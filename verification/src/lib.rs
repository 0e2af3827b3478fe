//! Core of an asynchronous job-submission service: request validation,
//! category classification, job-identifier generation, and construction of
//! the worker-process invocation that a thin HTTP layer dispatches.

pub mod category;
pub mod dispatch;
pub mod request;
pub mod text;
