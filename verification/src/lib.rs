//! Small building blocks that keep policy apart from mechanism: a pipeline
//! of pluggable steps over a shared context, an order service behind ports,
//! reports behind formatters, documents and stores behind narrow capabilities.
pub mod text;
pub mod pipeline;
pub mod orders;
pub mod notification;
pub mod reports;
pub mod storage;
pub mod database;
pub mod documents;
