//! A webhook ingestion relay, verified: it authenticates signed event
//! notifications, validates and decodes their JSON bodies, projects each
//! event into a fixed six-column warehouse row, and plans one deduplicated
//! insert per request. The HTTP server, the warehouse call and the process
//! signals live outside this crate; everything that decides or computes is
//! specified and proved here.

pub mod decode;
pub mod json;
pub mod lifecycle;
pub mod outside;
pub mod pipeline;
pub mod row;
