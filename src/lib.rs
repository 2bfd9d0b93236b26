//! A per-user knowledge map: topics grouped under canvases, linked by
//! parent-to-child relationships, with verified traversal primitives and the
//! two orchestration pipelines built on them (keyword expansion and insight
//! enrichment).

pub mod canvas_service;
pub mod dto;
pub mod enrich;
pub mod errors;
pub mod expand;
pub mod graph;
pub mod graph_lemmas;
pub mod keywords;
pub mod knowledge;
pub mod model;
pub mod node_service;
pub mod prompt;
pub mod services;
pub mod text;
