//! Verified core of the Wish workspace: repository code graphs and
//! their canvases, the semantic canvas and its patches, agent plan
//! DAGs, the provenance ledger, tensors, perspectives, language-server
//! catalogues, the Hermon client's protocol decisions, trust cells and
//! the `wish-world` command line.
pub mod text;
pub mod tensor;
pub mod languages;
pub mod codegraph;
pub mod architecture;
pub mod canvas;
pub mod perspective;
pub mod lsp;
pub mod hermon;
pub mod hermon_types;
pub mod hermon_requests;
pub mod hermon_models;
pub mod hermon_calls;
pub mod cells;
pub mod repo_extract;
pub mod cli;
pub mod sse;
pub mod patch;
pub mod canvas_pane;
pub mod repo_canvas;
pub mod agent_dag;
pub mod ledger;
pub mod export;
pub mod layout;
pub mod glyphs;

pub use text::chars_of;
