//! The decision logic of the Terra editor.
//!
//! Everything here is plain data and total functions over it: logical frames,
//! ordered input, tracing, dirty-region bookkeeping, the evaluation and
//! refinement schedulers, export, actions, projects and start-up. The
//! executable around the library owns windows, files, threads and the GPU; it
//! hands observations in and performs the effects that come out.
#![allow(unused_imports)]

pub mod actions;
pub mod clock;
pub mod deadlines;
pub mod dirty;
pub mod document_reset;
pub mod editing;
pub mod editor_overlays;
pub mod eval;
pub mod eval_run;
pub mod eval_step;
pub mod export;
pub mod frame_trace;
pub mod input;
pub mod interaction;
pub mod lifecycle;
pub mod lighting;
pub mod logging;
pub mod logical_frame;
pub mod paint;
pub mod paths;
pub mod pipeline_cache;
pub mod pipeline_compile;
pub mod prefs;
pub mod presentation_pipelines;
pub mod preview2d;
pub mod project;
pub mod quality;
pub mod refinement;
pub mod refinement_job;
pub mod startup;
pub mod startup_benchmark;
pub mod text;
pub mod tile_stream;
pub mod turn;
pub mod worker_events;
pub mod world_features;
