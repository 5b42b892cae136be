//! Batch image-pipeline library: tasks, a task queue, output-path
//! resolution, an overwrite guard and a batch runner, with verified
//! contracts over their state transitions.

pub mod batch;
pub mod color;
pub mod command;
pub mod error;
pub mod image_data;
pub mod manipulator;
pub mod paths;
pub mod queue;
pub mod randomize;
pub mod runner;
pub mod seqtools;
pub mod transparency;
