//! A verified model of a fixed multi-stage asset-conversion pipeline.
//!
//! The pipeline takes one input audio asset discovered in a working
//! directory, drives two external operator-facing tools (an interactive
//! sound-bank editor and a batch archive compressor) in sequence, and
//! produces a single renamed output archive, cleaning up intermediate
//! artifacts afterward.
//!
//! The library holds the decision logic: which stage follows which, what
//! each stage requires of the filesystem, and how each failure is
//! classified (fatal abort versus warn-and-continue). A thin unverified
//! driver performs the filesystem operations and child-process launches
//! that the stages call for, and feeds the observed results back in as
//! events.

pub mod paths;
pub mod pipeline;
pub mod probe;
pub mod report;
pub mod transfer;
