//! Derives new file names for EPUB and PDF documents from their embedded
//! author/title metadata: extension dispatch, metadata normalization, stem and
//! candidate-name derivation (optionally slugified), and the rename/no-op/dry-run
//! decision. All path and name manipulation is verified; opening the documents
//! and touching the filesystem is left to the calling program.

pub mod metadata;
pub mod paths;
pub mod planner;
pub mod slug_text;
pub mod text;
