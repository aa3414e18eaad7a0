//! Packs the image files of each subfolder of a directory into a `.cbz`
//! comic archive named after the folder.
//!
//! The verified library holds the decisions: which directory entries are
//! comic folders and which are pages, how the command line is read, what goes
//! into an archive, and what happens to each folder in a run. Reading and
//! writing files is left to the caller.
pub mod listing;
pub mod options;
pub mod archive;
pub mod run;
