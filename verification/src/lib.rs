//! The decisions of two small command-line tools, apart from their input and
//! output: one copies a file, the other lists the current directory.
//!
//! Each tool validates, acts and reports. The acting (copying bytes, reading a
//! directory, printing) belongs to the program around this library; what the
//! library holds is what is decided before and after it: whether the arguments
//! are usable, which line goes to which stream, and the status the process
//! ends with.

pub mod copy_file;
pub mod list_dir;
pub mod status;
