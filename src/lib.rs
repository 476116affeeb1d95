//! The program / attachment / test-run core of a BPF loader.
//!
//! A loaded program is attached to kernel hooks and test-run by kernel
//! calls, which the caller makes. This crate decides what is handed to each
//! call and what its outcome means:
//!
//! - `kind`: program kinds and hook kinds, with `Unknown` for codes that a
//!   newer kernel may report, and the meaning of feature probes;
//! - `opts`: the option records of the attach variants;
//! - `attach`: one request per hook family, marshaled for the kernel, and
//!   the attachment that a successful call yields;
//! - `link`: the attachment handle, released exactly once;
//! - `test_run`: the sizes of a test run, derived from its buffers, and its
//!   output, cut to what the kernel reported;
//! - `program`: a program's name and section, decoded once;
//! - `cstring`, `error`: text for the kernel interface, and the errors.

pub mod attach;
pub mod cstring;
pub mod error;
pub mod kind;
pub mod link;
pub mod opts;
pub mod program;
pub mod test_run;
