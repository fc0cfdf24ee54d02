//! Advisory read hints for open files.
//!
//! A caller tells the kernel that a byte range of a file is likely to be
//! read soon, so the kernel may prefetch it asynchronously. The hint is
//! best-effort: it is never retried, never guaranteed to be honored, and
//! has no effect on file content or position.
//!
//! The verified core is the dispatch layer in [`advise`]: it narrows the
//! caller's 64-bit range to the platform's native signed widths, decides
//! whether the native call is made at all, and classifies the native
//! call's return status. The raw system call itself stands outside this
//! crate, driven by the actions this crate hands out.

pub mod advise;
