//! A host adapter that embeds a scripting virtual machine inside a real-time,
//! callback-driven application loop.
//!
//! The library holds the verified core of the adapter: the symbol cache that
//! memoizes key-code translation, the resolver that binds optional script
//! entry points by naming convention, the diagnostic formatter that turns
//! script failures into error reports, and the event dispatcher that decides,
//! for each host event, which script callback to invoke with which arguments.
//! The host event loop, the rendering backend and the virtual machine itself
//! are external collaborators: the surrounding (unverified) shell performs
//! their calls and hands the results back to the dispatcher as plain values.

pub mod cache;
pub mod diag;
pub mod dispatch;
pub mod scope;
pub mod text;
pub mod value;
