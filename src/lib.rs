//! Decision logic of a shim that sits between a host program and its embedded
//! Lua runtime: installing rewritten modules into `package.loaded`, the
//! replacement `print` sink, and the routing of intercepted chunk loads.
//!
//! The Lua C API itself is driven by the host side. Each component here is a
//! state machine that is handed the VM's reply to its previous call and answers
//! with the next call to make; `vm` models what each call does to the VM so that
//! the machines' effect on the stack and on the registry can be proved.
pub mod vm;
pub mod loader;
pub mod sink;
pub mod intercept;
