//! The bridge between concurrent RPC handlers and a single-threaded render
//! loop: a bounded hand-off channel of UI events, a coalescing repaint
//! signal, the render loop's drain-and-apply step, and the handlers'
//! decisions on a full or closed channel.

pub mod channel;
pub mod gui;
pub mod repaint;
pub mod rpc;
