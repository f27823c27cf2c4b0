//! How an embedding server gets the handler of a new graphics pipeline
//! channel.

use vstd::prelude::*;

use crate::server::GraphicsPipelineHandler;

verus! {

/// Makes the handlers of graphics pipeline channels.
///
/// `H` is what a server holds its handler in.  Implementors leave it at its
/// default and return a boxed handler.
pub trait GfxServerFactory<H = Box<dyn GraphicsPipelineHandler>>: Send {
    /// Makes the handler for a new channel.
    fn build_gfx_handler(&self) -> H;
}

} // verus!
