//! Data carriers for the widget glue that adapts a render call into the
//! host UI framework's "draw yourself into this region" contract. The glue
//! itself — running a draw callback against a drawing area and reporting
//! its error — owns no logic beyond forwarding and lives outside the
//! verified core; these types only pair the caller's callbacks.

use vstd::prelude::*;

verus! {

/// A widget that draws a chart: a draw callback plus the handler invoked
/// with any error the callback reports. The host framework's render pass
/// consumes both.
pub struct PlottersWidget<D, E> {
    pub draw: D,
    pub error_handler: E,
}

/// Wraps a plain function or closure as a draw callback.
pub struct DrawFn<F>(pub F);

} // verus!
