//! A rendering adapter that lets a device-independent 2D plotting engine
//! draw onto a character-grid terminal display. The verified core converts
//! the engine's integer virtual-pixel coordinates into the canvas's
//! normalized coordinate space and rasterizes filled shapes into the
//! primitives the canvas supports.

pub mod render;
pub mod sqrt;
pub mod transform;
pub mod widget;

pub use render::Color;
pub use render::Error;
pub use render::Primitive;
pub use render::PrimitiveRenderer;
pub use transform::CELL_PIXEL_HEIGHT;
pub use transform::CELL_PIXEL_WIDTH;
pub use transform::NormCoord;
pub use transform::Region;
pub use widget::DrawFn;
pub use widget::PlottersWidget;
