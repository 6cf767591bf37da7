//! Plain-value logic of a window that draws one coloured triangle with a
//! hardware-accelerated graphics API: the vertex layout, the order in which
//! the graphics objects are created and when that creation stops, and the
//! commands issued on each frame. The calls into the driver happen elsewhere.
pub mod layout;
pub mod setup;
pub mod frame;
