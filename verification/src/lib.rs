//! Verified core of a view/render lifecycle bridge.
//!
//! The library models the component that ties a GPU rendering surface to a
//! platform-native view: it reacts to paint callbacks, resize and
//! backing-scale notifications, and a vsync-aligned timer, and decides when
//! the surface must be reconfigured and when a frame may be drawn.
//!
//! The GPU and the windowing toolkit are external collaborators.  Every
//! decision the core makes is returned as a sequence of plain actions
//! (reconfigure, write the uniform, acquire a texture, present, register or
//! remove a timer, ...) that an unverified host performs against the real
//! backend.  The contracts pin down the exact actions emitted for every
//! event, the surface configuration that results, and the ordering rules
//! that the design depends on: a resize always precedes the redraw that
//! follows it, a zero-sized configuration never reaches a draw, and
//! teardown deregisters callbacks before it releases GPU resources.

pub mod bridge;
pub mod dispatcher;
pub mod frame_counter;
pub mod surface;
