//! Dispatch core of a guest/host embedding layer.
//!
//! Guest code calls named operations ("ops") identified by numeric ids. This
//! crate holds the pieces that sit on that trust boundary: the binary wire
//! codec of the minimal (hot-path) protocol, the op router that multiplexes
//! two protocol families onto id ranges and records byte-count telemetry, the
//! resource table that maps integer handles to host-owned objects, and the
//! module-specifier resolver that turns strings into absolute URLs.

pub mod codec;
pub mod errors;
pub mod resolver;
pub mod resources;
pub mod router;
