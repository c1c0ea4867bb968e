//! The engine of a terminal viewer for triangle meshes: a cursor over the
//! vertices and faces of a mesh, the choice of what each frame draws, and the
//! handling of keys. Coordinates are never read here; every primitive names
//! the places of the vertex buffer from which its screen position is computed.

use vstd::prelude::*;

pub mod app;
pub mod mesh;
pub mod path;
pub mod projection;
pub mod render;
pub mod selection;
