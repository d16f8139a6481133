//! Verified core of an interactive height-field surface viewer: the grid
//! mesh, the layout of the time-varying height field and of the per-vertex
//! normals, the pointer-driven view state, and the exact parameters of the
//! model-to-clip transform.
pub mod mesh;
pub mod transform;
pub mod view_state;
pub mod height_field;
pub mod normals;
