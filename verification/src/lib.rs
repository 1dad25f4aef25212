//! Scene bookkeeping for a small viewer that renders cubes into an
//! off-screen target and shows the result inside a GUI panel.

pub mod event_loop;
pub mod mesh;
pub mod rendering;
pub mod resolution;
pub mod scene;
