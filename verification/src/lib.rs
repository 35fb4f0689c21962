//! The verified core of a retained-state immediate mode GUI: widget placement
//! rules, animation states, per-widget persistent state and the input state
//! machine of the context, and the registry of fonts and textures.
pub mod anim;
pub mod geom;
pub mod state;
pub mod context;
pub mod font;
pub mod builder;
pub mod widget;
pub mod text;
