//! Stroked (outlined) text for a scene graph: a foreground text node plus
//! eight offset copies drawn behind it, kept in step with one declaration.
//!
//! The application writes a [`StrokedText`] down. At every tick the host
//! hands over the declarations that changed, each with the nodes it has, and
//! [`synchronize`] answers with what the scene needs: nine new nodes, or the
//! nodes it has brought up to date. The library holds no state of its own.

pub mod child;
pub mod declaration;
pub mod geometry;
pub mod laws;
pub mod model;
pub mod offsets;
pub mod scalar;
pub mod style;
pub mod sync;

pub use child::{child_set_is_consistent, RenderChild};
pub use declaration::{StrokedText, StrokedTextBundle};
pub use geometry::{Quat, Transform, Vec2, Vec3};
pub use scalar::Scalar;
pub use style::{Anchor, BreakLineOn, Color, FontHandle, JustifyText, TextStyle, Visibility};
pub use sync::{refresh_text_system, synchronize, SceneMutation, TextNode};
