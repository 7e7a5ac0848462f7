//! A transition engine for route changes: a navigation state machine, a policy
//! that assigns each route pair a visual treatment, and a fixed-point
//! interpolation engine that drives the treatment frame by frame.
//!
//! Every quantity is an integer count of millionths, so that the same frames
//! give the same values on every machine.

pub mod animation;
pub mod easing;
pub mod fixed;
pub mod model;
pub mod motion;
pub mod names;
pub mod navigation;
pub mod orchestrator;
pub mod policy;
pub mod route;
pub mod transform;
pub mod transform_motion;
pub mod variant;

pub use animation::Animation;
pub use easing::Easing;
pub use model::{MotionModel, Spring};
pub use motion::Motion;
pub use navigation::AnimatedRouterContext;
pub use orchestrator::{Frame, Layer, TransitionOrchestrator};
pub use policy::{PairRule, TargetRule, TransitionPolicy};
pub use route::RouteId;
pub use transform::Transform;
pub use transform_motion::TransformMotion;
pub use variant::{TransitionConfig, TransitionVariant};
