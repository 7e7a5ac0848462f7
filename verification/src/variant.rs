//! Transition variants and the table that gives each its endpoints.

use vstd::prelude::*;
use crate::fixed::UNIT;
use crate::model::{MotionModel, Spring};
use crate::transform::Transform;

verus! {

/// The family of visual treatment that a transition gets.
#[derive(Clone, Copy, Debug, PartialEq, Eq, Structural)]
pub enum TransitionVariant {
    /// The old page leaves to the left, the new one comes from the right.
    SlideLeft,
    /// The old page leaves to the right, the new one comes from the left.
    SlideRight,
    /// The old page leaves upward, the new one comes from below.
    SlideUp,
    /// The old page leaves downward, the new one comes from above.
    SlideDown,
    /// The pages stay in place and cross-fade.
    Fade,
    /// The old page shrinks to half its size, the new one grows from it.
    Scale,
    /// The old page ends on the given transform, the new one starts on its
    /// mirror image.
    Custom(Transform),
}

/// The endpoints of one transition: where the departing and the arriving
/// layer start and end, how opaque each is at both ends, and how they move.
/// Opacities are in millionths.
#[derive(Clone, Copy, Debug, PartialEq, Eq, Structural)]
pub struct TransitionConfig {
    pub initial_from: Transform,
    pub final_from: Transform,
    pub initial_to: Transform,
    pub final_to: Transform,
    pub initial_from_opacity: i64,
    pub final_from_opacity: i64,
    pub initial_to_opacity: i64,
    pub final_to_opacity: i64,
    pub model: MotionModel,
}

/// A hundred percent of the viewport.
pub const FULL_OFFSET: i64 = 100_000_000;

/// Half the full scale.
pub const HALF_SCALE: i64 = 500_000;

impl TransitionVariant {
    /// Where the departing layer ends.
    pub open spec fn departure(self) -> Transform {
        match self {
            TransitionVariant::SlideLeft => Transform {
                x: (-FULL_OFFSET) as i64,
                y: 0,
                scale: UNIT,
                rotation: 0,
            },
            TransitionVariant::SlideRight => Transform {
                x: FULL_OFFSET,
                y: 0,
                scale: UNIT,
                rotation: 0,
            },
            TransitionVariant::SlideUp => Transform {
                x: 0,
                y: (-FULL_OFFSET) as i64,
                scale: UNIT,
                rotation: 0,
            },
            TransitionVariant::SlideDown => Transform {
                x: 0,
                y: FULL_OFFSET,
                scale: UNIT,
                rotation: 0,
            },
            TransitionVariant::Fade => Transform::spec_identity(),
            TransitionVariant::Scale => Transform { x: 0, y: 0, scale: HALF_SCALE, rotation: 0 },
            TransitionVariant::Custom(transform) => transform,
        }
    }

    /// The endpoints of the variant. The departing layer goes from its place
    /// to where the variant sends it and fades out; the arriving layer comes
    /// from the mirror image of that point to its place and fades in.
    pub open spec fn config_with(self, model: MotionModel) -> TransitionConfig {
        TransitionConfig {
            initial_from: Transform::spec_identity(),
            final_from: self.departure(),
            initial_to: self.departure().mirror(),
            final_to: Transform::spec_identity(),
            initial_from_opacity: UNIT,
            final_from_opacity: 0,
            initial_to_opacity: 0,
            final_to_opacity: UNIT,
            model,
        }
    }

    /// The endpoints of the variant, moved by the spring of page transitions.
    pub open spec fn config(self) -> TransitionConfig {
        self.config_with(MotionModel::Spring(Spring::page_spring()))
    }

    /// The endpoints of the variant, moved by the spring of page transitions.
    pub fn get_config(&self) -> (config: TransitionConfig)
        ensures
            config == self.config(),
    {
        self.get_config_with(MotionModel::Spring(Spring::preset()))
    }

    /// The endpoints of the variant, moved by `model`.
    pub fn get_config_with(&self, model: MotionModel) -> (config: TransitionConfig)
        ensures
            config == self.config_with(model),
    {
        let (final_from, initial_to): (Transform, Transform) = match self {
            TransitionVariant::SlideLeft => (
                Transform::new(-FULL_OFFSET, 0, UNIT, 0),
                Transform::new(FULL_OFFSET, 0, UNIT, 0),
            ),
            TransitionVariant::SlideRight => (
                Transform::new(FULL_OFFSET, 0, UNIT, 0),
                Transform::new(-FULL_OFFSET, 0, UNIT, 0),
            ),
            TransitionVariant::SlideUp => (
                Transform::new(0, -FULL_OFFSET, UNIT, 0),
                Transform::new(0, FULL_OFFSET, UNIT, 0),
            ),
            TransitionVariant::SlideDown => (
                Transform::new(0, FULL_OFFSET, UNIT, 0),
                Transform::new(0, -FULL_OFFSET, UNIT, 0),
            ),
            TransitionVariant::Fade => (Transform::identity(), Transform::identity()),
            TransitionVariant::Scale => (
                Transform::new(0, 0, HALF_SCALE, 0),
                Transform::new(0, 0, HALF_SCALE, 0),
            ),
            TransitionVariant::Custom(transform) => (*transform, transform.mirrored()),
        };
        TransitionConfig {
            initial_from: Transform::identity(),
            final_from,
            initial_to,
            final_to: Transform::identity(),
            initial_from_opacity: UNIT,
            final_from_opacity: 0,
            initial_to_opacity: 0,
            final_to_opacity: UNIT,
            model,
        }
    }

    /// The variant that looks like this one played backward: slides turn
    /// round, the others are their own reverse.
    pub open spec fn reverse(self) -> TransitionVariant {
        match self {
            TransitionVariant::SlideLeft => TransitionVariant::SlideRight,
            TransitionVariant::SlideRight => TransitionVariant::SlideLeft,
            TransitionVariant::SlideUp => TransitionVariant::SlideDown,
            TransitionVariant::SlideDown => TransitionVariant::SlideUp,
            TransitionVariant::Fade => TransitionVariant::Fade,
            TransitionVariant::Scale => TransitionVariant::Scale,
            TransitionVariant::Custom(transform) => TransitionVariant::Custom(transform.mirror()),
        }
    }

    /// The variant for the way back.
    pub fn reversed(&self) -> (v: TransitionVariant)
        ensures
            v == self.reverse(),
    {
        match self {
            TransitionVariant::SlideLeft => TransitionVariant::SlideRight,
            TransitionVariant::SlideRight => TransitionVariant::SlideLeft,
            TransitionVariant::SlideUp => TransitionVariant::SlideDown,
            TransitionVariant::SlideDown => TransitionVariant::SlideUp,
            TransitionVariant::Fade => TransitionVariant::Fade,
            TransitionVariant::Scale => TransitionVariant::Scale,
            TransitionVariant::Custom(transform) => TransitionVariant::Custom(
                transform.mirrored(),
            ),
        }
    }
}

/// Every transition starts with the departing layer in place and ends with
/// the arriving layer in place, so that a settled page shows no trace of it.
/// On the way back the departing layer leaves where the arriving one came in.
pub proof fn lemma_config_shape(variant: TransitionVariant, model: MotionModel)
    ensures
        variant.config_with(model).initial_from == Transform::spec_identity(),
        variant.config_with(model).final_to == Transform::spec_identity(),
        variant.config_with(model).initial_to == variant.config_with(model).final_from.mirror(),
        variant.reverse().config_with(model).final_from == variant.config_with(model).initial_to,
        variant.config_with(model).initial_from_opacity == UNIT,
        variant.config_with(model).final_from_opacity == 0,
        variant.config_with(model).initial_to_opacity == 0,
        variant.config_with(model).final_to_opacity == UNIT,
        variant.config_with(model).model == model,
        variant.config() == variant.config_with(MotionModel::Spring(Spring::page_spring())),
{
}

} // verus!
