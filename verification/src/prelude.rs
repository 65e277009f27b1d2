//! The most common types of this library, in one place.

pub use crate::extrapolation::{
    RotationExtrapolation, TransformExtrapolation, TransformExtrapolationPlugin,
    TranslationExtrapolation,
};
pub use crate::hermite::{
    RotationHermiteEasing, TransformHermiteEasing, TransformHermiteEasingPlugin,
    TranslationHermiteEasing,
};
pub use crate::interpolation::{
    RotationInterpolation, ScaleInterpolation, TransformInterpolation,
    TransformInterpolationPlugin, TranslationInterpolation,
};
pub use crate::markers::{NoRotationEasing, NoScaleEasing, NoTransformEasing, NoTranslationEasing};
pub use crate::plugin::TransformEasingPlugin;
