//! Discrete parts of spatial integration: the motion modes, the velocity
//! curve selector, and the force-type latch of the plotter mode. The
//! integration arithmetic itself is floating point and lives with the caller.

use vstd::prelude::*;

use crate::dualsense::Buttons;
use crate::text::{lower_of, lowercase, same_text};

verus! {

/// Integration modes for the controller
#[derive(Debug, Clone, Copy, PartialEq, Eq, Structural)]
pub enum SpatialMode {
    /// Standard integration: Left stick X/Y planar, Triggers for Z
    Standard,
    /// Heading-based movement: Rotation by gyro, Triggers for forward/back
    Heading,
    /// Accelerometer-based movement: Position changes based on acceleration
    Accelerometer,
    /// AxiDraw 2D Plotter: Right stick X/Y, Triggers for Pen Z
    AxiDraw,
    /// 3D Tool: Standard 3D navigation (Triggers and Sticks)
    ThreeD,
}

impl Default for SpatialMode {
    fn default() -> (r: Self)
        ensures
            r == SpatialMode::Standard,
    {
        SpatialMode::Standard
    }
}

/// Shape of the response to stick deflection
#[derive(Debug, Clone, Copy, PartialEq, Eq, Structural)]
pub enum VelocityCurve {
    Linear,
    Quadratic,
    Cubic,
}

/// Curve selected by a lowercased name; anything unknown is linear.
pub open spec fn curve_named(s: Seq<char>) -> VelocityCurve {
    if s == "quadratic"@ {
        VelocityCurve::Quadratic
    } else if s == "cubic"@ {
        VelocityCurve::Cubic
    } else {
        VelocityCurve::Linear
    }
}

impl VelocityCurve {
    /// Curve named in a configuration, matched without regard to case.
    pub fn from_name(name: &str) -> (r: Self)
        ensures
            r == curve_named(lower_of(name@)),
    {
        let lowered = lowercase(name);
        Self::from_lowered_name(lowered.as_str())
    }

    /// Curve named by an already lowercased name.
    pub fn from_lowered_name(k: &str) -> (r: Self)
        ensures
            r == curve_named(k@),
    {
        proof {
            reveal_strlit("quadratic");
            reveal_strlit("cubic");
            assert("quadratic"@.len() == 9 && "cubic"@.len() == 5);
        }
        if same_text(k, "quadratic") {
            VelocityCurve::Quadratic
        } else if same_text(k, "cubic") {
            VelocityCurve::Cubic
        } else {
            VelocityCurve::Linear
        }
    }
}

/// Force type latched by the D-pad in plotter mode: up 1, down 2, left 3,
/// right 4, the later one winning when several are held; none held keeps it.
pub open spec fn latched_force_type(current: u8, b: Buttons) -> u8 {
    if b.dpad_right {
        4
    } else if b.dpad_left {
        3
    } else if b.dpad_down {
        2
    } else if b.dpad_up {
        1
    } else {
        current
    }
}

/// Next force type of the plotter mode.
pub fn next_force_type(current: u8, buttons: &Buttons) -> (r: u8)
    ensures
        r == latched_force_type(current, *buttons),
{
    let mut force_type = current;
    if buttons.dpad_up {
        force_type = 1;
    }
    if buttons.dpad_down {
        force_type = 2;
    }
    if buttons.dpad_left {
        force_type = 3;
    }
    if buttons.dpad_right {
        force_type = 4;
    }
    force_type
}

} // verus!
