//! Shapes of the three eyes (finder patterns) of a symbol.

use vstd::prelude::*;

verus! {

/// Position of an eye in the symbol.
#[derive(Clone, Copy, Debug, PartialEq, Eq, PartialOrd, Ord)]
pub enum EyePosition {
    /// Top left eye
    TopLeft,
    /// Top right eye
    TopRight,
    /// Bottom right eye
    BottomRight,
}

/// Shape of the frame of an eye. `Command` holds a custom drawing function
/// `F`, which takes an `EyePosition` and returns a path command of at most 7 by
/// 7 modules, such as `M{x},{y}h7v7h-7` for the square frame.
#[derive(Clone, Copy, Debug, PartialEq, Eq, PartialOrd, Ord)]
pub enum EyeFrameShape<F> {
    Square,
    Rounded,
    Circle,
    RoundedSquaredSide1,
    RoundedSquaredSide2,
    RoundedSquaredSide3,
    DottedSquare,
    EyeLash,
    /// Custom shape drawn by a function
    Command(F),
}

/// Number of a built-in shape, in declaration order; a custom shape comes
/// after all of them.
pub open spec fn shape_index<F>(shape: EyeFrameShape<F>) -> usize {
    match shape {
        EyeFrameShape::Square => 0,
        EyeFrameShape::Rounded => 1,
        EyeFrameShape::Circle => 2,
        EyeFrameShape::RoundedSquaredSide1 => 3,
        EyeFrameShape::RoundedSquaredSide2 => 4,
        EyeFrameShape::RoundedSquaredSide3 => 5,
        EyeFrameShape::DottedSquare => 6,
        EyeFrameShape::EyeLash => 7,
        EyeFrameShape::Command(_) => 8,
    }
}

/// The built-in shape called `name`; an unknown name is `Square`.
pub open spec fn shape_named<F>(name: Seq<char>) -> EyeFrameShape<F> {
    if name == "rounded"@ {
        EyeFrameShape::Rounded
    } else if name == "circle"@ {
        EyeFrameShape::Circle
    } else if name == "rounded_squared_side_1"@ {
        EyeFrameShape::RoundedSquaredSide1
    } else if name == "rounded_squared_side_2"@ {
        EyeFrameShape::RoundedSquaredSide2
    } else if name == "rounded_squared_side_3"@ {
        EyeFrameShape::RoundedSquaredSide3
    } else if name == "dotted_square"@ {
        EyeFrameShape::DottedSquare
    } else if name == "eye_lash"@ {
        EyeFrameShape::EyeLash
    } else {
        EyeFrameShape::Square
    }
}

impl<F> EyeFrameShape<F> {
    /// The drawing function of a custom shape; `None` for a built-in shape.
    pub fn command(&self) -> (r: Option<&F>)
        ensures
            r == match *self {
                EyeFrameShape::Command(f) => Some(&f),
                _ => None,
            },
    {
        match self {
            EyeFrameShape::Command(f) => Some(f),
            _ => None,
        }
    }
}

impl<F> From<EyeFrameShape<F>> for usize {
    fn from(shape: EyeFrameShape<F>) -> (r: usize) {
        match shape {
            EyeFrameShape::Square => 0,
            EyeFrameShape::Rounded => 1,
            EyeFrameShape::Circle => 2,
            EyeFrameShape::RoundedSquaredSide1 => 3,
            EyeFrameShape::RoundedSquaredSide2 => 4,
            EyeFrameShape::RoundedSquaredSide3 => 5,
            EyeFrameShape::DottedSquare => 6,
            EyeFrameShape::EyeLash => 7,
            EyeFrameShape::Command(_) => 8,
        }
    }
}

impl<F> vstd::std_specs::convert::FromSpecImpl<EyeFrameShape<F>> for usize {
    open spec fn obeys_from_spec() -> bool {
        true
    }

    open spec fn from_spec(shape: EyeFrameShape<F>) -> usize {
        shape_index(shape)
    }
}

impl<F> From<String> for EyeFrameShape<F> {
    fn from(shape: String) -> (r: EyeFrameShape<F>) {
        if shape == "rounded".to_owned() {
            EyeFrameShape::Rounded
        } else if shape == "circle".to_owned() {
            EyeFrameShape::Circle
        } else if shape == "rounded_squared_side_1".to_owned() {
            EyeFrameShape::RoundedSquaredSide1
        } else if shape == "rounded_squared_side_2".to_owned() {
            EyeFrameShape::RoundedSquaredSide2
        } else if shape == "rounded_squared_side_3".to_owned() {
            EyeFrameShape::RoundedSquaredSide3
        } else if shape == "dotted_square".to_owned() {
            EyeFrameShape::DottedSquare
        } else if shape == "eye_lash".to_owned() {
            EyeFrameShape::EyeLash
        } else {
            EyeFrameShape::Square
        }
    }
}

impl<F> vstd::std_specs::convert::FromSpecImpl<String> for EyeFrameShape<F> {
    open spec fn obeys_from_spec() -> bool {
        true
    }

    open spec fn from_spec(shape: String) -> EyeFrameShape<F> {
        shape_named(shape@)
    }
}

impl<F> From<EyeFrameShape<F>> for &'static str {
    fn from(shape: EyeFrameShape<F>) -> (r: &'static str) {
        match shape {
            EyeFrameShape::Square => "square",
            EyeFrameShape::Rounded => "rounded",
            EyeFrameShape::Circle => "circle",
            EyeFrameShape::RoundedSquaredSide1 => "rounded_squared_side_1",
            EyeFrameShape::RoundedSquaredSide2 => "rounded_squared_side_2",
            EyeFrameShape::RoundedSquaredSide3 => "rounded_squared_side_3",
            EyeFrameShape::DottedSquare => "dotted_square",
            EyeFrameShape::EyeLash => "eye_lash",
            EyeFrameShape::Command(_) => "command",
        }
    }
}

impl<F> vstd::std_specs::convert::FromSpecImpl<EyeFrameShape<F>> for &'static str {
    open spec fn obeys_from_spec() -> bool {
        true
    }

    open spec fn from_spec(shape: EyeFrameShape<F>) -> &'static str {
        match shape {
            EyeFrameShape::Square => "square",
            EyeFrameShape::Rounded => "rounded",
            EyeFrameShape::Circle => "circle",
            EyeFrameShape::RoundedSquaredSide1 => "rounded_squared_side_1",
            EyeFrameShape::RoundedSquaredSide2 => "rounded_squared_side_2",
            EyeFrameShape::RoundedSquaredSide3 => "rounded_squared_side_3",
            EyeFrameShape::DottedSquare => "dotted_square",
            EyeFrameShape::EyeLash => "eye_lash",
            EyeFrameShape::Command(_) => "command",
        }
    }
}

} // verus!
