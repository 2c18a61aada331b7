use fast_qr::eye_shape::{EyeFrameShape, EyePosition};

fn square(_: EyePosition) -> String {
    String::from("M0,0h7v7h-7")
}

type Shape = EyeFrameShape<fn(EyePosition) -> String>;

#[test]
fn shape_index_in_order() {
    assert_eq!(usize::from(Shape::Square), 0);
    assert_eq!(usize::from(Shape::Circle), 2);
    assert_eq!(usize::from(Shape::RoundedSquaredSide3), 5);
    assert_eq!(usize::from(Shape::EyeLash), 7);
}

#[test]
fn shape_from_name() {
    assert_eq!(Shape::from(String::from("rounded")), Shape::Rounded);
    assert_eq!(Shape::from(String::from("rounded_squared_side_2")), Shape::RoundedSquaredSide2);
    assert_eq!(Shape::from(String::from("dotted_square")), Shape::DottedSquare);
    assert_eq!(Shape::from(String::from("eye_lash")), Shape::EyeLash);
    assert_eq!(Shape::from(String::from("unknown")), Shape::Square);
}

#[test]
fn shape_names_round_trip() {
    let shapes = [
        Shape::Square,
        Shape::Rounded,
        Shape::Circle,
        Shape::RoundedSquaredSide1,
        Shape::RoundedSquaredSide2,
        Shape::RoundedSquaredSide3,
        Shape::DottedSquare,
        Shape::EyeLash,
    ];
    for shape in shapes {
        let name: &str = shape.into();
        assert_eq!(Shape::from(name.to_string()), shape);
    }
}

#[test]
fn custom_shape_command() {
    let shape: Shape = EyeFrameShape::Command(square);
    let name: &str = shape.into();
    assert_eq!(name, "command");
    let f = shape.command().unwrap();
    assert_eq!(f(EyePosition::TopLeft), "M0,0h7v7h-7");
    assert!(Shape::Circle.command().is_none());
}
