use vstd::prelude::*;

verus! {

/// Category of a detected object: a whole car, an armour plate of either
/// side (with or without its robot number), or part of the environment.
#[derive(Debug, PartialEq, Eq, Structural, Hash, Copy, Clone)]
pub enum ObjectType {
    Car,
    Red,
    Blue,
    Red1,
    Red2,
    Red3,
    Red4,
    Red5,
    Blue1,
    Blue2,
    Blue3,
    Blue4,
    Blue5,
    Env,
}

impl ObjectType {
    /// Every category but a whole car and the environment is an armour plate.
    pub open spec fn spec_is_armor(self) -> bool {
        self != ObjectType::Car && self != ObjectType::Env
    }

    pub fn is_armor(&self) -> (res: bool)
        ensures
            res == self.spec_is_armor(),
    {
        *self != ObjectType::Car && *self != ObjectType::Env
    }

    /// A distinct number for each category, in declaration order.
    pub open spec fn spec_code(self) -> u64 {
        match self {
            ObjectType::Car => 0,
            ObjectType::Red => 1,
            ObjectType::Blue => 2,
            ObjectType::Red1 => 3,
            ObjectType::Red2 => 4,
            ObjectType::Red3 => 5,
            ObjectType::Red4 => 6,
            ObjectType::Red5 => 7,
            ObjectType::Blue1 => 8,
            ObjectType::Blue2 => 9,
            ObjectType::Blue3 => 10,
            ObjectType::Blue4 => 11,
            ObjectType::Blue5 => 12,
            ObjectType::Env => 13,
        }
    }

    /// Law: different categories have different codes.
    pub proof fn lemma_codes_distinct(a: ObjectType, b: ObjectType)
        ensures
            a.spec_code() == b.spec_code() <==> a == b,
    {
    }

    pub fn code(&self) -> (res: u64)
        ensures
            res == self.spec_code(),
    {
        match self {
            ObjectType::Car => 0,
            ObjectType::Red => 1,
            ObjectType::Blue => 2,
            ObjectType::Red1 => 3,
            ObjectType::Red2 => 4,
            ObjectType::Red3 => 5,
            ObjectType::Red4 => 6,
            ObjectType::Red5 => 7,
            ObjectType::Blue1 => 8,
            ObjectType::Blue2 => 9,
            ObjectType::Blue3 => 10,
            ObjectType::Blue4 => 11,
            ObjectType::Blue5 => 12,
            ObjectType::Env => 13,
        }
    }
}


/// Side a robot plays for.
#[derive(Debug, PartialEq, Eq, Structural, Copy, Clone)]
pub enum Color {
    Red,
    Blue,
}

/// What a detected robot is doing.
#[derive(Debug, PartialEq, Eq, Structural, Copy, Clone)]
pub enum ActionType {
    Attack,
    Defend,
    NoAction,
}

/// Placeholder for the station's detection settings; it holds nothing yet.
pub struct Config {}

/// A point of the field in fixed point: each coordinate counts units of
/// 10 µm (1e-5 m), so that every reference coordinate is held exactly.
#[derive(Debug, PartialEq, Eq, Structural, Copy, Clone)]
pub struct FieldPoint {
    pub x: i64,
    pub y: i64,
    pub z: i64,
}

/// Units of a [`FieldPoint`] coordinate in one metre.
pub const UNITS_PER_METRE: i64 = 100000;

/// Field coordinates of the origin that reference points are given from.
pub const ORIGIN_X: i64 = 64900;
pub const ORIGIN_Y: i64 = 43300;

/// Why no reference points could be given.
#[derive(Debug, PartialEq, Eq, Structural, Copy, Clone)]
pub enum PointSourceError {
    /// Reading the reference points from the configuration is not implemented.
    NotImplemented,
}

/// A reference point measured in field coordinates, shifted to the origin.
pub open spec fn shifted(x: int, y: int, z: int) -> FieldPoint {
    FieldPoint { x: (x - ORIGIN_X) as i64, y: (y - ORIGIN_Y) as i64, z: z as i64 }
}

/// The six reference points used to calibrate a camera that watches the
/// field from the red side.
pub open spec fn red_reference_points() -> Seq<FieldPoint> {
    seq![
        shifted(947097, 906324, 61500),
        shifted(947098, 972324, 61500),
        shifted(2213425, 1548899, 20000),
        shifted(2587255, 1548858, 40000),
        shifted(2417254, 210967, 40000),
        shifted(1090243, 760410, 60000),
    ]
}

/// The six reference points used to calibrate a camera that watches the
/// field from the blue side.
pub open spec fn blue_reference_points() -> Seq<FieldPoint> {
    seq![
        shifted(1986332, 683851, 61500),
        shifted(1986332, 617851, 61500),
        shifted(716102, 48926, 20000),
        shifted(342256, 58967, 40000),
        shifted(512274, 1386857, 40000),
        shifted(1839284, 837415, 60000),
    ]
}

pub open spec fn reference_points(color: Color) -> Seq<FieldPoint> {
    match color {
        Color::Red => red_reference_points(),
        Color::Blue => blue_reference_points(),
    }
}

fn push_shifted(points: &mut Vec<FieldPoint>, x: i64, y: i64, z: i64)
    requires
        0 <= x <= 3000000,
        0 <= y <= 3000000,
    ensures
        final(points)@ == old(points)@.push(shifted(x as int, y as int, z as int)),
{
    points.push(FieldPoint { x: x - ORIGIN_X, y: y - ORIGIN_Y, z });
}

/// The 3-D reference points for calibration. Only the built-in tables are
/// available: asking for the points from the configuration is refused.
pub fn get_point_3d(from_config: bool, color: Color) -> (res: Result<Vec<FieldPoint>, PointSourceError>)
    ensures
        from_config ==> res == Err::<Vec<FieldPoint>, PointSourceError>(PointSourceError::NotImplemented),
        !from_config ==> (res matches Ok(points) && points@ == reference_points(color)),
{
    if from_config {
        return Err(PointSourceError::NotImplemented);
    }
    let mut points: Vec<FieldPoint> = Vec::new();
    match color {
        Color::Red => {
            push_shifted(&mut points, 947097, 906324, 61500);
            push_shifted(&mut points, 947098, 972324, 61500);
            push_shifted(&mut points, 2213425, 1548899, 20000);
            push_shifted(&mut points, 2587255, 1548858, 40000);
            push_shifted(&mut points, 2417254, 210967, 40000);
            push_shifted(&mut points, 1090243, 760410, 60000);
        },
        Color::Blue => {
            push_shifted(&mut points, 1986332, 683851, 61500);
            push_shifted(&mut points, 1986332, 617851, 61500);
            push_shifted(&mut points, 716102, 48926, 20000);
            push_shifted(&mut points, 342256, 58967, 40000);
            push_shifted(&mut points, 512274, 1386857, 40000);
            push_shifted(&mut points, 1839284, 837415, 60000);
        },
    }
    assert(points@ =~= reference_points(color));
    Ok(points)
}

/// The image points that pair with the given 3-D points: the first
/// `threed.len() - 1` points of `twod_from_input`, in order.
pub fn get_point_2d<A, B: Copy>(threed: &Vec<A>, twod_from_input: &Vec<B>) -> (res: Vec<B>)
    requires
        threed.len() >= 1,
        twod_from_input.len() + 1 >= threed.len(),
    ensures
        res@ == twod_from_input@.take(threed.len() - 1),
{
    let n = threed.len() - 1;
    let mut result: Vec<B> = Vec::new();
    for i in 0..n
        invariant
            n == threed.len() - 1,
            n <= twod_from_input.len(),
            result@ == twod_from_input@.take(i as int),
    {
        result.push(twod_from_input[i]);
        assert(twod_from_input@.take(i + 1) =~= twod_from_input@.take(i as int).push(twod_from_input@[i as int]));
    }
    result
}

} // verus!
