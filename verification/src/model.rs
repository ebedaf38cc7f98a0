use vstd::prelude::*;
use vstd::string::StringSliceAdditionalSpecFns;

use crate::trajectory::as_result;

verus! {

/// Name of the rigid body that backends generate for the lander.
pub const APOLLO_BODY_NAME: &'static str = "apollo_lander";

/// Name of the lander's free joint.
pub const APOLLO_FREEJOINT_NAME: &'static str = "apollo_freejoint";

/// A byte allowed in a model name: an ASCII letter or digit, `_`, `-` or `.`.
pub open spec fn is_identifier_byte(b: u8) -> bool {
    ||| 0x61 <= b <= 0x7a
    ||| 0x41 <= b <= 0x5a
    ||| 0x30 <= b <= 0x39
    ||| b == 0x5f
    ||| b == 0x2d
    ||| b == 0x2e
}

/// Whether `bytes` can name a model: non-empty and made only of identifier bytes.
pub open spec fn is_model_name(bytes: Seq<u8>) -> bool {
    bytes.len() > 0 && forall|i: int| 0 <= i < bytes.len() ==> #[trigger] is_identifier_byte(bytes[i])
}

/// Whether `name` can name a model in the generated physics description: non-empty and made
/// only of identifier bytes.
pub fn is_valid_model_name(name: &str) -> (valid: bool)
    ensures
        valid == is_model_name(name.spec_bytes()),
{
    let bytes = name.as_bytes();
    if bytes.len() == 0 {
        return false;
    }
    let mut i: usize = 0;
    while i < bytes.len()
        invariant
            i <= bytes@.len(),
            bytes@ == name.spec_bytes(),
            forall|j: int| 0 <= j < i ==> #[trigger] is_identifier_byte(bytes@[j]),
        decreases bytes@.len() - i,
    {
        let b = bytes[i];
        let allowed = (b >= 0x61 && b <= 0x7a) || (b >= 0x41 && b <= 0x5a) || (b >= 0x30 && b <= 0x39)
            || b == 0x5f || b == 0x2d || b == 0x2e;
        if !allowed {
            assert(!is_identifier_byte(name.spec_bytes()[i as int]));
            return false;
        }
        i = i + 1;
    }
    true
}

/// Outcomes of the real-valued checks of a model specification.
#[derive(Clone, Copy, Debug, PartialEq, Eq, Structural)]
pub struct ModelSpecChecks {
    /// The mass is finite and positive.
    pub mass_is_finite_and_positive: bool,
    /// The centre of mass is finite.
    pub center_of_mass_is_finite: bool,
    /// The diagonal inertia is finite and positive on every axis.
    pub inertia_is_finite_and_positive: bool,
    /// Each diagonal inertia is at most the sum of the other two.
    pub inertia_satisfies_triangle_inequalities: bool,
}

/// Why a model specification is refused.
#[derive(Clone, Copy, Debug, PartialEq, Eq, Structural)]
pub enum ModelSpecProblem {
    InvalidName,
    InvalidMass,
    InvalidCenterOfMass,
    InvalidInertia,
    InertiaTriangle,
}

/// The first problem of a model specification, in the order name, mass, centre of mass,
/// inertia, triangle inequalities.
pub open spec fn model_spec_problem(name: Seq<u8>, checks: ModelSpecChecks) -> Option<ModelSpecProblem> {
    if !is_model_name(name) {
        Some(ModelSpecProblem::InvalidName)
    } else if !checks.mass_is_finite_and_positive {
        Some(ModelSpecProblem::InvalidMass)
    } else if !checks.center_of_mass_is_finite {
        Some(ModelSpecProblem::InvalidCenterOfMass)
    } else if !checks.inertia_is_finite_and_positive {
        Some(ModelSpecProblem::InvalidInertia)
    } else if !checks.inertia_satisfies_triangle_inequalities {
        Some(ModelSpecProblem::InertiaTriangle)
    } else {
        None
    }
}

/// The reason shown to the user for `problem`.
pub open spec fn model_spec_reason(problem: ModelSpecProblem) -> Seq<char> {
    match problem {
        ModelSpecProblem::InvalidName => "name must be a non-empty ASCII identifier"@,
        ModelSpecProblem::InvalidMass => "mass_kg must be finite and positive"@,
        ModelSpecProblem::InvalidCenterOfMass => "center_of_mass_body_m must be finite"@,
        ModelSpecProblem::InvalidInertia => "diagonal_inertia_body_kg_m2 must be finite and positive"@,
        ModelSpecProblem::InertiaTriangle => "diagonal inertia must satisfy the triangle inequalities"@,
    }
}

impl ModelSpecProblem {
    /// The reason shown to the user.
    pub fn message(self) -> (message: &'static str)
        ensures
            message@ == model_spec_reason(self),
    {
        match self {
            ModelSpecProblem::InvalidName => "name must be a non-empty ASCII identifier",
            ModelSpecProblem::InvalidMass => "mass_kg must be finite and positive",
            ModelSpecProblem::InvalidCenterOfMass => "center_of_mass_body_m must be finite",
            ModelSpecProblem::InvalidInertia => "diagonal_inertia_body_kg_m2 must be finite and positive",
            ModelSpecProblem::InertiaTriangle => "diagonal inertia must satisfy the triangle inequalities",
        }
    }
}

/// Checks a model specification named `name` whose real-valued checks came out as `checks`.
pub fn check_model_spec(name: &str, checks: ModelSpecChecks) -> (r: Result<(), ModelSpecProblem>)
    ensures
        r == as_result(model_spec_problem(name.spec_bytes(), checks)),
{
    if !is_valid_model_name(name) {
        Err(ModelSpecProblem::InvalidName)
    } else if !checks.mass_is_finite_and_positive {
        Err(ModelSpecProblem::InvalidMass)
    } else if !checks.center_of_mass_is_finite {
        Err(ModelSpecProblem::InvalidCenterOfMass)
    } else if !checks.inertia_is_finite_and_positive {
        Err(ModelSpecProblem::InvalidInertia)
    } else if !checks.inertia_satisfies_triangle_inequalities {
        Err(ModelSpecProblem::InertiaTriangle)
    } else {
        Ok(())
    }
}

/// Outcomes of the real-valued checks of one collision part.
#[derive(Clone, Copy, Debug, PartialEq, Eq, Structural)]
pub struct CollisionPartChecks {
    /// Translation, rotation and scale are finite and the scale is positive.
    pub transform_is_finite_with_positive_scale: bool,
    /// The rotation is a unit quaternion.
    pub rotation_is_unit: bool,
    /// The shape's dimensions are finite and positive (a strut's ends differ).
    pub dimensions_are_valid: bool,
}

/// Why a collision part is refused.
#[derive(Clone, Copy, Debug, PartialEq, Eq, Structural)]
pub enum CollisionPartProblem {
    EmptyName,
    InvalidTransform,
    NonUnitRotation,
    InvalidDimensions,
}

/// The first problem of a collision part, in the order name, transform, rotation, shape.
pub open spec fn collision_part_problem(name: Seq<u8>, checks: CollisionPartChecks) -> Option<CollisionPartProblem> {
    if name.len() == 0 {
        Some(CollisionPartProblem::EmptyName)
    } else if !checks.transform_is_finite_with_positive_scale {
        Some(CollisionPartProblem::InvalidTransform)
    } else if !checks.rotation_is_unit {
        Some(CollisionPartProblem::NonUnitRotation)
    } else if !checks.dimensions_are_valid {
        Some(CollisionPartProblem::InvalidDimensions)
    } else {
        None
    }
}

/// The reason text of a collision part problem.
pub open spec fn collision_reason(problem: CollisionPartProblem) -> Seq<char> {
    match problem {
        CollisionPartProblem::EmptyName => "name must not be empty"@,
        CollisionPartProblem::InvalidTransform => "transform must be finite with positive scale"@,
        CollisionPartProblem::NonUnitRotation => "rotation_part_to_body must be a unit quaternion"@,
        CollisionPartProblem::InvalidDimensions => "shape dimensions must be finite and positive"@,
    }
}

impl CollisionPartProblem {
    /// The reason shown to the user.
    pub fn reason(self) -> (reason: &'static str)
        ensures
            reason@ == collision_reason(self),
    {
        match self {
            CollisionPartProblem::EmptyName => "name must not be empty",
            CollisionPartProblem::InvalidTransform => "transform must be finite with positive scale",
            CollisionPartProblem::NonUnitRotation => "rotation_part_to_body must be a unit quaternion",
            CollisionPartProblem::InvalidDimensions => "shape dimensions must be finite and positive",
        }
    }

    /// The message for part `name`: `collision part '<name>': <reason>`.
    pub fn message(self, name: &str) -> (message: String)
        ensures
            message@ == "collision part '"@ + name@ + "': "@ + collision_reason(self),
    {
        let mut message = String::from_str("collision part '");
        message.append(name);
        message.append("': ");
        message.append(self.reason());
        message
    }
}

/// Checks a collision part named `name` whose real-valued checks came out as `checks`.
pub fn check_collision_part(name: &str, checks: CollisionPartChecks) -> (r: Result<(), CollisionPartProblem>)
    ensures
        r == as_result(collision_part_problem(name.spec_bytes(), checks)),
{
    if name.as_bytes().len() == 0 {
        Err(CollisionPartProblem::EmptyName)
    } else if !checks.transform_is_finite_with_positive_scale {
        Err(CollisionPartProblem::InvalidTransform)
    } else if !checks.rotation_is_unit {
        Err(CollisionPartProblem::NonUnitRotation)
    } else if !checks.dimensions_are_valid {
        Err(CollisionPartProblem::InvalidDimensions)
    } else {
        Ok(())
    }
}

} // verus!
