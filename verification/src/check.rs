//! Validation results: the errors and warnings found in a body, and the
//! validator and healer that produce and repair them.
use vstd::prelude::*;
use crate::text::prefixed;
use crate::topo::body::Body;

verus! {

/// Validation error types.
#[derive(Debug, Clone, PartialEq, Eq)]
pub enum ValidationError {
    /// Invalid topology
    InvalidTopology(String),
    /// Invalid geometry
    InvalidGeometry(String),
    /// Self-intersection
    SelfIntersection,
    /// Gap in boundary
    GapInBoundary,
    /// Degenerate geometry
    DegenerateGeometry,
    /// Orientation error
    OrientationError,
}

impl ValidationError {
    /// The message of the error.
    pub open spec fn text(&self) -> Seq<char> {
        match self {
            ValidationError::InvalidTopology(s) => "Invalid topology: "@ + s@,
            ValidationError::InvalidGeometry(s) => "Invalid geometry: "@ + s@,
            ValidationError::SelfIntersection => "Self-intersection detected"@,
            ValidationError::GapInBoundary => "Gap in boundary"@,
            ValidationError::DegenerateGeometry => "Degenerate geometry"@,
            ValidationError::OrientationError => "Orientation error"@,
        }
    }

    /// The message of the error.
    pub fn to_string(&self) -> (r: String)
        ensures
            r@ == self.text(),
    {
        match self {
            ValidationError::InvalidTopology(s) => prefixed("Invalid topology: ", s),
            ValidationError::InvalidGeometry(s) => prefixed("Invalid geometry: ", s),
            ValidationError::SelfIntersection => crate::text::string_from_str("Self-intersection detected"),
            ValidationError::GapInBoundary => crate::text::string_from_str("Gap in boundary"),
            ValidationError::DegenerateGeometry => crate::text::string_from_str("Degenerate geometry"),
            ValidationError::OrientationError => crate::text::string_from_str("Orientation error"),
        }
    }
}

/// Validation warning types.
#[derive(Debug, Clone, Copy, PartialEq, Eq, Structural)]
pub enum ValidationWarning {
    /// Small edge
    SmallEdge,
    /// Small face
    SmallFace,
    /// Sharp angle
    SharpAngle,
    /// Near degenerate
    NearDegenerate,
}

/// The errors and warnings of a validation result.
pub struct ValidationModel {
    pub errors: Seq<ValidationError>,
    pub warnings: Seq<ValidationWarning>,
}

impl ValidationModel {
    /// A result is valid when it holds no error.
    pub open spec fn valid(self) -> bool {
        self.errors.len() == 0
    }

    /// The errors and then the warnings of `self`, followed by those of
    /// `other`.
    pub open spec fn merged(self, other: ValidationModel) -> ValidationModel {
        ValidationModel { errors: self.errors + other.errors, warnings: self.warnings + other.warnings }
    }
}

/// Validation result.
#[derive(Debug, Clone)]
pub struct ValidationResult {
    /// Errors found
    pub errors: Vec<ValidationError>,
    /// Warnings found
    pub warnings: Vec<ValidationWarning>,
}

impl View for ValidationResult {
    type V = ValidationModel;

    open spec fn view(&self) -> ValidationModel {
        ValidationModel { errors: self.errors@, warnings: self.warnings@ }
    }
}

impl ValidationResult {
    /// Create a new empty validation result.
    pub fn new() -> (r: Self)
        ensures
            r@.errors.len() == 0,
            r@.warnings.len() == 0,
    {
        ValidationResult { errors: Vec::new(), warnings: Vec::new() }
    }

    /// Check if validation passed (no errors).
    pub fn is_valid(&self) -> (b: bool)
        ensures
            b == self@.valid(),
    {
        self.errors.len() == 0
    }

    /// Add an error.
    pub fn add_error(&mut self, error: ValidationError)
        ensures
            final(self)@.errors == old(self)@.errors.push(error),
            final(self)@.warnings == old(self)@.warnings,
    {
        self.errors.push(error);
    }

    /// Add a warning.
    pub fn add_warning(&mut self, warning: ValidationWarning)
        ensures
            final(self)@.warnings == old(self)@.warnings.push(warning),
            final(self)@.errors == old(self)@.errors,
    {
        self.warnings.push(warning);
    }

    /// Merge another validation result: its errors and warnings come after
    /// these.
    pub fn merge(&mut self, other: ValidationResult)
        ensures
            final(self)@ == old(self)@.merged(other@),
    {
        let mut other = other;
        self.errors.append(&mut other.errors);
        self.warnings.append(&mut other.warnings);
    }
}

impl Default for ValidationResult {
    fn default() -> (r: Self)
        ensures
            r@.errors.len() == 0,
            r@.warnings.len() == 0,
    {
        ValidationResult::new()
    }
}

/// A merged result is valid exactly when both results are, and adding an
/// error makes any result invalid.
pub proof fn lemma_merge_validity(a: ValidationModel, b: ValidationModel, e: ValidationError)
    ensures
        a.merged(b).valid() == (a.valid() && b.valid()),
        !(ValidationModel { errors: a.errors.push(e), warnings: a.warnings }).valid(),
{
}

/// The bit pattern of the `f64` value `1e-6`.
pub const DEFAULT_CHECK_TOLERANCE_BITS: u64 = 0x3eb0c6f7a0b5ed8du64;

/// Validation options.
#[derive(Debug, Clone, Copy)]
pub struct ValidationOptions {
    /// Tolerance for checks (bit pattern of an `f64`)
    pub tolerance: u64,
    /// Check for self-intersections
    pub check_self_intersection: bool,
    /// Check for gaps
    pub check_gaps: bool,
    /// Check orientation
    pub check_orientation: bool,
}

impl Default for ValidationOptions {
    fn default() -> (r: Self)
        ensures
            r.tolerance == DEFAULT_CHECK_TOLERANCE_BITS,
            r.check_self_intersection && r.check_gaps && r.check_orientation,
    {
        ValidationOptions {
            tolerance: DEFAULT_CHECK_TOLERANCE_BITS,
            check_self_intersection: true,
            check_gaps: true,
            check_orientation: true,
        }
    }
}

/// Validator for B-Rep bodies.
pub struct Validator {
    options: ValidationOptions,
}

/// The default validation options: tolerance `1e-6`, every check on.
pub open spec fn default_validation_options() -> ValidationOptions {
    ValidationOptions {
        tolerance: DEFAULT_CHECK_TOLERANCE_BITS,
        check_self_intersection: true,
        check_gaps: true,
        check_orientation: true,
    }
}

impl Validator {
    /// The options the validator was made with.
    pub closed spec fn options(&self) -> ValidationOptions {
        self.options
    }

    /// Create a new validator with default options.
    pub fn new() -> (r: Self)
        ensures
            r.options() == default_validation_options(),
    {
        Validator { options: ValidationOptions::default() }
    }

    /// Create a new validator with custom options.
    pub fn with_options(options: ValidationOptions) -> (r: Self)
        ensures
            r.options() == options,
    {
        Validator { options }
    }

    /// Validate a body: no checks are performed yet, so the result holds no
    /// error and no warning.
    pub fn validate(&self, body: &Body) -> (r: ValidationResult)
        ensures
            r@.errors.len() == 0,
            r@.warnings.len() == 0,
    {
        ValidationResult::new()
    }
}

impl Default for Validator {
    fn default() -> (r: Self)
        ensures
            r.options() == default_validation_options(),
    {
        Validator::new()
    }
}

/// Check a body with the default options.
pub fn check_body(body: &Body) -> (r: ValidationResult)
    ensures
        r@.errors.len() == 0,
        r@.warnings.len() == 0,
{
    let validator = Validator::new();
    validator.validate(body)
}

/// Check a body with custom options.
pub fn check_body_with_options(body: &Body, options: ValidationOptions) -> (r: ValidationResult)
    ensures
        r@.errors.len() == 0,
        r@.warnings.len() == 0,
{
    let validator = Validator::with_options(options);
    validator.validate(body)
}

/// Healing options.
#[derive(Debug, Clone, Copy)]
pub struct HealingOptions {
    /// Tolerance for healing (bit pattern of an `f64`)
    pub tolerance: u64,
    /// Fix gaps
    pub fix_gaps: bool,
    /// Fix self-intersections
    pub fix_self_intersections: bool,
    /// Fix orientation
    pub fix_orientation: bool,
    /// Simplify geometry
    pub simplify: bool,
}

impl Default for HealingOptions {
    fn default() -> (r: Self)
        ensures
            r.tolerance == DEFAULT_CHECK_TOLERANCE_BITS,
            r.fix_gaps && r.fix_self_intersections && r.fix_orientation && !r.simplify,
    {
        HealingOptions {
            tolerance: DEFAULT_CHECK_TOLERANCE_BITS,
            fix_gaps: true,
            fix_self_intersections: true,
            fix_orientation: true,
            simplify: false,
        }
    }
}

/// Healer for B-Rep bodies.
pub struct Healer {
    options: HealingOptions,
}

/// The default healing options: tolerance `1e-6`, every repair on but
/// simplification.
pub open spec fn default_healing_options() -> HealingOptions {
    HealingOptions {
        tolerance: DEFAULT_CHECK_TOLERANCE_BITS,
        fix_gaps: true,
        fix_self_intersections: true,
        fix_orientation: true,
        simplify: false,
    }
}

impl Healer {
    /// The options the healer was made with.
    pub closed spec fn options(&self) -> HealingOptions {
        self.options
    }

    /// Create a new healer with default options.
    pub fn new() -> (r: Self)
        ensures
            r.options() == default_healing_options(),
    {
        Healer { options: HealingOptions::default() }
    }

    /// Create a new healer with custom options.
    pub fn with_options(options: HealingOptions) -> (r: Self)
        ensures
            r.options() == options,
    {
        Healer { options }
    }

    /// Heal a body: no repairs are performed yet; the body is left as it is.
    pub fn heal(&self, body: &mut Body) -> (r: Result<(), ValidationError>)
        ensures
            r is Ok,
            final(body)@ == old(body)@,
    {
        Ok(())
    }
}

impl Default for Healer {
    fn default() -> (r: Self)
        ensures
            r.options() == default_healing_options(),
    {
        Healer::new()
    }
}

/// Heal a body with the default options.
pub fn heal_body(body: &mut Body) -> (r: Result<(), ValidationError>)
    ensures
        r is Ok,
        final(body)@ == old(body)@,
{
    let healer = Healer::new();
    healer.heal(body)
}

} // verus!
