use vstd::prelude::*;

verus! {

/// A shader module as naga's WGSL front end builds it.
#[verifier::external_type_specification]
#[verifier::external_body]
pub struct ExNagaModule(naga::Module);

/// A scalar type of a naga module.
#[verifier::external_type_specification]
#[verifier::external_body]
pub struct ExNagaScalar(naga::Scalar);

/// The kind of a naga scalar.
#[verifier::external_type_specification]
#[verifier::external_body]
pub struct ExNagaScalarKind(naga::ScalarKind);

/// The size of a naga vector.
#[verifier::external_type_specification]
#[verifier::external_body]
pub struct ExNagaVectorSize(naga::VectorSize);

/// The dimensionality of a naga image type.
#[verifier::external_type_specification]
#[verifier::external_body]
pub struct ExNagaImageDimension(naga::ImageDimension);

/// The class of a naga image type.
#[verifier::external_type_specification]
#[verifier::external_body]
pub struct ExNagaImageClass(naga::ImageClass);

/// A member of a naga struct type.
#[verifier::external_type_specification]
#[verifier::external_body]
pub struct ExNagaStructMember(naga::StructMember);

/// A naga stage input or output binding.
#[verifier::external_type_specification]
#[verifier::external_body]
pub struct ExNagaBinding(naga::Binding);

/// A naga built-in value.
#[verifier::external_type_specification]
#[verifier::external_body]
pub struct ExNagaBuiltIn(naga::BuiltIn);

/// A naga interpolation qualifier.
#[verifier::external_type_specification]
#[verifier::external_body]
pub struct ExNagaInterpolation(naga::Interpolation);

/// A naga sampling qualifier.
#[verifier::external_type_specification]
#[verifier::external_body]
pub struct ExNagaSampling(naga::Sampling);

/// The address space of a naga global variable.
#[verifier::external_type_specification]
#[verifier::external_body]
pub struct ExNagaAddressSpace(naga::AddressSpace);

/// The stage of a naga entry point.
#[verifier::external_type_specification]
#[verifier::external_body]
pub struct ExNagaShaderStage(naga::ShaderStage);

/// An argument of a naga function.
#[verifier::external_type_specification]
#[verifier::external_body]
pub struct ExNagaFunctionArgument(naga::FunctionArgument);

} // verus!
