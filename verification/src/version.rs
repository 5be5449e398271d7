//! The declared version of a document, read as a pair of numbers, and the
//! version from which the `input:` keyword of a call statement is optional.

use vstd::prelude::*;
use wdl_ast::version::V1;
use wdl_ast::SupportedVersion;

verus! {

/// The versions of the language that a document can declare. The enumeration
/// is declared with its variants, which the verifier reads from `wdl-grammar`
/// itself.
#[verifier::external_type_specification]
pub struct ExSupportedVersion(SupportedVersion);

/// The minor versions of the first major version of the language, declared
/// with its variants as well.
#[verifier::external_type_specification]
pub struct ExV1(V1);

/// A version as a pair: the major number, then the minor one.
pub type VersionNumber = (nat, nat);

/// The pair of numbers that a declared version stands for. The enumeration is
/// open to later versions, so the last arm takes whatever follows 1.2; of the
/// versions listed today that is 1.3.
pub open spec fn version_number(version: SupportedVersion) -> VersionNumber {
    match version {
        SupportedVersion::V1(V1::Zero) => (1, 0),
        SupportedVersion::V1(V1::One) => (1, 1),
        SupportedVersion::V1(V1::Two) => (1, 2),
        _ => (1, 3),
    }
}

/// The order of versions: by the major number first, then by the minor one.
pub open spec fn precedes(a: VersionNumber, b: VersionNumber) -> bool {
    a.0 < b.0 || (a.0 == b.0 && a.1 < b.1)
}

/// The first version in which a call statement may leave the `input:` keyword
/// out: 1.2.
pub open spec fn threshold() -> VersionNumber {
    (1, 2)
}

/// Whether a document of this version is checked: its version is the threshold
/// or a later one.
pub open spec fn keyword_is_optional(version: SupportedVersion) -> bool {
    !precedes(version_number(version), threshold())
}

/// The order of versions is a strict total order: no version precedes itself,
/// of two different versions exactly one precedes the other, and what precedes
/// a version precedes all that the version precedes.
pub proof fn law_version_order(a: VersionNumber, b: VersionNumber, c: VersionNumber)
    ensures
        !precedes(a, a),
        a != b ==> (precedes(a, b) <==> !precedes(b, a)),
        precedes(a, b) && precedes(b, c) ==> precedes(a, c),
{
}

/// Tells whether the `input:` keyword is optional in a document of the given
/// version, that is whether the version is 1.2 or later.
pub fn input_keyword_is_optional(version: SupportedVersion) -> (optional: bool)
    ensures
        optional == keyword_is_optional(version),
{
    match version {
        SupportedVersion::V1(V1::Zero) => false,
        SupportedVersion::V1(V1::One) => false,
        _ => true,
    }
}

} // verus!
