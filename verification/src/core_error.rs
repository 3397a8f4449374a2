//! The error vocabulary shared with the rest of the RTOS family.

use vstd::prelude::*;

verus! {

/// Declares `rusty_rtos_core::error::Error`, the family's single `Copy`
/// error enum, so that verified code can return it and contracts can name its
/// variants. A context whose attempts are used up answers with `Timeout`.
///
/// The declaration is transparent rather than opaque: every variant of that
/// enum is public and carries no field, so Verus reads the variants from the
/// crate itself and nothing about the type is taken on trust. An opaque
/// declaration would forbid building `Error::Timeout` in verified code.
#[verifier::external_type_specification]
pub struct ExCoreError(rusty_rtos_core::error::Error);

} // verus!
