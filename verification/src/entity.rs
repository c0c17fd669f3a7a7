//! The one type of the engine that the game's state carries.

use vstd::prelude::*;

verus! {

/// `bevy::prelude::Entity`, the engine's handle of an entity. Nothing is claimed of what a
/// handle holds: the game stores handles and gives them back unchanged.
#[verifier::external_type_specification]
#[verifier::external_body]
pub struct ExEntity(bevy::prelude::Entity);

} // verus!
