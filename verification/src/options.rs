//! Host-side wiring options for one gesture target.

use vstd::prelude::*;

verus! {

/// How a host correlates an engine instance with its UI target: the name
/// of the attribute carrying the target id, and optionally a fixed id to
/// use instead of a generated one.
#[derive(Clone, Debug)]
pub struct UseGesturesOptions {
    pub target_id_attribute_name: &'static str,
    pub target_id: Option<String>,
}

impl UseGesturesOptions {
    /// Replaces the attribute name the target id is written under.
    pub fn target_id_attribute_name(self, attribute_name: &'static str) -> (r: Self)
        ensures
            r.target_id_attribute_name == attribute_name,
            r.target_id == self.target_id,
    {
        UseGesturesOptions { target_id_attribute_name: attribute_name, ..self }
    }

    /// Fixes the target id instead of generating one.
    pub fn target_id(self, target_id: String) -> (r: Self)
        ensures
            r.target_id_attribute_name == self.target_id_attribute_name,
            r.target_id == Some(target_id),
    {
        UseGesturesOptions { target_id: Some(target_id), ..self }
    }
}

impl Default for UseGesturesOptions {
    /// The default options: the `data-gestures-id` attribute and a
    /// generated id.
    fn default() -> (r: Self)
        ensures
            r.target_id_attribute_name@ == "data-gestures-id"@,
            r.target_id is None,
    {
        UseGesturesOptions { target_id_attribute_name: "data-gestures-id", target_id: None }
    }
}

} // verus!
