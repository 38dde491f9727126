//! Serialized steps: JSON objects tagged with the identifier of their kind.

use vstd::prelude::*;
use crate::error::{EngineError, ErrorView};
use crate::json::{Json, JsonObject, Members};

verus! {

/// The identifier under the key `step`, where that member is a JSON string.
pub open spec fn kind_of(members: Members) -> Option<Seq<char>> {
    if members.contains_key("step"@) {
        match members["step"@] {
            Json::Text(kind) => Some(kind),
            _ => None,
        }
    } else {
        None
    }
}

/// One step of a pipeline as it is stored: a JSON object whose member `step`
/// is the dotted identifier of the step's kind (`templates.load`,
/// `telegram.send`). The other members belong to the plugin that owns the
/// kind. The view is the object's members.
#[derive(Debug)]
pub struct SerializedStep {
    object: JsonObject,
}

impl View for SerializedStep {
    type V = Members;

    closed spec fn view(&self) -> Members {
        crate::json::object_model(self.object)
    }
}

impl SerializedStep {
    #[verifier::type_invariant]
    spec fn tagged(self) -> bool {
        kind_of(crate::json::object_model(self.object)) is Some
    }

    /// Accepts `object` as a step if it names its kind.
    pub fn new(object: JsonObject) -> (made: Result<SerializedStep, EngineError>)
        ensures
            match made {
                Ok(step) => step@ == crate::json::object_model(object) && kind_of(step@) is Some,
                Err(e) => e@ == ErrorView::InvalidStep && kind_of(
                    crate::json::object_model(object),
                ) is None,
            },
    {
        let tagged = match crate::json::object_get(&object, "step") {
            Some(value) => crate::json::as_text(value).is_some(),
            None => false,
        };
        if tagged {
            Ok(SerializedStep { object })
        } else {
            Err(EngineError::InvalidStep)
        }
    }

    /// The identifier of the step's kind.
    pub fn get_type(&self) -> (kind: &str)
        ensures
            kind_of(self@) == Some(kind@),
    {
        proof {
            use_type_invariant(self);
        }
        match crate::json::object_get(&self.object, "step") {
            Some(value) => match crate::json::as_text(value) {
                Some(kind) => kind,
                None => vstd::pervasive::unreached(),
            },
            None => vstd::pervasive::unreached(),
        }
    }

    /// The member stored under `key`, if there is one.
    pub fn member(&self, key: &str) -> (found: Option<&serde_json::Value>)
        ensures
            match found {
                Some(value) => self@.contains_key(key@) && self@[key@] == crate::json::value_model(
                    *value,
                ),
                None => !self@.contains_key(key@),
            },
    {
        crate::json::object_get(&self.object, key)
    }

    /// The whole object.
    pub fn as_object(&self) -> (object: &JsonObject)
        ensures
            crate::json::object_model(*object) == self@,
            kind_of(self@) is Some,
    {
        proof {
            use_type_invariant(self);
        }
        &self.object
    }
}

impl Clone for SerializedStep {
    fn clone(&self) -> (copy: SerializedStep)
        ensures
            copy@ == self@,
    {
        proof {
            use_type_invariant(self);
        }
        SerializedStep { object: crate::json::object_clone(&self.object) }
    }
}

/// A list of steps, by content.
pub open spec fn steps_view(steps: Seq<SerializedStep>) -> Seq<Members> {
    steps.map_values(|s: SerializedStep| s@)
}

} // verus!
