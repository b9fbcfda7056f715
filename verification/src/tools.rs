//! What the agent says of its tools to a model.
use crate::json::{Json, JsonView};
use vstd::prelude::*;

verus! {

/// A tool that a model may call.
#[derive(Debug, Clone)]
pub struct ToolSpec {
    pub name: String,
    pub description: String,
    /// JSON schema of the tool's parameters.
    pub parameters: Json,
}

pub struct ToolSpecView {
    pub name: Seq<char>,
    pub description: Seq<char>,
    pub parameters: JsonView,
}

impl DeepView for ToolSpec {
    type V = ToolSpecView;

    open spec fn deep_view(&self) -> ToolSpecView {
        ToolSpecView {
            name: self.name@,
            description: self.description@,
            parameters: self.parameters@,
        }
    }
}

/// A tool is seen as it is.
pub proof fn law_tools_are_seen_whole(tool: ToolSpec)
    ensures
        tool.deep_view().name == tool.name@,
        tool.deep_view().description == tool.description@,
        tool.deep_view().parameters == tool.parameters@,
{
}

} // verus!
