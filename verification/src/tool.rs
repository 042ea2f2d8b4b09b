use vstd::prelude::*;

verus! {

/// The annotation tool that the editor applies to pointer input.
#[derive(Debug, Clone, Copy, PartialEq, Eq, Structural)]
pub enum Tool {
    Select,
    Rectangle,
    Circle,
    Emotion,
    Arrow,
    Pen,
    Mosaic,
    Text,
}

impl Tool {
    /// The tool that a fresh editor starts with.
    pub fn default_tool() -> (tool: Tool)
        ensures
            tool == Tool::Select,
    {
        Tool::Select
    }
}

/// The position of a tool in the preview window's tool list.
pub open spec fn spec_tool_index(tool: Tool) -> i32 {
    match tool {
        Tool::Select => 0,
        Tool::Rectangle => 1,
        Tool::Circle => 2,
        Tool::Emotion => 3,
        Tool::Arrow => 4,
        Tool::Pen => 5,
        Tool::Mosaic => 6,
        Tool::Text => 7,
    }
}

pub fn tool_index(tool: Tool) -> (index: i32)
    ensures
        index == spec_tool_index(tool),
        0 <= index < 8,
{
    match tool {
        Tool::Select => 0,
        Tool::Rectangle => 1,
        Tool::Circle => 2,
        Tool::Emotion => 3,
        Tool::Arrow => 4,
        Tool::Pen => 5,
        Tool::Mosaic => 6,
        Tool::Text => 7,
    }
}

/// The tool at a position of the preview window's tool list, or `None` outside it.
pub fn tool_from_index(index: i32) -> (tool: Option<Tool>)
    ensures
        match tool {
            Some(t) => spec_tool_index(t) == index,
            None => index < 0 || index >= 8,
        },
{
    if index == 0 {
        Some(Tool::Select)
    } else if index == 1 {
        Some(Tool::Rectangle)
    } else if index == 2 {
        Some(Tool::Circle)
    } else if index == 3 {
        Some(Tool::Emotion)
    } else if index == 4 {
        Some(Tool::Arrow)
    } else if index == 5 {
        Some(Tool::Pen)
    } else if index == 6 {
        Some(Tool::Mosaic)
    } else if index == 7 {
        Some(Tool::Text)
    } else {
        None
    }
}

/// Distinct tools sit at distinct positions of the tool list, so that reading a position
/// back gives the tool that was written.
pub proof fn lemma_tool_index_is_injective(a: Tool, b: Tool)
    ensures
        spec_tool_index(a) == spec_tool_index(b) ==> a == b,
{
}

} // verus!
