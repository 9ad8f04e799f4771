//! The tools of the editor.

use vstd::prelude::*;

verus! {

/// A tool of the editor.
#[derive(Clone, Copy, Debug, PartialEq, Eq, Structural)]
pub enum EditorTool {
    Select,
    Rectangle,
    Arrow,
    Text,
    Stroke,
    Sequence,
}

/// The look of the mouse pointer.
#[derive(Clone, Copy, Debug, PartialEq, Eq, Structural)]
pub enum ToolCursor {
    Default,
    Text,
    Crosshair,
}

/// The place of a tool in the toolbar.
pub open spec fn tool_index(tool: EditorTool) -> usize {
    match tool {
        EditorTool::Select => 0,
        EditorTool::Rectangle => 1,
        EditorTool::Arrow => 2,
        EditorTool::Text => 3,
        EditorTool::Stroke => 4,
        EditorTool::Sequence => 5,
    }
}

impl EditorTool {
    /// All tools, in the order of the toolbar.
    pub fn all() -> (tools: [EditorTool; 6])
        ensures
            tools@ == seq![
                EditorTool::Select,
                EditorTool::Rectangle,
                EditorTool::Arrow,
                EditorTool::Text,
                EditorTool::Stroke,
                EditorTool::Sequence,
            ],
            forall|i: int| 0 <= i < 6 ==> tool_index(#[trigger] tools@[i]) == i,
    {
        let tools: [EditorTool; 6] = [
            EditorTool::Select,
            EditorTool::Rectangle,
            EditorTool::Arrow,
            EditorTool::Text,
            EditorTool::Stroke,
            EditorTool::Sequence,
        ];
        assert(tools@ =~= seq![
            EditorTool::Select,
            EditorTool::Rectangle,
            EditorTool::Arrow,
            EditorTool::Text,
            EditorTool::Stroke,
            EditorTool::Sequence,
        ]);
        tools
    }

    /// The name shown to the user.
    pub fn label(self) -> (label: &'static str)
        ensures
            label@ == match self {
                EditorTool::Select => "选择"@,
                EditorTool::Rectangle => "方框"@,
                EditorTool::Arrow => "箭头"@,
                EditorTool::Text => "文字"@,
                EditorTool::Stroke => "画笔"@,
                EditorTool::Sequence => "序号"@,
            },
    {
        match self {
            EditorTool::Select => "选择",
            EditorTool::Rectangle => "方框",
            EditorTool::Arrow => "箭头",
            EditorTool::Text => "文字",
            EditorTool::Stroke => "画笔",
            EditorTool::Sequence => "序号",
        }
    }

    /// What is shown while the mouse rests on the tool: its name and its key.
    pub fn tooltip(self) -> (tooltip: &'static str)
        ensures
            tooltip@ == match self {
                EditorTool::Select => "选择工具 (1)"@,
                EditorTool::Rectangle => "方框工具 (2)"@,
                EditorTool::Arrow => "箭头工具 (3)"@,
                EditorTool::Text => "文字工具 (4)"@,
                EditorTool::Stroke => "画笔工具 (5)"@,
                EditorTool::Sequence => "序号工具 (6)"@,
            },
    {
        match self {
            EditorTool::Select => "选择工具 (1)",
            EditorTool::Rectangle => "方框工具 (2)",
            EditorTool::Arrow => "箭头工具 (3)",
            EditorTool::Text => "文字工具 (4)",
            EditorTool::Stroke => "画笔工具 (5)",
            EditorTool::Sequence => "序号工具 (6)",
        }
    }

    /// The place of the tool in the toolbar.
    pub fn index(self) -> (index: usize)
        ensures
            index == tool_index(self),
            index < 6,
    {
        match self {
            EditorTool::Select => 0,
            EditorTool::Rectangle => 1,
            EditorTool::Arrow => 2,
            EditorTool::Text => 3,
            EditorTool::Stroke => 4,
            EditorTool::Sequence => 5,
        }
    }

    /// The look of the mouse pointer while the tool is used.
    pub fn cursor(self) -> (cursor: ToolCursor)
        ensures
            cursor == match self {
                EditorTool::Select => ToolCursor::Default,
                EditorTool::Text => ToolCursor::Text,
                _ => ToolCursor::Crosshair,
            },
    {
        match self {
            EditorTool::Select => ToolCursor::Default,
            EditorTool::Text => ToolCursor::Text,
            _ => ToolCursor::Crosshair,
        }
    }
}

/// No two tools stand at the same place of the toolbar.
pub proof fn law_tools_have_places_of_their_own(first: EditorTool, second: EditorTool)
    requires
        tool_index(first) == tool_index(second),
    ensures
        first == second,
{
}

} // verus!
