//! The elements of a document as the editor sees them: which of them is under the pointer,
//! what a click on it does, and the commands that change them. Numbers with a fraction are
//! given by the bits of their single-precision form.

use vstd::prelude::*;

use crate::stylus::{Point, ONE, ZERO};
use crate::tools::EditorTool;

verus! {

/// The bits of eight.
pub const EIGHT: u32 = 0x4100_0000;

/// The bits of twenty-four.
pub const TWENTY_FOUR: u32 = 0x41c0_0000;

/// The bits of thirty-six.
pub const THIRTY_SIX: u32 = 0x4210_0000;

/// A colour: one of those that the toolbar offers, or another by its channels.
#[derive(Clone, Copy, Debug, PartialEq, Eq, Structural)]
pub enum ColorRgba {
    Red,
    Yellow,
    Green,
    Blue,
    White,
    Black,
    Other { red: u8, green: u8, blue: u8, alpha: u8 },
}

/// The colours that the toolbar offers.
pub fn mvp_colors() -> (colors: [ColorRgba; 6])
    ensures
        colors@ == seq![
            ColorRgba::Red,
            ColorRgba::Yellow,
            ColorRgba::Green,
            ColorRgba::Blue,
            ColorRgba::White,
            ColorRgba::Black,
        ],
{
    let colors: [ColorRgba; 6] = [
        ColorRgba::Red,
        ColorRgba::Yellow,
        ColorRgba::Green,
        ColorRgba::Blue,
        ColorRgba::White,
        ColorRgba::Black,
    ];
    assert(colors@ =~= seq![
        ColorRgba::Red,
        ColorRgba::Yellow,
        ColorRgba::Green,
        ColorRgba::Blue,
        ColorRgba::White,
        ColorRgba::Black,
    ]);
    colors
}

/// The look of what a tool draws.
#[derive(Clone, Copy, Debug, PartialEq, Eq, Structural)]
pub struct ToolStyle {
    pub color_rgba: ColorRgba,
    pub width_px: u32,
    pub font_size_px: u32,
    pub hardness: u32,
}

/// The look of what a tool draws, unless the tool has another.
pub open spec fn usual_style() -> ToolStyle {
    ToolStyle {
        color_rgba: ColorRgba::Red,
        width_px: EIGHT,
        font_size_px: TWENTY_FOUR,
        hardness: ONE,
    }
}

/// The look of what a tool draws at the start: the labels of rectangles and texts are
/// larger, and a stroke is soft.
pub open spec fn first_style(tool: EditorTool) -> ToolStyle {
    match tool {
        EditorTool::Rectangle | EditorTool::Text => ToolStyle {
            font_size_px: THIRTY_SIX,
            ..usual_style()
        },
        EditorTool::Stroke => ToolStyle { hardness: ZERO, ..usual_style() },
        _ => usual_style(),
    }
}

impl Default for ToolStyle {
    fn default() -> (style: Self)
        ensures
            style == usual_style(),
    {
        ToolStyle {
            color_rgba: ColorRgba::Red,
            width_px: EIGHT,
            font_size_px: TWENTY_FOUR,
            hardness: ONE,
        }
    }
}

impl ToolStyle {
    /// A look.
    pub fn new(color_rgba: ColorRgba, width_px: u32, font_size_px: u32, hardness: u32) -> (style:
        Self)
        ensures
            style == (ToolStyle { color_rgba, width_px, font_size_px, hardness }),
    {
        ToolStyle { color_rgba, width_px, font_size_px, hardness }
    }
}

/// The looks of the tools at the start, in the order of the toolbar.
pub fn default_tool_styles() -> (styles: Vec<ToolStyle>)
    ensures
        styles@ == seq![
            first_style(EditorTool::Select),
            first_style(EditorTool::Rectangle),
            first_style(EditorTool::Arrow),
            first_style(EditorTool::Text),
            first_style(EditorTool::Stroke),
            first_style(EditorTool::Sequence),
        ],
{
    let mut styles: Vec<ToolStyle> = Vec::new();
    styles.push(ToolStyle::default());
    styles.push(ToolStyle::new(ColorRgba::Red, EIGHT, THIRTY_SIX, ONE));
    styles.push(ToolStyle::new(ColorRgba::Red, EIGHT, TWENTY_FOUR, ONE));
    styles.push(ToolStyle::new(ColorRgba::Red, EIGHT, THIRTY_SIX, ONE));
    styles.push(ToolStyle::new(ColorRgba::Red, EIGHT, TWENTY_FOUR, ZERO));
    styles.push(ToolStyle::new(ColorRgba::Red, EIGHT, TWENTY_FOUR, ONE));
    assert(styles@ =~= seq![
        first_style(EditorTool::Select),
        first_style(EditorTool::Rectangle),
        first_style(EditorTool::Arrow),
        first_style(EditorTool::Text),
        first_style(EditorTool::Stroke),
        first_style(EditorTool::Sequence),
    ]);
    styles
}

/// A change of a look.
#[derive(Clone, Copy, Debug)]
pub struct StyleChange {
    pub color_rgba: Option<ColorRgba>,
    pub width_px: Option<u32>,
    pub font_size_px: Option<u32>,
    pub hardness: Option<u32>,
}

impl StyleChange {
    /// Whether a change changes nothing.
    pub open spec fn empty(&self) -> bool {
        self.color_rgba is None && self.width_px is None && self.font_size_px is None
            && self.hardness is None
    }

    /// Whether a change changes nothing.
    pub fn is_empty(&self) -> (yes: bool)
        ensures
            yes == self.empty(),
    {
        self.color_rgba.is_none() && self.width_px.is_none() && self.font_size_px.is_none()
            && self.hardness.is_none()
    }
}

/// How the lines of a text are aligned.
#[derive(Clone, Copy, Debug, PartialEq, Eq, Structural)]
pub enum TextAlign {
    Left,
    Center,
    Right,
}

/// The look of a text.
#[derive(Clone, Copy, Debug, PartialEq, Eq, Structural)]
pub struct TextStyle {
    pub color_rgba: ColorRgba,
    pub font_size_px: u32,
    pub align: TextAlign,
}

/// The look of a line.
#[derive(Clone, Copy, Debug, PartialEq, Eq, Structural)]
pub struct StrokeStyle {
    pub color_rgba: ColorRgba,
    pub width_px: u32,
}

/// The label of an element; without a text it is not shown.
pub struct ElementLabel {
    pub text: Option<String>,
    pub text_style: TextStyle,
}

/// The edge of a rectangle.
#[derive(Clone, Copy, Debug, PartialEq, Eq, Structural)]
pub enum LabelEdge {
    Top,
    Right,
    Bottom,
    Left,
}

/// Whether a label stands inside its rectangle.
#[derive(Clone, Copy, Debug, PartialEq, Eq, Structural)]
pub enum LabelSide {
    Inside,
    Outside,
}

/// The place of a label at its rectangle.
#[derive(Clone, Copy, Debug, PartialEq, Eq, Structural)]
pub struct LabelAnchor {
    pub edge: LabelEdge,
    pub side: LabelSide,
    pub position: u32,
}

/// What an element shows.
pub enum ElementPayload {
    Stroke { stroke_style: StrokeStyle, hardness: u32 },
    Arrow {
        stroke_style: StrokeStyle,
        label: ElementLabel,
        /// Whether the arrow is long enough for a label.
        can_host_label: bool,
    },
    Rectangle {
        stroke_style: StrokeStyle,
        label: ElementLabel,
        label_anchor: LabelAnchor,
        preferred_label_anchor: LabelAnchor,
    },
    Text { anchor_px: Point, text: String, box_width_px: u32, text_style: TextStyle },
    SequenceMarker { fill_rgba: ColorRgba, stroke_style: StrokeStyle, text_style: TextStyle },
}

/// An element of a document.
pub struct Element {
    pub element_id: u128,
    pub z_index: i64,
    pub payload: ElementPayload,
}

/// A document as the editor sees it.
pub struct Board {
    pub elements: Vec<Element>,
}

/// The place of the first element that has an identifier.
pub open spec fn element_at(elements: Seq<Element>, element_id: u128) -> Option<int>
    decreases elements.len(),
{
    if elements.len() == 0 {
        None
    } else {
        match element_at(elements.drop_last(), element_id) {
            Some(at) => Some(at),
            None => if elements.last().element_id == element_id {
                Some(elements.len() - 1)
            } else {
                None
            },
        }
    }
}

impl Board {
    /// The element that has an identifier.
    pub open spec fn get(&self, element_id: u128) -> Option<Element> {
        match element_at(self.elements@, element_id) {
            Some(at) => Some(self.elements@[at]),
            None => None,
        }
    }

    /// The place of the element that has an identifier.
    pub fn find(&self, element_id: u128) -> (at: Option<usize>)
        ensures
            match at {
                Some(at) => at < self.elements@.len() && element_at(self.elements@, element_id)
                    == Some(at as int) && self.elements@[at as int].element_id == element_id,
                None => element_at(self.elements@, element_id) is None,
            },
    {
        for i in 0..self.elements.len()
            invariant
                element_at(self.elements@.take(i as int), element_id) is None,
        {
            assert(self.elements@.take(i + 1).drop_last() =~= self.elements@.take(i as int));
            if self.elements[i].element_id == element_id {
                proof {
                    lemma_found(self.elements@, element_id, i + 1);
                }
                return Some(i);
            }
        }
        assert(self.elements@.take(self.elements@.len() as int) =~= self.elements@);
        None
    }

    /// The element that has an identifier.
    pub fn element(&self, element_id: u128) -> (element: Option<&Element>)
        ensures
            match element {
                Some(element) => self.get(element_id) == Some(*element) && element.element_id
                    == element_id,
                None => self.get(element_id) is None,
            },
    {
        match self.find(element_id) {
            Some(at) => Some(&self.elements[at]),
            None => None,
        }
    }
}

/// What is found at the start of a list is found in the whole list.
proof fn lemma_found(elements: Seq<Element>, element_id: u128, n: int)
    requires
        0 <= n <= elements.len(),
        element_at(elements.take(n), element_id) is Some,
    ensures
        element_at(elements, element_id) == element_at(elements.take(n), element_id),
    decreases elements.len(),
{
    if n == elements.len() {
        assert(elements.take(n) =~= elements);
    } else {
        assert(elements.drop_last().take(n) =~= elements.take(n));
        lemma_found(elements.drop_last(), element_id, n);
    }
}

/// Whether a tool can select an element.
pub open spec fn selects(tool: EditorTool, payload: ElementPayload) -> bool {
    match tool {
        EditorTool::Select => true,
        EditorTool::Rectangle => payload is Rectangle,
        EditorTool::Arrow => payload is Arrow,
        EditorTool::Text => payload is Text,
        EditorTool::Sequence => payload is SequenceMarker,
        EditorTool::Stroke => false,
    }
}

/// Whether a tool can select an element.
pub fn tool_selects_element(tool: EditorTool, element: &Element) -> (yes: bool)
    ensures
        yes == selects(tool, element.payload),
{
    match tool {
        EditorTool::Select => true,
        EditorTool::Rectangle => match element.payload {
            ElementPayload::Rectangle { .. } => true,
            _ => false,
        },
        EditorTool::Arrow => match element.payload {
            ElementPayload::Arrow { .. } => true,
            _ => false,
        },
        EditorTool::Text => match element.payload {
            ElementPayload::Text { .. } => true,
            _ => false,
        },
        EditorTool::Sequence => match element.payload {
            ElementPayload::SequenceMarker { .. } => true,
            _ => false,
        },
        EditorTool::Stroke => false,
    }
}

/// The handle of a rectangle.
#[derive(Clone, Copy, Debug, PartialEq, Eq, Structural)]
pub enum RectangleHandle {
    TopLeft,
    Top,
    TopRight,
    Right,
    BottomRight,
    Bottom,
    BottomLeft,
    Left,
}

/// The end of an arrow.
#[derive(Clone, Copy, Debug, PartialEq, Eq, Structural)]
pub enum ArrowEndpoint {
    Start,
    End,
}

/// What of an element is at a point.
#[derive(Clone, Copy)]
pub struct ElementUnder {
    /// Whether the element is there.
    pub hit: bool,
    /// Whether its label is there.
    pub label: bool,
    /// The way from the point to the middle of its label.
    pub grab_offset_px: Point,
    /// The handle of a rectangle that is there.
    pub handle: Option<RectangleHandle>,
    /// The end of an arrow that is there.
    pub endpoint: Option<ArrowEndpoint>,
    /// The corners of a rectangle: the one with the least and the one with the greatest
    /// coordinates.
    pub body: (Point, Point),
}

/// Whether an element can be hit: the tool can select it, and it is at the point.
pub open spec fn candidate(
    elements: Seq<Element>,
    under: Seq<ElementUnder>,
    tool: EditorTool,
    at: int,
) -> bool {
    &&& 0 <= at < elements.len()
    &&& selects(tool, elements[at].payload)
    &&& under[at].hit
}

/// Whether an element is the one that is hit: the topmost of those that can be, and of
/// several at the same height the last.
pub open spec fn topmost(
    elements: Seq<Element>,
    under: Seq<ElementUnder>,
    tool: EditorTool,
    at: int,
) -> bool {
    &&& candidate(elements, under, tool, at)
    &&& forall|j: int| #[trigger]
        candidate(elements, under, tool, j) ==> elements[j].z_index < elements[at].z_index || (
        elements[j].z_index == elements[at].z_index && j <= at)
}

/// The place of the element that a tool hits at a point, given what is there.
pub open spec fn hit_at(elements: Seq<Element>, under: Seq<ElementUnder>, tool: EditorTool) -> Option<
    int,
> {
    if exists|at: int| #[trigger] topmost(elements, under, tool, at) {
        Some(choose|at: int| #[trigger] topmost(elements, under, tool, at))
    } else {
        None
    }
}

/// The element that a tool hits at a point, given what is there.
pub open spec fn hit_id(elements: Seq<Element>, under: Seq<ElementUnder>, tool: EditorTool) -> Option<
    u128,
> {
    match hit_at(elements, under, tool) {
        Some(at) => Some(elements[at].element_id),
        None => None,
    }
}

/// The topmost element that can be hit is the one that is hit.
pub proof fn lemma_hit_is(
    elements: Seq<Element>,
    under: Seq<ElementUnder>,
    tool: EditorTool,
    at: int,
)
    requires
        topmost(elements, under, tool, at),
    ensures
        hit_at(elements, under, tool) == Some(at),
{
    let chosen = choose|k: int| #[trigger] topmost(elements, under, tool, k);
    assert(topmost(elements, under, tool, chosen));
    assert(candidate(elements, under, tool, chosen));
    assert(candidate(elements, under, tool, at));
}

/// The element that a tool hits at a point, given what is there: with the tool for selecting,
/// any element can be hit, with another only those that the tool makes.
pub fn hit_test_document_for_tool(
    board: &Board,
    under: &Vec<ElementUnder>,
    tool: EditorTool,
) -> (hit: Option<u128>)
    requires
        under@.len() == board.elements@.len(),
    ensures
        hit == hit_id(board.elements@, under@, tool),
{
    let ghost elements = board.elements@;
    let mut best: Option<usize> = None;
    for i in 0..board.elements.len()
        invariant
            elements == board.elements@,
            under@.len() == elements.len(),
            match best {
                Some(at) => {
                    &&& at < i
                    &&& candidate(elements, under@, tool, at as int)
                    &&& forall|j: int|
                        j < i && #[trigger] candidate(elements, under@, tool, j)
                            ==> elements[j].z_index < elements[at as int].z_index || (
                        elements[j].z_index == elements[at as int].z_index && j <= at)
                },
                None => forall|j: int|
                    j < i ==> !#[trigger] candidate(elements, under@, tool, j),
            },
    {
        if tool_selects_element(tool, &board.elements[i]) && under[i].hit {
            assert(candidate(elements, under@, tool, i as int));
            let better = match best {
                Some(at) => board.elements[i].z_index >= board.elements[at].z_index,
                None => true,
            };
            if better {
                best = Some(i);
            }
        }
    }
    match best {
        Some(at) => {
            proof {
                assert(topmost(elements, under@, tool, at as int));
                lemma_hit_is(elements, under@, tool, at as int);
            }
            Some(board.elements[at].element_id)
        },
        None => None,
    }
}

/// The element at a point, given what is there.
pub fn hit_test_document(board: &Board, under: &Vec<ElementUnder>) -> (hit: Option<u128>)
    requires
        under@.len() == board.elements@.len(),
    ensures
        hit == hit_id(board.elements@, under@, EditorTool::Select),
{
    hit_test_document_for_tool(board, under, EditorTool::Select)
}

/// What is hit can be selected by the tool and is at the point, and nothing that can be hit
/// lies above it, nor after it at the same height.
pub proof fn law_hit_is_on_top(
    elements: Seq<Element>,
    under: Seq<ElementUnder>,
    tool: EditorTool,
    other: int,
)
    requires
        candidate(elements, under, tool, other),
    ensures
        ({
            &&& hit_at(elements, under, tool) matches Some(at)
            &&& candidate(elements, under, tool, at)
            &&& elements[other].z_index <= elements[at].z_index
            &&& elements[other].z_index == elements[at].z_index ==> other <= at
        }),
    decreases elements.len(),
{
    lemma_some_topmost(elements, under, tool, other, elements.len() as int);
    let at = choose|k: int| #[trigger] topmost(elements, under, tool, k);
    lemma_hit_is(elements, under, tool, at);
}

proof fn lemma_some_topmost(
    elements: Seq<Element>,
    under: Seq<ElementUnder>,
    tool: EditorTool,
    other: int,
    n: int,
)
    requires
        candidate(elements, under, tool, other),
        0 <= n <= elements.len(),
        forall|j: int| #[trigger]
            candidate(elements, under, tool, j) && j >= n ==> elements[j].z_index
                < elements[other].z_index || (elements[j].z_index == elements[other].z_index && j
                <= other),
    ensures
        exists|at: int| #[trigger] topmost(elements, under, tool, at),
    decreases n,
{
    if n == 0 {
        assert(topmost(elements, under, tool, other));
    } else {
        let k = n - 1;
        if candidate(elements, under, tool, k) && (elements[k].z_index > elements[other].z_index
            || (elements[k].z_index == elements[other].z_index && k > other)) {
            lemma_some_topmost(elements, under, tool, k, k);
        } else {
            lemma_some_topmost(elements, under, tool, other, k);
        }
    }
}

/// Whether a single click on an element, or on its label, starts to edit its text.
pub open spec fn edits_on_click(payload: ElementPayload, on_label: bool) -> bool {
    match payload {
        ElementPayload::Text { .. } => true,
        ElementPayload::Arrow { .. } | ElementPayload::Rectangle { .. } => on_label,
        _ => false,
    }
}

/// Whether a double click on an element, or on its label, starts to edit its text: also where
/// its label is not shown.
pub open spec fn edits_on_double_click(payload: ElementPayload, on_label: bool) -> bool {
    match payload {
        ElementPayload::Text { .. } => true,
        ElementPayload::Arrow { label, .. } => label.text is None || on_label,
        ElementPayload::Rectangle { label, .. } => label.text is None || on_label,
        _ => false,
    }
}

/// Whether a single click on an element starts to edit its text.
pub fn single_click_starts_editing(board: &Board, element_id: u128, under: &Vec<ElementUnder>) -> (yes:
    bool)
    requires
        under@.len() == board.elements@.len(),
    ensures
        yes == match element_at(board.elements@, element_id) {
            Some(at) => edits_on_click(board.elements@[at].payload, under@[at].label),
            None => false,
        },
{
    match board.find(element_id) {
        Some(at) => match board.elements[at].payload {
            ElementPayload::Text { .. } => true,
            ElementPayload::Arrow { .. } => under[at].label,
            ElementPayload::Rectangle { .. } => under[at].label,
            _ => false,
        },
        None => false,
    }
}

/// Whether a double click on an element starts to edit its text.
pub fn double_click_starts_editing(board: &Board, element_id: u128, under: &Vec<ElementUnder>) -> (yes:
    bool)
    requires
        under@.len() == board.elements@.len(),
    ensures
        yes == match element_at(board.elements@, element_id) {
            Some(at) => edits_on_double_click(board.elements@[at].payload, under@[at].label),
            None => false,
        },
{
    match board.find(element_id) {
        Some(at) => match &board.elements[at].payload {
            ElementPayload::Text { .. } => true,
            ElementPayload::Arrow { stroke_style: _, label, can_host_label: _ } => {
                label.text.is_none() || under[at].label
            },
            ElementPayload::Rectangle {
                stroke_style: _,
                label,
                label_anchor: _,
                preferred_label_anchor: _,
            } => { label.text.is_none() || under[at].label },
            _ => false,
        },
        None => false,
    }
}

/// Where one click starts to edit a text, two do so too.
pub proof fn law_double_click_does_what_a_click_does(payload: ElementPayload, on_label: bool)
    requires
        edits_on_click(payload, on_label),
    ensures
        edits_on_double_click(payload, on_label),
{
}

/// The look of an element.
pub open spec fn style_of(payload: ElementPayload) -> ToolStyle {
    match payload {
        ElementPayload::Stroke { stroke_style, hardness } => ToolStyle {
            color_rgba: stroke_style.color_rgba,
            width_px: stroke_style.width_px,
            font_size_px: TWENTY_FOUR,
            hardness,
        },
        ElementPayload::Arrow { stroke_style, label, .. } => ToolStyle {
            color_rgba: stroke_style.color_rgba,
            width_px: stroke_style.width_px,
            font_size_px: label.text_style.font_size_px,
            hardness: ONE,
        },
        ElementPayload::Rectangle { stroke_style, label, .. } => ToolStyle {
            color_rgba: stroke_style.color_rgba,
            width_px: stroke_style.width_px,
            font_size_px: label.text_style.font_size_px,
            hardness: ONE,
        },
        ElementPayload::Text { text_style, .. } => ToolStyle {
            color_rgba: text_style.color_rgba,
            width_px: EIGHT,
            font_size_px: text_style.font_size_px,
            hardness: ONE,
        },
        ElementPayload::SequenceMarker { fill_rgba, stroke_style, text_style } => ToolStyle {
            color_rgba: fill_rgba,
            width_px: stroke_style.width_px,
            font_size_px: text_style.font_size_px,
            hardness: ONE,
        },
    }
}

/// The look of an element.
pub fn style_for_element(element: &Element) -> (style: ToolStyle)
    ensures
        style == style_of(element.payload),
{
    match &element.payload {
        ElementPayload::Stroke { stroke_style, hardness } => ToolStyle::new(
            stroke_style.color_rgba,
            stroke_style.width_px,
            TWENTY_FOUR,
            *hardness,
        ),
        ElementPayload::Arrow { stroke_style, label, can_host_label: _ } => ToolStyle::new(
            stroke_style.color_rgba,
            stroke_style.width_px,
            label.text_style.font_size_px,
            ONE,
        ),
        ElementPayload::Rectangle {
            stroke_style,
            label,
            label_anchor: _,
            preferred_label_anchor: _,
        } => ToolStyle::new(
            stroke_style.color_rgba,
            stroke_style.width_px,
            label.text_style.font_size_px,
            ONE,
        ),
        ElementPayload::Text { anchor_px: _, text: _, box_width_px: _, text_style } => {
            ToolStyle::new(text_style.color_rgba, EIGHT, text_style.font_size_px, ONE)
        },
        ElementPayload::SequenceMarker { fill_rgba, stroke_style, text_style } => {
            ToolStyle::new(*fill_rgba, stroke_style.width_px, text_style.font_size_px, ONE)
        },
    }
}

/// The corners of a rectangle after a handle was dragged to a point: each handle moves the
/// coordinates that it stands for, and no others.
pub open spec fn dragged_corners(
    original: (Point, Point),
    handle: RectangleHandle,
    current: Point,
) -> (Point, Point) {
    let (minimum, maximum) = original;
    let left = handle is TopLeft || handle is Left || handle is BottomLeft;
    let right = handle is TopRight || handle is Right || handle is BottomRight;
    let top = handle is TopLeft || handle is Top || handle is TopRight;
    let bottom = handle is BottomLeft || handle is Bottom || handle is BottomRight;
    (
        Point {
            x: if left {
                current.x
            } else {
                minimum.x
            },
            y: if top {
                current.y
            } else {
                minimum.y
            },
        },
        Point {
            x: if right {
                current.x
            } else {
                maximum.x
            },
            y: if bottom {
                current.y
            } else {
                maximum.y
            },
        },
    )
}

/// The corners of a rectangle after a handle was dragged to a point.
pub fn resized_rectangle(original: (Point, Point), handle: RectangleHandle, current: Point) -> (corners:
    (Point, Point))
    ensures
        corners == dragged_corners(original, handle, current),
{
    let (minimum, maximum) = original;
    match handle {
        RectangleHandle::TopLeft => (current, maximum),
        RectangleHandle::Top => (Point { x: minimum.x, y: current.y }, maximum),
        RectangleHandle::TopRight => (
            Point { x: minimum.x, y: current.y },
            Point { x: current.x, y: maximum.y },
        ),
        RectangleHandle::Right => (minimum, Point { x: current.x, y: maximum.y }),
        RectangleHandle::BottomRight => (minimum, current),
        RectangleHandle::Bottom => (minimum, Point { x: maximum.x, y: current.y }),
        RectangleHandle::BottomLeft => (
            Point { x: current.x, y: minimum.y },
            Point { x: maximum.x, y: current.y },
        ),
        RectangleHandle::Left => (Point { x: current.x, y: minimum.y }, maximum),
    }
}

/// Which coordinate of a rectangle is moved so that the rectangle is not too small.
#[derive(Clone, Copy, Debug, PartialEq, Eq, Structural)]
pub enum MovedCoordinate {
    /// None.
    Neither,
    /// That of the corner with the least coordinates.
    Minimum,
    /// That of the corner with the greatest coordinates.
    Maximum,
}

/// Which coordinates, across and down, are moved so that a rectangle whose handle was dragged
/// is not too small: those that the handle moves.
pub fn minimum_resize_moves(handle: RectangleHandle) -> (moves: (MovedCoordinate, MovedCoordinate))
    ensures
        forall|original: (Point, Point), current: Point|
            #![trigger dragged_corners(original, handle, current)]
            {
                let corners = dragged_corners(original, handle, current);
                &&& moves.0 != MovedCoordinate::Minimum ==> corners.0.x == original.0.x
                &&& moves.0 != MovedCoordinate::Maximum ==> corners.1.x == original.1.x
                &&& moves.1 != MovedCoordinate::Minimum ==> corners.0.y == original.0.y
                &&& moves.1 != MovedCoordinate::Maximum ==> corners.1.y == original.1.y
                &&& moves.0 == MovedCoordinate::Minimum ==> corners.0.x == current.x
                &&& moves.0 == MovedCoordinate::Maximum ==> corners.1.x == current.x
                &&& moves.1 == MovedCoordinate::Minimum ==> corners.0.y == current.y
                &&& moves.1 == MovedCoordinate::Maximum ==> corners.1.y == current.y
            },
        moves.0 == (match handle {
            RectangleHandle::TopLeft | RectangleHandle::Left | RectangleHandle::BottomLeft => {
                MovedCoordinate::Minimum
            },
            RectangleHandle::TopRight | RectangleHandle::Right | RectangleHandle::BottomRight => {
                MovedCoordinate::Maximum
            },
            _ => MovedCoordinate::Neither,
        }),
        moves.1 == (match handle {
            RectangleHandle::TopLeft | RectangleHandle::Top | RectangleHandle::TopRight => {
                MovedCoordinate::Minimum
            },
            RectangleHandle::BottomLeft | RectangleHandle::Bottom | RectangleHandle::BottomRight => {
                MovedCoordinate::Maximum
            },
            _ => MovedCoordinate::Neither,
        }),
{
    match handle {
        RectangleHandle::TopLeft => (MovedCoordinate::Minimum, MovedCoordinate::Minimum),
        RectangleHandle::Top => (MovedCoordinate::Neither, MovedCoordinate::Minimum),
        RectangleHandle::TopRight => (MovedCoordinate::Maximum, MovedCoordinate::Minimum),
        RectangleHandle::Right => (MovedCoordinate::Maximum, MovedCoordinate::Neither),
        RectangleHandle::BottomRight => (MovedCoordinate::Maximum, MovedCoordinate::Maximum),
        RectangleHandle::Bottom => (MovedCoordinate::Neither, MovedCoordinate::Maximum),
        RectangleHandle::BottomLeft => (MovedCoordinate::Minimum, MovedCoordinate::Maximum),
        RectangleHandle::Left => (MovedCoordinate::Minimum, MovedCoordinate::Neither),
    }
}

/// A rectangle whose handle is dragged to where the handle stands stays as it is.
pub proof fn law_dragging_nowhere_changes_nothing(original: (Point, Point))
    ensures
        dragged_corners(original, RectangleHandle::TopLeft, original.0) == original,
        dragged_corners(original, RectangleHandle::BottomRight, original.1) == original,
        dragged_corners(
            original,
            RectangleHandle::TopRight,
            Point { x: original.1.x, y: original.0.y },
        ) == original,
        dragged_corners(
            original,
            RectangleHandle::BottomLeft,
            Point { x: original.0.x, y: original.1.y },
        ) == original,
{
}

} // verus!
