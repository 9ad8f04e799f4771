//! The commands that the editor gives: how the labels of rectangles that move out of each
//! other's way join the command that made them move, and what is shown of a command before it
//! is carried out.

use vstd::prelude::*;

use crate::board::{
    element_at, ArrowEndpoint, Board, ColorRgba, Element, ElementPayload, LabelAnchor, StyleChange,
    TextStyle,
};
use crate::scale::{equal_numbers, numbers_equal};
use crate::stylus::Point;

verus! {

/// A command that changes a document.
#[allow(inconsistent_fields)]
pub enum DocumentCommand {
    AddElement { element: Element },
    UpdateText { element_id: u128, text: String, box_width_px: u32, text_style: TextStyle },
    UpdateElementLabel { element_id: u128, text: Option<String> },
    MoveElement { element_id: u128, delta_px: Point },
    ResizeRectangle { element_id: u128, start_px: Point, end_px: Point },
    UpdateArrowEndpoint { element_id: u128, endpoint: ArrowEndpoint, position_px: Point },
    SetRectangleLabelPlacement {
        element_id: u128,
        preferred_anchor: LabelAnchor,
        actual_anchor: LabelAnchor,
    },
    ChangeElementStyle { element_id: u128, change: StyleChange },
    DeleteElement { element_id: u128 },
    BringForward { element_id: u128 },
    SendBackward { element_id: u128 },
    BringToFront { element_id: u128 },
    SendToBack { element_id: u128 },
}

/// Something that the editor asks for.
pub enum EditorAction {
    /// Carry out commands, as one step.
    Command(Vec<DocumentCommand>),
    /// Show a notice.
    Toast(&'static str),
    GlobalColorChanged { color_rgba: ColorRgba },
    Undo,
    Redo,
    Save,
    Close,
    Copy,
    Paste { position: Point },
}

/// The place that a label gets so that it is in no other's way.
#[derive(Clone, Copy)]
pub struct LabelSolution {
    pub element_id: u128,
    pub preferred_anchor: LabelAnchor,
    pub actual_anchor: LabelAnchor,
    /// Whether the bounds of the element can be found once its label stands there.
    pub bounds_known: bool,
}

/// Whether two places of a label are the same.
pub open spec fn same_anchor(left: LabelAnchor, right: LabelAnchor) -> bool {
    left.edge == right.edge && left.side == right.side && equal_numbers(
        left.position,
        right.position,
    )
}

/// Whether two places of a label are the same.
pub fn is_same_anchor(left: LabelAnchor, right: LabelAnchor) -> (yes: bool)
    ensures
        yes == same_anchor(left, right),
{
    left.edge == right.edge && left.side == right.side && numbers_equal(
        left.position,
        right.position,
    )
}

/// The height of an element in a document.
pub open spec fn height(board: Board, element_id: u128) -> Option<i64> {
    match board.get(element_id) {
        Some(element) => Some(element.z_index),
        None => None,
    }
}

/// Whether a place comes before another: that of the higher element; of elements at the same
/// height, that of the one with the smaller identifier; last those of elements that are not
/// there.
pub open spec fn comes_before(staged: Board, left: LabelSolution, right: LabelSolution) -> bool {
    match (height(staged, left.element_id), height(staged, right.element_id)) {
        (Some(l), Some(r)) => l > r || (l == r && left.element_id < right.element_id),
        (Some(_), None) => true,
        (None, Some(_)) => false,
        (None, None) => left.element_id < right.element_id,
    }
}

fn is_before(staged: &Board, left: &LabelSolution, right: &LabelSolution) -> (yes: bool)
    ensures
        yes == comes_before(*staged, *left, *right),
{
    let left_element = staged.element(left.element_id);
    let right_element = staged.element(right.element_id);
    match (left_element, right_element) {
        (Some(l), Some(r)) => l.z_index > r.z_index || (l.z_index == r.z_index && left.element_id
            < right.element_id),
        (Some(_), None) => true,
        (None, Some(_)) => false,
        (None, None) => left.element_id < right.element_id,
    }
}

/// A sorted list with one more place, behind those that it does not come before.
pub open spec fn with_solution(
    staged: Board,
    sorted: Seq<LabelSolution>,
    solution: LabelSolution,
) -> Seq<LabelSolution>
    decreases sorted.len(),
{
    if sorted.len() == 0 || !comes_before(staged, solution, sorted.last()) {
        sorted.push(solution)
    } else {
        with_solution(staged, sorted.drop_last(), solution).push(sorted.last())
    }
}

/// The places in their order.
pub open spec fn in_order(staged: Board, solutions: Seq<LabelSolution>) -> Seq<LabelSolution>
    decreases solutions.len(),
{
    if solutions.len() == 0 {
        Seq::empty()
    } else {
        with_solution(staged, in_order(staged, solutions.drop_last()), solutions.last())
    }
}

proof fn lemma_with_solution(
    staged: Board,
    sorted: Seq<LabelSolution>,
    solution: LabelSolution,
    at: int,
)
    requires
        0 <= at <= sorted.len(),
        forall|j: int| at <= j < sorted.len() ==> comes_before(staged, solution, sorted[j]),
        at > 0 ==> !comes_before(staged, solution, sorted[at - 1]),
    ensures
        with_solution(staged, sorted, solution) == sorted.insert(at, solution),
    decreases sorted.len(),
{
    if at == sorted.len() {
        assert(sorted.push(solution) =~= sorted.insert(at, solution));
    } else {
        lemma_with_solution(staged, sorted.drop_last(), solution, at);
        assert(sorted.drop_last().insert(at, solution).push(sorted.last()) =~= sorted.insert(
            at,
            solution,
        ));
    }
}

fn sort_solutions(staged: &Board, solutions: &Vec<LabelSolution>) -> (sorted: Vec<LabelSolution>)
    ensures
        sorted@ == in_order(*staged, solutions@),
{
    let mut sorted: Vec<LabelSolution> = Vec::new();
    for i in 0..solutions.len()
        invariant
            sorted@ == in_order(*staged, solutions@.take(i as int)),
    {
        let solution = solutions[i];
        let ghost before = sorted@;
        let mut at: usize = sorted.len();
        while at > 0 && is_before(staged, &solution, &sorted[at - 1])
            invariant
                at <= sorted@.len(),
                sorted@ == before,
                forall|j: int|
                    at <= j < sorted@.len() ==> comes_before(*staged, solution, sorted@[j]),
            decreases at,
        {
            at = at - 1;
        }
        sorted.insert(at, solution);
        proof {
            lemma_with_solution(*staged, before, solution, at as int);
            assert(solutions@.take(i + 1).drop_last() =~= solutions@.take(i as int));
        }
    }
    assert(solutions@.take(solutions@.len() as int) =~= solutions@);
    sorted
}

/// The place of the first command that adds an element.
pub open spec fn added_at(commands: Seq<DocumentCommand>, element_id: u128) -> Option<int>
    decreases commands.len(),
{
    if commands.len() == 0 {
        None
    } else {
        match added_at(commands.drop_last(), element_id) {
            Some(at) => Some(at),
            None => match commands.last() {
                DocumentCommand::AddElement { element } if element.element_id == element_id => {
                    Some(commands.len() - 1)
                },
                _ => None,
            },
        }
    }
}

/// An element with its label at another place.
pub open spec fn relabelled(element: Element, solution: LabelSolution) -> Element {
    match element.payload {
        ElementPayload::Rectangle { stroke_style, label, .. } => Element {
            payload: ElementPayload::Rectangle {
                stroke_style,
                label,
                label_anchor: solution.actual_anchor,
                preferred_label_anchor: solution.preferred_anchor,
            },
            ..element
        },
        _ => element,
    }
}

/// The commands with the place of a label in the command that adds its rectangle, and whether
/// that is all that is needed.
pub open spec fn with_added_placed(commands: Seq<DocumentCommand>, solution: LabelSolution) -> (
    Seq<DocumentCommand>,
    bool,
) {
    match added_at(commands, solution.element_id) {
        Some(at) => match commands[at] {
            DocumentCommand::AddElement { element } if element.payload is Rectangle => (
                commands.update(
                    at,
                    DocumentCommand::AddElement { element: relabelled(element, solution) },
                ),
                solution.bounds_known,
            ),
            _ => (commands, false),
        },
        None => (commands, false),
    }
}

proof fn lemma_added_found(commands: Seq<DocumentCommand>, element_id: u128, n: int)
    requires
        0 <= n <= commands.len(),
        added_at(commands.take(n), element_id) is Some,
    ensures
        added_at(commands, element_id) == added_at(commands.take(n), element_id),
    decreases commands.len(),
{
    if n == commands.len() {
        assert(commands.take(n) =~= commands);
    } else {
        assert(commands.drop_last().take(n) =~= commands.take(n));
        lemma_added_found(commands.drop_last(), element_id, n);
    }
}

fn find_added(commands: &Vec<DocumentCommand>, element_id: u128) -> (at: Option<usize>)
    ensures
        match at {
            Some(at) => {
                &&& at < commands@.len()
                &&& added_at(commands@, element_id) == Some(at as int)
                &&& commands@[at as int] is AddElement
            },
            None => added_at(commands@, element_id) is None,
        },
{
    for i in 0..commands.len()
        invariant
            added_at(commands@.take(i as int), element_id) is None,
    {
        assert(commands@.take(i + 1).drop_last() =~= commands@.take(i as int));
        if let DocumentCommand::AddElement { element } = &commands[i] {
            if element.element_id == element_id {
                proof {
                    lemma_added_found(commands@, element_id, i + 1);
                }
                return Some(i);
            }
        }
    }
    assert(commands@.take(commands@.len() as int) =~= commands@);
    None
}

/// Puts the place of a label into the command that adds its rectangle. Says whether that is
/// all that is needed.
pub fn update_added_rectangle_solution(commands: &mut Vec<DocumentCommand>, solution: LabelSolution) -> (done:
    bool)
    ensures
        (final(commands)@, done) == with_added_placed(old(commands)@, solution),
{
    match find_added(commands, solution.element_id) {
        None => false,
        Some(at) => {
            let ghost all = commands@;
            let command = commands.remove(at);
            let mut done = false;
            let placed = match command {
                DocumentCommand::AddElement { element } => {
                    let Element { element_id, z_index, payload } = element;
                    let payload = match payload {
                        ElementPayload::Rectangle {
                            stroke_style,
                            label,
                            label_anchor: _,
                            preferred_label_anchor: _,
                        } => {
                            done = solution.bounds_known;
                            ElementPayload::Rectangle {
                                stroke_style,
                                label,
                                label_anchor: solution.actual_anchor,
                                preferred_label_anchor: solution.preferred_anchor,
                            }
                        },
                        other => other,
                    };
                    DocumentCommand::AddElement {
                        element: Element { element_id, z_index, payload },
                    }
                },
                other => other,
            };
            commands.insert(at, placed);
            assert(commands@ =~= all.update(at as int, placed));
            assert(commands@ =~= with_added_placed(all, solution).0);
            done
        },
    }
}

/// The commands with one more label put in its place: not where the element is no rectangle
/// or its label stands there already, in the command that adds the element where one does,
/// and else by a command of its own.
pub open spec fn with_placement(
    commands: Seq<DocumentCommand>,
    document: Board,
    staged: Board,
    solution: LabelSolution,
) -> Seq<DocumentCommand> {
    let placement = DocumentCommand::SetRectangleLabelPlacement {
        element_id: solution.element_id,
        preferred_anchor: solution.preferred_anchor,
        actual_anchor: solution.actual_anchor,
    };
    match staged.get(solution.element_id) {
        Some(Element {
            payload: ElementPayload::Rectangle { label_anchor, preferred_label_anchor, .. },
            ..
        }) => if same_anchor(preferred_label_anchor, solution.preferred_anchor) && same_anchor(
            label_anchor,
            solution.actual_anchor,
        ) {
            commands
        } else if document.get(solution.element_id) is None {
            let (placed, done) = with_added_placed(commands, solution);
            if done {
                placed
            } else {
                placed.push(placement)
            }
        } else {
            commands.push(placement)
        },
        _ => commands,
    }
}

/// The commands with all labels put in their places.
pub open spec fn with_placements(
    commands: Seq<DocumentCommand>,
    document: Board,
    staged: Board,
    solutions: Seq<LabelSolution>,
) -> Seq<DocumentCommand>
    decreases solutions.len(),
{
    if solutions.len() == 0 {
        commands
    } else {
        with_placement(
            with_placements(commands, document, staged, solutions.drop_last()),
            document,
            staged,
            solutions.last(),
        )
    }
}

fn place_label(
    commands: &mut Vec<DocumentCommand>,
    document: &Board,
    staged: &Board,
    solution: LabelSolution,
)
    ensures
        final(commands)@ == with_placement(old(commands)@, *document, *staged, solution),
{
    let anchors = match staged.element(solution.element_id) {
        Some(element) => match &element.payload {
            ElementPayload::Rectangle {
                stroke_style: _,
                label: _,
                label_anchor,
                preferred_label_anchor,
            } => Some((*label_anchor, *preferred_label_anchor)),
            _ => None,
        },
        None => None,
    };
    if let Some((label_anchor, preferred_label_anchor)) = anchors {
        if is_same_anchor(preferred_label_anchor, solution.preferred_anchor) && is_same_anchor(
            label_anchor,
            solution.actual_anchor,
        ) {
            return ;
        }
        if document.element(solution.element_id).is_none() && update_added_rectangle_solution(
            commands,
            solution,
        ) {
            return ;
        }
        commands.push(
            DocumentCommand::SetRectangleLabelPlacement {
                element_id: solution.element_id,
                preferred_anchor: solution.preferred_anchor,
                actual_anchor: solution.actual_anchor,
            },
        );
    }
}

/// Joins the places that labels get to the commands that made them move, given the document
/// before and after those commands.
pub fn rectangle_reflow_batch(
    document: &Board,
    staged: &Board,
    commands: Vec<DocumentCommand>,
    solutions: &Vec<LabelSolution>,
) -> (batch: Vec<DocumentCommand>)
    ensures
        batch@ == with_placements(
            commands@,
            *document,
            *staged,
            in_order(*staged, solutions@),
        ),
{
    let ghost first = commands@;
    let sorted = sort_solutions(staged, solutions);
    let mut batch = commands;
    for i in 0..sorted.len()
        invariant
            batch@ == with_placements(first, *document, *staged, sorted@.take(i as int)),
    {
        place_label(&mut batch, document, staged, sorted[i]);
        assert(sorted@.take(i + 1).drop_last() =~= sorted@.take(i as int));
    }
    assert(sorted@.take(sorted@.len() as int) =~= sorted@);
    batch
}

/// Whether two commands are the same but for the place of a label that one of them gives to
/// the rectangle that it adds.
pub open spec fn same_but_for_label(left: DocumentCommand, right: DocumentCommand) -> bool {
    match (left, right) {
        (
            DocumentCommand::AddElement { element: before },
            DocumentCommand::AddElement { element: after },
        ) => before == after || (before.payload is Rectangle && after.payload is Rectangle
            && before.element_id == after.element_id && before.z_index == after.z_index),
        _ => left == right,
    }
}

/// However labels move, the commands that made them move come first, in their order, and
/// change at most in the places of the labels of rectangles that they add; all that follows
/// them puts labels in their places.
pub proof fn law_reflow_keeps_the_commands(
    commands: Seq<DocumentCommand>,
    document: Board,
    staged: Board,
    solutions: Seq<LabelSolution>,
)
    ensures
        ({
            let batch = with_placements(commands, document, staged, solutions);
            &&& batch.len() >= commands.len()
            &&& forall|i: int|
                0 <= i < commands.len() ==> same_but_for_label(
                    commands[i],
                    #[trigger] batch[i],
                )
            &&& forall|i: int|
                commands.len() <= i < batch.len() ==> (
                #[trigger] batch[i]) is SetRectangleLabelPlacement
        }),
    decreases solutions.len(),
{
    if solutions.len() > 0 {
        law_reflow_keeps_the_commands(commands, document, staged, solutions.drop_last());
        let before = with_placements(commands, document, staged, solutions.drop_last());
        let solution = solutions.last();
        lemma_added_at(before, solution.element_id);
        let batch = with_placements(commands, document, staged, solutions);
        assert forall|i: int| 0 <= i < commands.len() implies same_but_for_label(
            commands[i],
            #[trigger] batch[i],
        ) by {
            assert(same_but_for_label(commands[i], before[i]));
        }
        assert forall|i: int| commands.len() <= i < batch.len() implies (
        #[trigger] batch[i]) is SetRectangleLabelPlacement by {
            if i < before.len() {
                assert(before[i] is SetRectangleLabelPlacement);
            }
        }
    }
}

proof fn lemma_added_at(commands: Seq<DocumentCommand>, element_id: u128)
    ensures
        added_at(commands, element_id) matches Some(at) ==> 0 <= at < commands.len()
            && commands[at] is AddElement,
    decreases commands.len(),
{
    if commands.len() > 0 {
        lemma_added_at(commands.drop_last(), element_id);
    }
}

/// The text that the last of some commands gives to the label of an element.
pub open spec fn label_in(commands: Seq<DocumentCommand>, element_id: u128) -> Option<
    Option<String>,
>
    decreases commands.len(),
{
    if commands.len() == 0 {
        None
    } else {
        match commands.last() {
            DocumentCommand::UpdateElementLabel { element_id: id, text } if id == element_id => {
                Some(text)
            },
            _ => label_in(commands.drop_last(), element_id),
        }
    }
}

/// The text that the last of some actions gives to the label of an element.
pub open spec fn pending_label(actions: Seq<EditorAction>, element_id: u128) -> Option<
    Option<String>,
>
    decreases actions.len(),
{
    if actions.len() == 0 {
        None
    } else {
        match actions.last() {
            EditorAction::Command(batch) => match label_in(batch@, element_id) {
                Some(text) => Some(text),
                None => pending_label(actions.drop_last(), element_id),
            },
            _ => pending_label(actions.drop_last(), element_id),
        }
    }
}

fn copy_label(text: &Option<String>) -> (copy: Option<String>)
    ensures
        copy == *text,
{
    match text {
        Some(text) => Some(text.clone()),
        None => None,
    }
}

fn find_label(commands: &Vec<DocumentCommand>, element_id: u128) -> (text: Option<Option<String>>)
    ensures
        text == label_in(commands@, element_id),
{
    let mut i: usize = commands.len();
    assert(commands@.take(i as int) =~= commands@);
    while i > 0
        invariant
            i <= commands@.len(),
            label_in(commands@, element_id) == label_in(commands@.take(i as int), element_id),
        decreases i,
    {
        i = i - 1;
        assert(commands@.take(i + 1).drop_last() =~= commands@.take(i as int));
        if let DocumentCommand::UpdateElementLabel { element_id: id, text } = &commands[i] {
            if *id == element_id {
                return Some(copy_label(text));
            }
        }
    }
    None
}

/// The text that the last of some actions gives to the label of an element.
pub fn pending_element_label_text(actions: &Vec<EditorAction>, element_id: u128) -> (text: Option<
    Option<String>,
>)
    ensures
        text == pending_label(actions@, element_id),
{
    let mut i: usize = actions.len();
    assert(actions@.take(i as int) =~= actions@);
    while i > 0
        invariant
            i <= actions@.len(),
            pending_label(actions@, element_id) == pending_label(
                actions@.take(i as int),
                element_id,
            ),
        decreases i,
    {
        i = i - 1;
        assert(actions@.take(i + 1).drop_last() =~= actions@.take(i as int));
        if let EditorAction::Command(batch) = &actions[i] {
            let found = find_label(batch, element_id);
            if found.is_some() {
                return found;
            }
        }
    }
    None
}

/// The elements that look other than before: those that are new, and those of which it is
/// told.
pub open spec fn changed_ids(document: Board, staged: Seq<Element>, same_look: Seq<bool>) -> Seq<u128>
    decreases staged.len(),
{
    if staged.len() == 0 {
        Seq::empty()
    } else {
        let before = changed_ids(document, staged.drop_last(), same_look);
        let at = staged.len() - 1;
        if element_at(document.elements@, staged[at].element_id) is None || !same_look[at] {
            before.push(staged[at].element_id)
        } else {
            before
        }
    }
}

/// The elements that are shown other than the document has them while commands are not yet
/// carried out, given the elements after the commands and which of them look as before.
pub fn preview_set_after_batch(document: &Board, staged: &Board, same_look: &Vec<bool>) -> (changed:
    Vec<u128>)
    requires
        same_look@.len() == staged.elements@.len(),
    ensures
        changed@ == changed_ids(*document, staged.elements@, same_look@),
{
    let mut changed: Vec<u128> = Vec::new();
    for i in 0..staged.elements.len()
        invariant
            same_look@.len() == staged.elements@.len(),
            changed@ == changed_ids(*document, staged.elements@.take(i as int), same_look@),
    {
        let element_id: u128 = staged.elements[i].element_id;
        assert(staged.elements@.take(i + 1).drop_last() =~= staged.elements@.take(i as int));
        if document.find(element_id).is_none() || !same_look[i] {
            changed.push(element_id);
        }
    }
    assert(staged.elements@.take(staged.elements@.len() as int) =~= staged.elements@);
    changed
}

/// What two elements have in common, apart from what they have exactly in common.
#[derive(Clone, Copy)]
pub struct Likeness {
    /// Whether they are equal in all.
    pub equal: bool,
    /// Whether both are rectangles with the same body, look and label.
    pub same_rectangle: bool,
    /// Whether their labels stand at nearly the same places.
    pub near_anchors: bool,
    /// Whether their bounds are nearly the same.
    pub near_bounds: bool,
}

/// Whether an element looks as it did before a command.
pub fn elements_equivalent_for_preview(before: &Element, after: &Element, likeness: Likeness) -> (yes:
    bool)
    ensures
        yes == (likeness.equal || (before.element_id == after.element_id && before.z_index
            == after.z_index && before.payload is Rectangle && after.payload is Rectangle
            && likeness.same_rectangle && likeness.near_anchors && likeness.near_bounds)),
{
    if likeness.equal {
        return true;
    }
    if before.element_id != after.element_id || before.z_index != after.z_index {
        return false;
    }
    match (&before.payload, &after.payload) {
        (ElementPayload::Rectangle { .. }, ElementPayload::Rectangle { .. }) => {
            likeness.same_rectangle && likeness.near_anchors && likeness.near_bounds
        },
        _ => false,
    }
}

} // verus!
