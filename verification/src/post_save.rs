//! What follows a save: the preview is made and put in place, the picture goes to the
//! clipboard where that is wanted, and the draft that was saved is deleted.

use vstd::prelude::*;

use crate::export::{
    complete, encode_png, exact, longer, make_preview, png_bytes, preview_size, ExportError,
};
use crate::screen_stream::RgbaPixels;
use crate::text::{concat, contents, join, joined};

verus! {

/// The longest edge of a document's preview, in pixels.
pub const PREVIEW_EDGE: u32 = 480;

/// Whether a result is a small picture in the PNG format, or why it cannot be made.
pub open spec fn encoded(small: RgbaPixels, result: Result<Vec<u8>, String>) -> bool {
    match png_bytes(small.width, small.height, small.pixels@) {
        Some(encoding) => result matches Ok(bytes) && bytes@ == encoding,
        None => result matches Err(text) && explained(text@),
    }
}

/// Whether a text says why a picture could not be encoded.
pub open spec fn explained(text: Seq<char>) -> bool {
    exists|error: ExportError| error is Image && #[trigger] error.says(text)
}

/// Whether a result is the preview of a picture in the PNG format, or why it cannot be made:
/// a picture of the preview's size, which is the picture itself where that is small enough.
pub open spec fn previewed(image: RgbaPixels, preview: Result<Vec<u8>, String>) -> bool {
    exists|small: RgbaPixels|
        {
            &&& #[trigger] encoded(small, preview)
            &&& exact(small)
            &&& (small.width, small.height) == preview_size(
                image.width,
                image.height,
                PREVIEW_EDGE,
            )
            &&& (image.width <= PREVIEW_EDGE && image.height <= PREVIEW_EDGE ==> small.pixels@
                == image.pixels@)
        }
}

/// The preview of a saved document, in the PNG format, or what failed.
pub fn post_save_preview(image: &RgbaPixels) -> (preview: Result<Vec<u8>, String>)
    requires
        complete(*image),
        longer(image.width, image.height) <= PREVIEW_EDGE ==> exact(*image),
        16 * (image.width + 1) * (image.height + 1) <= isize::MAX,
    ensures
        previewed(*image, preview),
{
    let small = make_preview(image, PREVIEW_EDGE);
    match encode_png(&small) {
        Ok(bytes) => {
            assert(encoded(small, Ok::<Vec<u8>, String>(bytes)));
            Ok(bytes)
        },
        Err(error) => {
            let text = error.to_message();
            assert(error is Image && error.says(text@));
            assert(explained(text@));
            assert(encoded(small, Err::<Vec<u8>, String>(text)));
            Err(text)
        },
    }
}

/// What is being done after a save.
#[derive(Clone, Copy, PartialEq, Eq, Structural)]
pub enum PostSaveStage {
    /// The preview is being put in place.
    Installing,
    /// The picture is going to the clipboard.
    Copying,
    /// The draft is being deleted.
    Deleting,
    Done,
}

/// What is to be done next after a save.
pub enum PostSaveAction {
    /// Put the preview in place, where the document is still the one that was saved.
    Install(Vec<u8>),
    /// Put the whole picture on the clipboard.
    CopyImage,
    /// Delete the latest draft, where it is of this generation.
    DeleteDraft(u128),
    /// Tell the user what came of it.
    Tell(Result<String, String>),
}

/// The same, with texts and bytes as sequences.
pub enum PostSaveActionView {
    Install(Seq<u8>),
    CopyImage,
    DeleteDraft(u128),
    Tell(Result<Seq<char>, Seq<char>>),
}

impl View for PostSaveAction {
    type V = PostSaveActionView;

    open spec fn view(&self) -> PostSaveActionView {
        match self {
            PostSaveAction::Install(bytes) => PostSaveActionView::Install(bytes@),
            PostSaveAction::CopyImage => PostSaveActionView::CopyImage,
            PostSaveAction::DeleteDraft(generation_id) => PostSaveActionView::DeleteDraft(
                *generation_id,
            ),
            PostSaveAction::Tell(Ok(text)) => PostSaveActionView::Tell(Ok(text@)),
            PostSaveAction::Tell(Err(text)) => PostSaveActionView::Tell(Err(text@)),
        }
    }
}

/// The work that follows a save.
pub struct PostSave {
    /// Whether the picture goes to the clipboard.
    pub copy_after_save: bool,
    /// The draft that was saved, where it was one.
    pub draft_generation: Option<u128>,
    /// What went wrong, in the order in which it was tried.
    pub warnings: Vec<String>,
    pub stage: PostSaveStage,
}

/// The same, with the warnings as a sequence.
pub struct PostSaveView {
    pub copy_after_save: bool,
    pub draft_generation: Option<u128>,
    pub warnings: Seq<Seq<char>>,
    pub stage: PostSaveStage,
}

impl View for PostSave {
    type V = PostSaveView;

    open spec fn view(&self) -> PostSaveView {
        PostSaveView {
            copy_after_save: self.copy_after_save,
            draft_generation: self.draft_generation,
            warnings: contents(self.warnings@),
            stage: self.stage,
        }
    }
}

/// What is said once all that follows a save was tried.
pub open spec fn saved_message(warnings: Seq<Seq<char>>) -> Result<Seq<char>, Seq<char>> {
    if warnings.len() == 0 {
        Ok("讲义已保存"@)
    } else {
        Err(joined(warnings, "；"@))
    }
}

impl PostSaveView {
    /// The work before anything was tried.
    pub open spec fn fresh(copy_after_save: bool, draft_generation: Option<u128>) -> PostSaveView {
        PostSaveView {
            copy_after_save,
            draft_generation,
            warnings: Seq::empty(),
            stage: PostSaveStage::Installing,
        }
    }

    /// What went wrong is kept in mind.
    pub open spec fn warned(self, start: Seq<char>, result: Result<(), Seq<char>>) -> PostSaveView {
        match result {
            Ok(_) => self,
            Err(error) => PostSaveView { warnings: self.warnings.push(start + error), ..self },
        }
    }

    /// The end of the work.
    pub open spec fn ended(self) -> (PostSaveView, PostSaveActionView) {
        (
            PostSaveView { stage: PostSaveStage::Done, ..self },
            PostSaveActionView::Tell(saved_message(self.warnings)),
        )
    }

    /// The draft is deleted, where one was saved.
    pub open spec fn to_draft(self) -> (PostSaveView, PostSaveActionView) {
        match self.draft_generation {
            Some(generation_id) => (
                PostSaveView { stage: PostSaveStage::Deleting, ..self },
                PostSaveActionView::DeleteDraft(generation_id),
            ),
            None => self.ended(),
        }
    }

    /// The picture goes to the clipboard, where that is wanted.
    pub open spec fn to_clipboard(self) -> (PostSaveView, PostSaveActionView) {
        if self.copy_after_save {
            (
                PostSaveView { stage: PostSaveStage::Copying, ..self },
                PostSaveActionView::CopyImage,
            )
        } else {
            self.to_draft()
        }
    }

    /// What follows once the preview was made, or could not be.
    pub open spec fn after_preview(self, preview: Result<Seq<u8>, Seq<char>>) -> (
        PostSaveView,
        PostSaveActionView,
    ) {
        match preview {
            Ok(bytes) => (self, PostSaveActionView::Install(bytes)),
            Err(error) => self.warned("预览生成失败: "@, Err(error)).to_clipboard(),
        }
    }

    /// What follows once an action was carried out, or failed.
    pub open spec fn after(self, result: Result<(), Seq<char>>) -> (PostSaveView, PostSaveActionView) {
        match self.stage {
            PostSaveStage::Installing => self.warned("预览生成失败: "@, result).to_clipboard(),
            PostSaveStage::Copying => self.warned("剪贴板写入失败: "@, result).to_draft(),
            PostSaveStage::Deleting => self.warned("草稿清理失败: "@, result).ended(),
            PostSaveStage::Done => self.ended(),
        }
    }
}

/// A result with its error as a sequence of characters.
pub open spec fn outcome(result: Result<(), String>) -> Result<(), Seq<char>> {
    match result {
        Ok(_) => Ok(()),
        Err(error) => Err(error@),
    }
}

/// A preview, or what failed, as sequences.
pub open spec fn preview_view(preview: Result<Vec<u8>, String>) -> Result<Seq<u8>, Seq<char>> {
    match preview {
        Ok(bytes) => Ok(bytes@),
        Err(error) => Err(error@),
    }
}

impl PostSave {
    fn warn(&mut self, start: &str, result: Result<(), String>)
        ensures
            final(self)@ == old(self)@.warned(start@, outcome(result)),
    {
        if let Err(error) = result {
            self.warnings.push(concat(start, error.as_str()));
            assert(contents(self.warnings@) =~= contents(old(self).warnings@).push(
                start@ + error@,
            ));
        }
    }

    fn end(&mut self) -> (action: PostSaveAction)
        ensures
            (final(self)@, action@) == old(self)@.ended(),
    {
        self.stage = PostSaveStage::Done;
        if self.warnings.len() == 0 {
            PostSaveAction::Tell(Ok("讲义已保存".to_owned()))
        } else {
            PostSaveAction::Tell(Err(join(&self.warnings, "；")))
        }
    }

    fn to_draft(&mut self) -> (action: PostSaveAction)
        ensures
            (final(self)@, action@) == old(self)@.to_draft(),
    {
        match self.draft_generation {
            Some(generation_id) => {
                self.stage = PostSaveStage::Deleting;
                PostSaveAction::DeleteDraft(generation_id)
            },
            None => self.end(),
        }
    }

    fn to_clipboard(&mut self) -> (action: PostSaveAction)
        ensures
            (final(self)@, action@) == old(self)@.to_clipboard(),
    {
        if self.copy_after_save {
            self.stage = PostSaveStage::Copying;
            PostSaveAction::CopyImage
        } else {
            self.to_draft()
        }
    }

    /// The work, given the preview of the document that was saved, or why there is none.
    pub fn with_preview(
        preview: Result<Vec<u8>, String>,
        copy_after_save: bool,
        draft_generation: Option<u128>,
    ) -> (started: (PostSave, PostSaveAction))
        ensures
            (started.0@, started.1@) == PostSaveView::fresh(
                copy_after_save,
                draft_generation,
            ).after_preview(preview_view(preview)),
    {
        let mut work = PostSave {
            copy_after_save,
            draft_generation,
            warnings: Vec::new(),
            stage: PostSaveStage::Installing,
        };
        assert(contents(work.warnings@) =~= Seq::<Seq<char>>::empty());
        match preview {
            Ok(bytes) => (work, PostSaveAction::Install(bytes)),
            Err(error) => {
                work.warn("预览生成失败: ", Err(error));
                let action = work.to_clipboard();
                (work, action)
            },
        }
    }

    /// Begins the work that follows a save, with the picture of the document that was saved:
    /// its preview is made.
    pub fn start_post_save_tasks(
        image: &RgbaPixels,
        copy_after_save: bool,
        draft_generation: Option<u128>,
    ) -> (started: (PostSave, PostSaveAction))
        requires
            complete(*image),
            longer(image.width, image.height) <= PREVIEW_EDGE ==> exact(*image),
            16 * (image.width + 1) * (image.height + 1) <= isize::MAX,
        ensures
            exists|preview: Result<Vec<u8>, String>|
                {
                    &&& #[trigger] previewed(*image, preview)
                    &&& (started.0@, started.1@) == PostSaveView::fresh(
                        copy_after_save,
                        draft_generation,
                    ).after_preview(preview_view(preview))
                },
    {
        let preview = post_save_preview(image);
        assert(previewed(*image, preview));
        PostSave::with_preview(preview, copy_after_save, draft_generation)
    }

    /// Takes in what came of an action, and says what is done next. Nothing that fails keeps
    /// the rest from being tried.
    pub fn done(&mut self, result: Result<(), String>) -> (action: PostSaveAction)
        ensures
            (final(self)@, action@) == old(self)@.after(outcome(result)),
    {
        match self.stage {
            PostSaveStage::Installing => {
                self.warn("预览生成失败: ", result);
                self.to_clipboard()
            },
            PostSaveStage::Copying => {
                self.warn("剪贴板写入失败: ", result);
                self.to_draft()
            },
            PostSaveStage::Deleting => {
                self.warn("草稿清理失败: ", result);
                self.end()
            },
            PostSaveStage::Done => self.end(),
        }
    }
}

/// What is due after a save is tried, whatever fails before it: which action follows does
/// not depend on what came of the last one, but for what the user is told in the end.
pub proof fn law_no_failure_keeps_the_rest_from_being_tried(
    work: PostSaveView,
    result: Result<(), Seq<char>>,
)
    ensures
        work.after(result).0.stage == work.after(Ok(())).0.stage,
        !(work.after(result).1 is Tell) ==> work.after(result).1 == work.after(Ok(())).1,
        work.after(result).1 is Tell <==> work.after(Ok(())).1 is Tell,
{
}

/// A save counts as done without a fault only where nothing failed; otherwise each failure
/// is told.
pub proof fn law_every_failure_is_told(work: PostSaveView, result: Result<(), Seq<char>>)
    requires
        work.stage != PostSaveStage::Done,
    ensures
        result is Err ==> work.after(result).0.warnings.len() == work.warnings.len() + 1,
        result is Ok ==> work.after(result).0.warnings == work.warnings,
        work.after(result).1 matches PostSaveActionView::Tell(told) ==> (told is Ok <==> work.after(
            result,
        ).0.warnings.len() == 0),
{
}

} // verus!
