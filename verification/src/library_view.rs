//! The window that lists the documents: what it offers, what its dialogs ask, and what
//! follows from the answers.

use std::collections::HashMap;

use vstd::prelude::*;

use crate::application::{AppState, AppView, Effect, Phase};
use crate::file_names::{file_stem, sanitized_file_stem};
use crate::library_index::DocumentSummary;
use crate::screen_stream::{rgba_image_from_raw, RgbaPixels};
use crate::text::{blank, concat, is_blank};

verus! {

broadcast use vstd::std_specs::hash::group_hash_axioms;

/// What the library offers.
#[derive(Clone, Copy, PartialEq, Eq, Structural)]
pub struct LibraryOffers {
    pub back_to_editor: bool,
    pub new_capture: bool,
    pub restore_draft: bool,
    pub import: bool,
    pub delete_draft: bool,
    pub clear_all: bool,
    pub open_on_double_click: bool,
    /// That a document is still open is said.
    pub session_note: bool,
}

/// What the library offers.
pub fn library_offers(state: &AppState) -> (offers: LibraryOffers)
    ensures
        offers == (LibraryOffers {
            back_to_editor: state.phase.holds_session(),
            new_capture: state.phase == Phase::Idle,
            restore_draft: state.draft_available && state.phase == Phase::Idle,
            import: state.phase == Phase::Idle,
            delete_draft: state.library_error is Some && state.draft_available && state.phase
                == Phase::Idle,
            clear_all: state.phase == Phase::Idle,
            open_on_double_click: state.phase == Phase::Idle,
            session_note: state.phase.holds_session(),
        }),
{
    let idle = state.phase == Phase::Idle;
    let active = state.phase.has_active_session();
    LibraryOffers {
        back_to_editor: active,
        new_capture: idle,
        restore_draft: state.draft_available && idle,
        import: idle,
        delete_draft: state.library_error.is_some() && state.draft_available && idle,
        clear_all: idle,
        open_on_double_click: idle,
        session_note: active,
    }
}

/// What the library says while the program is busy with something.
pub fn busy_line(phase: Phase) -> (line: Option<&'static str>)
    ensures
        match phase {
            Phase::Capturing { .. } => line matches Some(text) && text@ == "正在捕获屏幕"@,
            Phase::Opening { .. } => line matches Some(text) && text@ == "正在打开讲义"@,
            Phase::Restoring { .. } => line matches Some(text) && text@ == "正在恢复草稿"@,
            _ => line is None,
        },
{
    match phase {
        Phase::Capturing { .. } => Some("正在捕获屏幕"),
        Phase::Opening { .. } => Some("正在打开讲义"),
        Phase::Restoring { .. } => Some("正在恢复草稿"),
        _ => None,
    }
}

/// What the editor says while its document is being written.
pub fn writing_line(phase: Phase) -> (line: Option<&'static str>)
    ensures
        match phase {
            Phase::Saving { .. } => line matches Some(text) && text@ == "正在保存..."@,
            Phase::Stashing { .. } => line matches Some(text) && text@ == "正在暂存..."@,
            _ => line is None,
        },
{
    match phase {
        Phase::Saving { .. } => Some("正在保存..."),
        Phase::Stashing { .. } => Some("正在暂存..."),
        _ => None,
    }
}

/// What the library says where it lists nothing: nothing is there, or nothing fits what is
/// looked for.
pub fn empty_line(query: &str) -> (line: &'static str)
    ensures
        line@ == (if blank(query@) {
            "暂无讲义"@
        } else {
            "没有匹配的讲义"@
        }),
{
    if is_blank(query) {
        "暂无讲义"
    } else {
        "没有匹配的讲义"
    }
}

/// What the user does with a document in the list.
#[derive(Clone, Copy, PartialEq, Eq, Structural)]
pub enum LibraryAction {
    Open(u128),
    Rename(u128),
    CopyImage(u128),
    ExportPng(u128),
    ExportBundle(u128),
    Delete(u128),
}

/// What follows outside from an action.
pub enum LibraryStep {
    Nothing,
    /// Open the document.
    Open(u128),
    /// Render the document, and put its picture on the clipboard.
    CopyImage(u128),
    /// Ask where to put the picture, with a name for its file.
    AskPngPath { document_id: u128, file_name: String },
    /// Ask for a directory for the document.
    AskBundleDirectory(u128),
}

/// The place of the first document in a list that has an identifier.
pub open spec fn first_with(documents: Seq<DocumentSummary>, document_id: u128) -> Option<int> {
    if exists|i: int| listed_first(documents, document_id, i) {
        Some(choose|i: int| listed_first(documents, document_id, i))
    } else {
        None
    }
}

/// Whether a place is that of the first document that has an identifier.
pub open spec fn listed_first(documents: Seq<DocumentSummary>, document_id: u128, at: int) -> bool {
    &&& 0 <= at < documents.len()
    &&& documents[at].document_id == document_id
    &&& forall|j: int| 0 <= j < at ==> (#[trigger] documents[j]).document_id != document_id
}

fn find_document(documents: &Vec<DocumentSummary>, document_id: u128) -> (at: Option<usize>)
    ensures
        match at {
            Some(at) => first_with(documents@, document_id) == Some(at as int) && listed_first(
                documents@,
                document_id,
                at as int,
            ),
            None => first_with(documents@, document_id) is None,
        },
{
    for i in 0..documents.len()
        invariant
            forall|j: int|
                0 <= j < i ==> (#[trigger] documents@[j]).document_id != document_id,
    {
        if documents[i].document_id == document_id {
            proof {
                assert(listed_first(documents@, document_id, i as int));
                let chosen = choose|k: int| listed_first(documents@, document_id, k);
                assert(listed_first(documents@, document_id, chosen));
                assert(chosen == i);
            }
            return Some(i);
        }
    }
    assert(forall|k: int| !listed_first(documents@, document_id, k));
    None
}

/// The dialogs of the library.
pub struct LibraryDialogs {
    /// The document that is being renamed, and the title that is being written.
    pub rename: Option<(u128, String)>,
    pub delete_document: Option<u128>,
    pub delete_draft: bool,
    /// How far clearing everything has been confirmed: not asked for, asked for, or
    /// confirmed once.
    pub clear_stage: u8,
}

/// An answer to a dialog that asks whether to go on.
#[derive(Clone, Copy, PartialEq, Eq, Structural)]
pub enum Answer {
    Cancel,
    Confirm,
}

/// How far clearing everything has been confirmed after an answer.
pub open spec fn clear_stage_after(stage: u8, answer: Answer) -> u8 {
    if stage == 1 && answer == Answer::Confirm {
        2
    } else {
        0
    }
}

/// Whether an answer clears everything.
pub open spec fn clears(stage: u8, answer: Answer) -> bool {
    stage != 0 && stage != 1 && answer == Answer::Confirm
}

/// The name of the file for a document's picture.
pub open spec fn png_name(documents: Seq<DocumentSummary>, document_id: u128) -> Seq<char> {
    (match first_with(documents, document_id) {
        Some(at) => file_stem(documents[at].title@),
        None => "讲义"@,
    }) + ".png"@
}

impl LibraryDialogs {
    /// The dialogs at the start: none is shown.
    pub fn new() -> (dialogs: Self)
        ensures
            dialogs == (LibraryDialogs {
                rename: None,
                delete_document: None,
                delete_draft: false,
                clear_stage: 0,
            }),
    {
        LibraryDialogs { rename: None, delete_document: None, delete_draft: false, clear_stage: 0 }
    }

    /// Takes in what the user does with a document in the list.
    pub fn handle_library_action(
        &mut self,
        action: LibraryAction,
        documents: &Vec<DocumentSummary>,
    ) -> (step: LibraryStep)
        ensures
            match action {
                LibraryAction::Open(document_id) => *final(self) == *old(self) && step
                    == LibraryStep::Open(document_id),
                LibraryAction::Rename(document_id) => {
                    &&& step == LibraryStep::Nothing
                    &&& *final(self) == (LibraryDialogs {
                        rename: final(self).rename,
                        ..*old(self)
                    })
                    &&& match first_with(documents@, document_id) {
                        Some(at) => final(self).rename matches Some((id, title)) && id
                            == document_id && title@ == documents@[at].title@,
                        None => final(self).rename == old(self).rename,
                    }
                },
                LibraryAction::CopyImage(document_id) => *final(self) == *old(self) && step
                    == LibraryStep::CopyImage(document_id),
                LibraryAction::ExportPng(document_id) => {
                    &&& *final(self) == *old(self)
                    &&& step matches LibraryStep::AskPngPath { document_id: id, file_name }
                    &&& id == document_id
                    &&& file_name@ == png_name(documents@, document_id)
                },
                LibraryAction::ExportBundle(document_id) => *final(self) == *old(self) && step
                    == LibraryStep::AskBundleDirectory(document_id),
                LibraryAction::Delete(document_id) => step == LibraryStep::Nothing && *final(self)
                    == (LibraryDialogs { delete_document: Some(document_id), ..*old(self) }),
            },
    {
        match action {
            LibraryAction::Open(document_id) => LibraryStep::Open(document_id),
            LibraryAction::Rename(document_id) => {
                if let Some(at) = find_document(documents, document_id) {
                    self.rename = Some((document_id, documents[at].title.clone()));
                }
                LibraryStep::Nothing
            },
            LibraryAction::CopyImage(document_id) => LibraryStep::CopyImage(document_id),
            LibraryAction::ExportPng(document_id) => {
                let stem = match find_document(documents, document_id) {
                    Some(at) => sanitized_file_stem(documents[at].title.as_str()),
                    None => "讲义".to_owned(),
                };
                LibraryStep::AskPngPath { document_id, file_name: concat(stem.as_str(), ".png") }
            },
            LibraryAction::ExportBundle(document_id) => LibraryStep::AskBundleDirectory(
                document_id,
            ),
            LibraryAction::Delete(document_id) => {
                self.delete_document = Some(document_id);
                LibraryStep::Nothing
            },
        }
    }

    /// Whether the title that is being written can be used.
    pub fn can_rename(&self) -> (can: bool)
        ensures
            can == (self.rename matches Some((_, title)) && !blank(title@)),
    {
        match &self.rename {
            Some((_, title)) => !is_blank(title.as_str()),
            None => false,
        }
    }

    /// Takes in the answer to the dialog for a new title. Says which document gets which
    /// title. A title that cannot be used leaves the dialog open.
    pub fn rename_answered(&mut self, answer: Answer) -> (renamed: Option<(u128, String)>)
        ensures
            match answer {
                Answer::Cancel => renamed is None && *final(self) == (LibraryDialogs {
                    rename: None,
                    ..*old(self)
                }),
                Answer::Confirm => if old(self).rename matches Some((_, title)) && !blank(title@) {
                    renamed == old(self).rename && *final(self) == (LibraryDialogs {
                        rename: None,
                        ..*old(self)
                    })
                } else {
                    renamed is None && *final(self) == *old(self)
                },
            },
    {
        match answer {
            Answer::Cancel => {
                self.rename = None;
                None
            },
            Answer::Confirm => {
                if self.can_rename() {
                    self.rename.take()
                } else {
                    None
                }
            },
        }
    }

    /// Takes in the answer to the dialog that asks whether to delete a document. Says which
    /// document is to be deleted.
    pub fn delete_document_answered(&mut self, answer: Answer) -> (deleted: Option<u128>)
        ensures
            *final(self) == (LibraryDialogs { delete_document: None, ..*old(self) }),
            deleted == (match answer {
                Answer::Cancel => None,
                Answer::Confirm => old(self).delete_document,
            }),
    {
        let document = self.delete_document;
        self.delete_document = None;
        match answer {
            Answer::Cancel => None,
            Answer::Confirm => document,
        }
    }

    /// Asks whether to delete the latest draft.
    pub fn ask_to_delete_draft(&mut self)
        ensures
            *final(self) == (LibraryDialogs { delete_draft: true, ..*old(self) }),
    {
        self.delete_draft = true;
    }

    /// Takes in the answer to the dialog that asks whether to delete the latest draft. Says
    /// whether it is to be deleted.
    pub fn delete_draft_answered(&mut self, answer: Answer) -> (delete: bool)
        ensures
            *final(self) == (LibraryDialogs { delete_draft: false, ..*old(self) }),
            delete == (old(self).delete_draft && answer == Answer::Confirm),
    {
        let asked = self.delete_draft;
        self.delete_draft = false;
        asked && answer == Answer::Confirm
    }

    /// Asks whether to clear everything.
    pub fn ask_to_clear(&mut self)
        ensures
            *final(self) == (LibraryDialogs { clear_stage: 1, ..*old(self) }),
    {
        self.clear_stage = 1;
    }

    /// Takes in an answer to the dialogs that ask whether to clear everything. Says whether
    /// everything is to be cleared.
    pub fn clear_answered(&mut self, answer: Answer) -> (clear: bool)
        ensures
            *final(self) == (LibraryDialogs {
                clear_stage: clear_stage_after(old(self).clear_stage, answer),
                ..*old(self)
            }),
            clear == clears(old(self).clear_stage, answer),
    {
        let stage: u8 = self.clear_stage;
        match answer {
            Answer::Cancel => {
                self.clear_stage = 0;
                false
            },
            Answer::Confirm => {
                if stage == 1 {
                    self.clear_stage = 2;
                    false
                } else {
                    self.clear_stage = 0;
                    stage != 0
                }
            },
        }
    }
}

/// Everything is cleared only after it was asked for and confirmed twice in a row: neither
/// the first answer clears it, nor a second that does not follow a confirmation.
pub proof fn law_clearing_takes_two_confirmations(first: Answer, second: Answer)
    ensures
        !clears(0, first),
        !clears(1, first),
        clears(clear_stage_after(1, first), second) <==> first == Answer::Confirm && second
            == Answer::Confirm,
        clear_stage_after(clear_stage_after(1, first), second) == 0,
        clear_stage_after(0, first) == 0,
{
}

/// Work of the library that could not be started.
#[derive(Clone, Copy, PartialEq, Eq, Structural)]
pub enum LibraryWork {
    Rename,
    DeleteDocument,
    DeleteDraft,
    Clear,
    ExportBundle,
    ExportImage,
}

/// What is said where work of the library could not be started.
pub open spec fn not_started(work: LibraryWork, error: Seq<char>) -> Seq<char> {
    (match work {
        LibraryWork::Rename => "无法启动讲义重命名任务："@,
        LibraryWork::DeleteDocument => "无法启动讲义删除任务："@,
        LibraryWork::DeleteDraft => "无法启动草稿删除任务："@,
        LibraryWork::Clear => "无法启动内容清理任务："@,
        LibraryWork::ExportBundle => "无法启动讲义导出任务："@,
        LibraryWork::ExportImage => "无法启动图片导出任务："@,
    }) + error
}

/// Whether a notice says that work could not be started, and not the library.
pub open spec fn told_by_notice(work: LibraryWork) -> bool {
    work == LibraryWork::ExportBundle || work == LibraryWork::ExportImage
}

impl AppState {
    /// Work of the library could not be started.
    pub fn library_work_failed(&mut self, work: LibraryWork, error: String, now: u128)
        requires
            old(self)@.well_formed(),
        ensures
            final(self)@.well_formed(),
            final(self)@ == (if told_by_notice(work) {
                old(self)@.with_toast(not_started(work, error@), now)
            } else {
                AppView { library_error: Some(not_started(work, error@)), ..old(self)@ }
            }),
    {
        let reason = match work {
            LibraryWork::Rename => "无法启动讲义重命名任务：",
            LibraryWork::DeleteDocument => "无法启动讲义删除任务：",
            LibraryWork::DeleteDraft => "无法启动草稿删除任务：",
            LibraryWork::Clear => "无法启动内容清理任务：",
            LibraryWork::ExportBundle => "无法启动讲义导出任务：",
            LibraryWork::ExportImage => "无法启动图片导出任务：",
        };
        let message = concat(reason, error.as_str());
        match work {
            LibraryWork::ExportBundle | LibraryWork::ExportImage => {
                self.set_toast(message, now);
            },
            _ => {
                self.library_error = Some(message);
            },
        }
    }

    /// The tray asks for the settings. Says whether they are shown.
    pub fn show_settings(&mut self, now: u128) -> (shown: (bool, Vec<Effect>))
        requires
            old(self)@.well_formed(),
        ensures
            final(self)@.well_formed(),
            if old(self).phase is Saving || old(self).phase is Stashing {
                &&& !shown.0
                &&& final(self)@ == old(self)@.with_toast("保存或暂存完成后再修改设置"@, now)
                &&& shown.1@.len() == 0
            } else {
                &&& shown.0
                &&& final(self)@ == old(self)@.with_library_shown()
                &&& shown.1@ == seq![Effect::ShowLibraryWindow]
            },
    {
        let mut effects: Vec<Effect> = Vec::new();
        if self.phase.is_persisting() {
            self.set_toast("保存或暂存完成后再修改设置".to_owned(), now);
            (false, effects)
        } else {
            self.show_library_window(&mut effects);
            assert(effects@ =~= seq![Effect::ShowLibraryWindow]);
            (true, effects)
        }
    }

    /// New settings came into force.
    pub fn settings_adopted(&mut self, now: u128)
        requires
            old(self)@.well_formed(),
        ensures
            final(self)@.well_formed(),
            final(self)@ == old(self)@.with_toast("设置已保存"@, now),
    {
        self.set_toast("设置已保存".to_owned(), now);
    }

    /// New settings could not be put into force.
    pub fn settings_failed(&mut self, error: String)
        requires
            old(self)@.well_formed(),
        ensures
            final(self)@.well_formed(),
            final(self)@ == (AppView { library_error: Some(error@), ..old(self)@ }),
    {
        self.library_error = Some(error);
    }
}

/// What is said once a document was exported.
pub fn bundle_message(result: Result<String, String>) -> (message: Result<String, String>)
    ensures
        match result {
            Ok(stem) => message matches Ok(text) && text@ == "已导出 "@ + stem@ + ".rsboard"@,
            Err(error) => message == Err::<String, String>(error),
        },
{
    match result {
        Ok(stem) => {
            let named = concat("已导出 ", stem.as_str());
            Ok(concat(named.as_str(), ".rsboard"))
        },
        Err(error) => Err(error),
    }
}

/// The picture under a document, from its pixels.
pub fn background_image(width: u32, height: u32, pixels: Vec<u8>) -> (image: Result<
    RgbaPixels,
    String,
>)
    requires
        4 * width <= usize::MAX,
    ensures
        match image {
            Ok(image) => 4 * width * height <= pixels@.len() && image.width == width
                && image.height == height && image.pixels@ == pixels@,
            Err(error) => 4 * width * height > pixels@.len() && error@ == "背景像素无效"@,
        },
{
    match rgba_image_from_raw(width, height, pixels) {
        Some(image) => Ok(image),
        None => Err("背景像素无效".to_owned()),
    }
}

/// Where the picture of a document goes.
pub enum ImageTarget {
    Clipboard,
    File(String),
}

/// Where the picture of a document goes: to the clipboard, or to the file that was chosen.
pub fn image_target(clipboard: bool, destination: Option<String>) -> (target: Result<
    ImageTarget,
    String,
>)
    ensures
        if clipboard {
            target == Ok::<ImageTarget, String>(ImageTarget::Clipboard)
        } else {
            match destination {
                Some(path) => target == Ok::<ImageTarget, String>(ImageTarget::File(path)),
                None => target matches Err(error) && error@ == "未选择导出路径"@,
            }
        },
{
    if clipboard {
        Ok(ImageTarget::Clipboard)
    } else {
        match destination {
            Some(path) => Ok(ImageTarget::File(path)),
            None => Err("未选择导出路径".to_owned()),
        }
    }
}

/// What is said once the picture of a document was put somewhere.
pub fn image_message(target: &ImageTarget, result: Result<(), String>) -> (message: Result<
    String,
    String,
>)
    ensures
        match result {
            Ok(_) => message matches Ok(text) && text@ == (if target is Clipboard {
                "图片已复制"@
            } else {
                "PNG 已导出"@
            }),
            Err(error) => message == Err::<String, String>(error),
        },
{
    match result {
        Ok(()) => match target {
            ImageTarget::Clipboard => Ok("图片已复制".to_owned()),
            ImageTarget::File(_) => Ok("PNG 已导出".to_owned()),
        },
        Err(error) => Err(error),
    }
}

/// Where the preview of a document is to be had.
#[derive(Clone, Copy, PartialEq, Eq, Structural)]
pub enum PreviewSource {
    /// The document has no preview.
    Missing,
    /// The picture was loaded before.
    Loaded,
    /// The picture is to be loaded.
    ToLoad,
}

/// The paths of the previews whose pictures were loaded, by document.
pub struct PreviewCache {
    pub paths: HashMap<u128, String>,
}

impl PreviewCache {
    /// No preview was loaded.
    pub fn new() -> (cache: Self)
        ensures
            cache.paths@ == Map::<u128, String>::empty(),
    {
        PreviewCache { paths: HashMap::new() }
    }

    /// Where the preview of a document is to be had: a picture that was loaded from another
    /// path does not count.
    pub fn source(&self, document: &DocumentSummary) -> (source: PreviewSource)
        ensures
            source == (match document.preview_path {
                None => PreviewSource::Missing,
                Some(path) => if self.paths@.contains_key(document.document_id)
                    && self.paths@[document.document_id]@ == path@ {
                    PreviewSource::Loaded
                } else {
                    PreviewSource::ToLoad
                },
            }),
    {
        match &document.preview_path {
            None => PreviewSource::Missing,
            Some(path) => match self.paths.get(&document.document_id) {
                Some(loaded) => {
                    if *loaded == *path {
                        PreviewSource::Loaded
                    } else {
                        PreviewSource::ToLoad
                    }
                },
                None => PreviewSource::ToLoad,
            },
        }
    }

    /// A picture was loaded from a path.
    pub fn loaded(&mut self, document_id: u128, path: String)
        ensures
            final(self).paths@ == old(self).paths@.insert(document_id, path),
    {
        self.paths.insert(document_id, path);
    }

    /// Forgets the picture of a document.
    pub fn forget(&mut self, document_id: u128)
        ensures
            final(self).paths@ == old(self).paths@.remove(document_id),
    {
        self.paths.remove(&document_id);
    }

    /// Forgets the pictures of documents that are no longer listed.
    pub fn forget_unlisted(&mut self, documents: &Vec<DocumentSummary>)
        ensures
            final(self).paths@ == old(self).paths@.restrict(listed_ids(documents@)),
    {
        let mut kept: HashMap<u128, String> = HashMap::new();
        assert(kept@ =~= self.paths@.restrict(listed_ids(documents@.take(0))));
        for i in 0..documents.len()
            invariant
                kept@ == self.paths@.restrict(listed_ids(documents@.take(i as int))),
        {
            let document_id: u128 = documents[i].document_id;
            if let Some(path) = self.paths.get(&document_id) {
                kept.insert(document_id, path.clone());
            }
            proof {
                let before = documents@.take(i as int);
                let after = documents@.take(i + 1);
                assert forall|id: u128| listed_ids(after).contains(id) <==> (listed_ids(
                    before,
                ).contains(id) || id == document_id) by {
                    if listed_ids(before).contains(id) {
                        let k = choose|k: int|
                            0 <= k < before.len() && (#[trigger] before[k]).document_id == id;
                        assert(after[k].document_id == id);
                    }
                    assert(after[i as int].document_id == document_id);
                    if listed_ids(after).contains(id) && id != document_id {
                        let k = choose|k: int|
                            0 <= k < after.len() && (#[trigger] after[k]).document_id == id;
                        assert(before[k].document_id == id);
                    }
                }
                assert(kept@ =~= self.paths@.restrict(listed_ids(after)));
            }
        }
        assert(documents@.take(documents@.len() as int) =~= documents@);
        self.paths = kept;
    }
}

/// The identifiers of the documents in a list.
pub open spec fn listed_ids(documents: Seq<DocumentSummary>) -> Set<u128> {
    Set::new(
        |id: u128|
            exists|i: int|
                0 <= i < documents.len() && (#[trigger] documents[i]).document_id == id,
    )
}

} // verus!
