//! Opening a document in the editor: what has to hold of it, and the session that is made.

use vstd::prelude::*;

use crate::application::{AppState, CapturedFrame};
use crate::performance::{no_context, PerformanceContext};
use crate::session::{Ending, Measurement, SessionOrigin, WorkingSession};
use crate::tools::EditorTool;

verus! {

/// Why a document cannot be opened in the editor.
pub enum ApplicationError {
    Settings(String),
    Storage(String),
    Document(String),
    InvalidTexture,
}

impl ApplicationError {
    /// The message shown to the user.
    pub open spec fn message(&self) -> Seq<char> {
        match self {
            ApplicationError::Settings(error) => error@,
            ApplicationError::Storage(error) => error@,
            ApplicationError::Document(error) => error@,
            ApplicationError::InvalidTexture => "背景纹理无效"@,
        }
    }

    /// The message shown to the user.
    pub fn to_message(&self) -> (message: String)
        ensures
            message@ == self.message(),
    {
        match self {
            ApplicationError::Settings(error) => error.clone(),
            ApplicationError::Storage(error) => error.clone(),
            ApplicationError::Document(error) => error.clone(),
            ApplicationError::InvalidTexture => "背景纹理无效".to_owned(),
        }
    }
}

/// Whether pixels fit a picture that is to be shown: four bytes for each pixel, no more and
/// no fewer.
pub fn check_texture(width: u32, height: u32, pixels: &Vec<u8>) -> (checked: Result<
    (),
    ApplicationError,
>)
    ensures
        match checked {
            Ok(_) => pixels@.len() == width * height * 4,
            Err(error) => error is InvalidTexture && pixels@.len() != width * height * 4,
        },
{
    proof {
        assert(width * height <= u32::MAX * u32::MAX) by (nonlinear_arith)
            requires
                width <= u32::MAX,
                height <= u32::MAX,
        ;
    }
    let area: u128 = width as u128 * height as u128;
    if pixels.len() as u128 != area * 4 {
        Err(ApplicationError::InvalidTexture)
    } else {
        Ok(())
    }
}

/// The place of a captured display, with a size that is never negative.
pub fn captured_bounds(bounds: (i32, i32, i32, i32)) -> (place: (i32, i32, u32, u32))
    ensures
        place.0 == bounds.0,
        place.1 == bounds.1,
        place.2 == (if bounds.2 < 0 {
            0
        } else {
            bounds.2 as int
        }),
        place.3 == (if bounds.3 < 0 {
            0
        } else {
            bounds.3 as int
        }),
{
    let width: u32 = if bounds.2 < 0 {
        0
    } else {
        bounds.2 as u32
    };
    let height: u32 = if bounds.3 < 0 {
        0
    } else {
        bounds.3 as u32
    };
    (bounds.0, bounds.1, width, height)
}

/// A document that is to be opened in the editor.
#[derive(Clone, Copy)]
pub struct SessionSeed {
    /// An identifier that no session has.
    pub session_id: u128,
    pub capture_sequence: Option<u64>,
    pub origin: SessionOrigin,
    pub document_id: u128,
    pub revision: u64,
    pub width_px: u32,
    pub height_px: u32,
    /// What the opening belongs to.
    pub performance: PerformanceContext,
}

/// What a captured picture is opened as, once there is a document of it.
pub fn session_from_capture(
    frame: CapturedFrame,
    session_id: u128,
    document_id: u128,
    revision: u64,
) -> (seed: SessionSeed)
    ensures
        seed == (SessionSeed {
            session_id,
            capture_sequence: Some(frame.capture_sequence),
            origin: SessionOrigin::NewCapture,
            document_id,
            revision,
            width_px: frame.pixel_size.0,
            height_px: frame.pixel_size.1,
            performance: PerformanceContext {
                request_id: Some(frame.request_id),
                capture_sequence: Some(frame.capture_sequence),
                ..no_context()
            },
        }),
{
    SessionSeed {
        session_id,
        capture_sequence: Some(frame.capture_sequence),
        origin: SessionOrigin::NewCapture,
        document_id,
        revision,
        width_px: frame.pixel_size.0,
        height_px: frame.pixel_size.1,
        performance: PerformanceContext::capture(frame.request_id, frame.capture_sequence),
    }
}

/// Whether pixels are the background of a document.
pub open spec fn covers(pixels: Seq<u8>, seed: SessionSeed) -> bool {
    pixels.len() == seed.width_px * seed.height_px * 4
}

/// The measurement of the background that was handed to the screen.
pub open spec fn background_measured(
    seed: SessionSeed,
    started_at: u128,
    registered: bool,
) -> Measurement {
    Measurement {
        stage: "capture.background_texture.register",
        context: PerformanceContext {
            document_id: Some(seed.document_id),
            revision: Some(seed.revision),
            ..seed.performance
        },
        trigger: None,
        workflow: None,
        pixel_size: Some((seed.width_px, seed.height_px)),
        started_at: Some(started_at),
        ending: if registered {
            Ending::Success
        } else {
            Ending::Failed(None)
        },
    }
}

/// A document that was just opened: nothing of it has changed, and the tool in use is the
/// one that was in use before.
pub open spec fn session_opened(seed: SessionSeed, last_tool: Option<EditorTool>) -> WorkingSession {
    WorkingSession {
        session_id: seed.session_id,
        capture_sequence: seed.capture_sequence,
        origin: seed.origin,
        document_id: seed.document_id,
        revision: seed.revision,
        dirty: false,
        width_px: seed.width_px,
        height_px: seed.height_px,
        active_tool: match last_tool {
            Some(tool) => tool,
            None => EditorTool::Rectangle,
        },
    }
}

impl AppState {
    /// The session of a document, given whether the document is valid and the pixels of its
    /// background. A document that is not valid is not looked at further; where it is, the
    /// handing over of its background is measured.
    pub fn make_session(
        &self,
        seed: SessionSeed,
        validated: Result<(), String>,
        pixels: &Vec<u8>,
        started_at: u128,
    ) -> (made: (Result<WorkingSession, ApplicationError>, Option<Measurement>))
        ensures
            match validated {
                Err(error) => {
                    &&& made.0 == Err::<WorkingSession, ApplicationError>(
                        ApplicationError::Document(error),
                    )
                    &&& made.1 is None
                },
                Ok(_) => {
                    &&& made.0 == (if covers(pixels@, seed) {
                        Ok(session_opened(seed, self.last_tool))
                    } else {
                        Err(ApplicationError::InvalidTexture)
                    })
                    &&& made.1 == Some(
                        background_measured(seed, started_at, covers(pixels@, seed)),
                    )
                },
            },
    {
        match validated {
            Err(error) => {
                return (Err(ApplicationError::Document(error)), None);
            },
            Ok(()) => {},
        }
        let checked = check_texture(seed.width_px, seed.height_px, pixels);
        let mut context = seed.performance;
        context.document_id = Some(seed.document_id);
        context.revision = Some(seed.revision);
        let measurement = Measurement {
            stage: "capture.background_texture.register",
            context,
            trigger: None,
            workflow: None,
            pixel_size: Some((seed.width_px, seed.height_px)),
            started_at: Some(started_at),
            ending: match checked {
                Ok(()) => Ending::Success,
                Err(_) => Ending::Failed(None),
            },
        };
        match checked {
            Err(error) => (Err(error), Some(measurement)),
            Ok(()) => {
                let session = WorkingSession {
                    session_id: seed.session_id,
                    capture_sequence: seed.capture_sequence,
                    origin: seed.origin,
                    document_id: seed.document_id,
                    revision: seed.revision,
                    dirty: false,
                    width_px: seed.width_px,
                    height_px: seed.height_px,
                    active_tool: match self.last_tool {
                        Some(tool) => tool,
                        None => EditorTool::Rectangle,
                    },
                };
                (Ok(session), Some(measurement))
            },
        }
    }
}

} // verus!
