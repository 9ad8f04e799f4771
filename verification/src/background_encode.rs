//! Preparing a captured picture as the background of a document: the state that its
//! users wait on, and which captures are encoded, kept waiting or given up.

use vstd::prelude::*;

use crate::seqs::lemma_filter_step;
use crate::text::push_decimal;

verus! {

/// How many encoders may run at once.
pub const MAX_ACTIVE_ENCODERS: usize = 2;

/// An encoded background and the pixel size that was read from it, or why none could be.
pub struct BackgroundData {
    pub bytes: Vec<u8>,
    pub dimensions: Result<(u32, u32), String>,
}

/// What a background holds.
pub struct BackgroundView {
    pub bytes: Seq<u8>,
    pub dimensions: Result<(u32, u32), Seq<char>>,
}

impl View for BackgroundData {
    type V = BackgroundView;

    open spec fn view(&self) -> BackgroundView {
        BackgroundView {
            bytes: self.bytes@,
            dimensions: match self.dimensions {
                Ok(size) => Ok(size),
                Err(message) => Err(message@),
            },
        }
    }
}

impl BackgroundData {
    /// A second background with the same contents.
    pub fn copy(&self) -> (other: BackgroundData)
        ensures
            other@ == self@,
    {
        let bytes = self.bytes.clone();
        assert(bytes@ =~= self.bytes@);
        let dimensions: Result<(u32, u32), String> = match &self.dimensions {
            Ok(size) => Ok(*size),
            Err(message) => Err(message.clone()),
        };
        BackgroundData { bytes, dimensions }
    }
}

/// Why no background can be had.
pub enum BackgroundPrepareError {
    /// Encoding failed, with this message.
    Failed(String),
    /// A newer capture took its place.
    Superseded,
}

impl BackgroundPrepareError {
    /// The message shown to the user.
    pub open spec fn message(&self) -> Seq<char> {
        match self {
            BackgroundPrepareError::Failed(error) => "background encoding failed: "@ + error@,
            BackgroundPrepareError::Superseded =>
                "background preparation was superseded by a newer capture"@,
        }
    }

    /// The message shown to the user.
    pub fn to_message(&self) -> (message: String)
        ensures
            message@ == self.message(),
    {
        match self {
            BackgroundPrepareError::Failed(error) =>
                crate::text::concat("background encoding failed: ", error.as_str()),
            BackgroundPrepareError::Superseded =>
                "background preparation was superseded by a newer capture".to_owned(),
        }
    }
}

/// How far the preparation of one background has come.
pub enum PreparedState {
    Pending,
    Ready(BackgroundData),
    Failed(String),
    Superseded,
}

/// How far the preparation of one background has come.
pub enum PreparedView {
    Pending,
    Ready(BackgroundView),
    Failed(Seq<char>),
    Superseded,
}

impl View for PreparedState {
    type V = PreparedView;

    open spec fn view(&self) -> PreparedView {
        match self {
            PreparedState::Pending => PreparedView::Pending,
            PreparedState::Ready(background) => PreparedView::Ready(background@),
            PreparedState::Failed(error) => PreparedView::Failed(error@),
            PreparedState::Superseded => PreparedView::Superseded,
        }
    }
}

/// What an encoder handed back.
pub open spec fn encoder_result(
    result: Result<BackgroundData, String>,
) -> Result<BackgroundView, Seq<char>> {
    match result {
        Ok(background) => Ok(background@),
        Err(error) => Err(error@),
    }
}

/// The state after an encoder has finished: its result counts only where one was awaited.
pub open spec fn after_complete(
    state: PreparedView,
    result: Result<BackgroundView, Seq<char>>,
) -> PreparedView {
    match state {
        PreparedView::Pending => match result {
            Ok(background) => PreparedView::Ready(background),
            Err(error) => PreparedView::Failed(error),
        },
        _ => state,
    }
}

/// The state after a newer capture: only an unfinished preparation is given up.
pub open spec fn after_supersede(state: PreparedView) -> PreparedView {
    match state {
        PreparedView::Pending => PreparedView::Superseded,
        _ => state,
    }
}

/// What a user who waits is told, once there is anything to tell.
pub open spec fn outcome(state: PreparedView) -> Option<
    Result<BackgroundView, Option<Seq<char>>>,
> {
    match state {
        PreparedView::Pending => None,
        PreparedView::Ready(background) => Some(Ok(background)),
        PreparedView::Failed(error) => Some(Err(Some(error))),
        PreparedView::Superseded => Some(Err(None)),
    }
}

/// A background that is being prepared for one capture.
pub struct PreparedBackground {
    pub capture_sequence: u64,
    pub pixel_size: [u32; 2],
    pub state: PreparedState,
}

impl PreparedBackground {
    /// A background whose encoding has not finished.
    pub fn pending(capture_sequence: u64, pixel_size: [u32; 2]) -> (prepared: Self)
        ensures
            prepared.capture_sequence == capture_sequence,
            prepared.pixel_size == pixel_size,
            prepared.state@ == PreparedView::Pending,
    {
        PreparedBackground { capture_sequence, pixel_size, state: PreparedState::Pending }
    }

    /// A background that needs no encoding. It must have a size that can be read.
    pub fn ready(capture_sequence: u64, background: BackgroundData) -> (prepared: Result<
        Self,
        BackgroundPrepareError,
    >)
        ensures
            match background.dimensions {
                Ok(size) => prepared matches Ok(prepared) && {
                    &&& prepared.capture_sequence == capture_sequence
                    &&& prepared.pixel_size@ == seq![size.0, size.1]
                    &&& prepared.state@ == PreparedView::Ready(background@)
                },
                Err(error) => prepared matches Err(BackgroundPrepareError::Failed(message))
                    && message@ == error@,
            },
    {
        let size: (u32, u32) = match &background.dimensions {
            Ok(size) => *size,
            Err(error) => {
                return Err(BackgroundPrepareError::Failed(error.clone()));
            },
        };
        let pixel_size: [u32; 2] = [size.0, size.1];
        assert(pixel_size@ =~= seq![size.0, size.1]);
        Ok(
            PreparedBackground {
                capture_sequence,
                pixel_size,
                state: PreparedState::Ready(background),
            },
        )
    }

    /// The capture that the background belongs to.
    pub fn capture_sequence(&self) -> (sequence: u64)
        ensures
            sequence == self.capture_sequence,
    {
        self.capture_sequence
    }

    /// The size of the picture in pixels: width, then height.
    pub fn pixel_size(&self) -> (size: [u32; 2])
        ensures
            size == self.pixel_size,
    {
        self.pixel_size
    }

    /// Whether the picture has to be encoded once more.
    pub fn needs_retry(&self) -> (yes: bool)
        ensures
            yes == (self.state@ is Failed),
    {
        match &self.state {
            PreparedState::Failed(_) => true,
            _ => false,
        }
    }

    /// What a waiting user is told; nothing while the encoder is at work.
    pub fn wait(&self) -> (told: Option<Result<BackgroundData, BackgroundPrepareError>>)
        ensures
            match outcome(self.state@) {
                None => told is None,
                Some(Ok(background)) => told matches Some(Ok(data)) && data@ == background,
                Some(Err(Some(error))) => told matches Some(
                    Err(BackgroundPrepareError::Failed(message)),
                ) && message@ == error,
                Some(Err(None)) => told matches Some(Err(BackgroundPrepareError::Superseded)),
            },
    {
        match &self.state {
            PreparedState::Pending => None,
            PreparedState::Ready(background) => Some(Ok(background.copy())),
            PreparedState::Failed(error) => Some(
                Err(BackgroundPrepareError::Failed(error.clone())),
            ),
            PreparedState::Superseded => Some(Err(BackgroundPrepareError::Superseded)),
        }
    }

    /// Takes in what the encoder handed back; says whether waiting users have to be woken.
    pub fn complete(&mut self, result: Result<BackgroundData, String>) -> (changed: bool)
        ensures
            changed == (old(self).state@ is Pending),
            final(self).state@ == after_complete(old(self).state@, encoder_result(result)),
            final(self).capture_sequence == old(self).capture_sequence,
            final(self).pixel_size == old(self).pixel_size,
    {
        match &self.state {
            PreparedState::Pending => {},
            _ => {
                return false;
            },
        }
        self.state = match result {
            Ok(background) => PreparedState::Ready(background),
            Err(error) => PreparedState::Failed(error),
        };
        true
    }

    /// Gives up an unfinished preparation; says whether waiting users have to be woken.
    pub fn supersede(&mut self) -> (changed: bool)
        ensures
            changed == (old(self).state@ is Pending),
            final(self).state@ == after_supersede(old(self).state@),
            final(self).capture_sequence == old(self).capture_sequence,
            final(self).pixel_size == old(self).pixel_size,
    {
        match &self.state {
            PreparedState::Pending => {},
            _ => {
                return false;
            },
        }
        self.state = PreparedState::Superseded;
        true
    }
}

/// What is said of a picture whose encoding has another size than the picture.
pub open spec fn size_mismatch(found: (u32, u32), expected: [u32; 2]) -> Seq<char> {
    "encoded background is "@ + crate::text::decimal(found.0 as nat) + "x"@ + crate::text::decimal(
        found.1 as nat,
    ) + "; expected "@ + crate::text::decimal(expected@[0] as nat) + "x"@ + crate::text::decimal(
        expected@[1] as nat,
    )
}

/// The background of a picture of size `pixel_size`, from what its PNG encoding gave: the
/// encoding must hold a picture of the same size.
pub fn encode_native_background(
    pixel_size: [u32; 2],
    encoded: Result<BackgroundData, String>,
) -> (background: Result<BackgroundData, String>)
    ensures
        match encoded {
            Err(error) => background matches Err(message) && message@ == error@,
            Ok(data) => match data.dimensions {
                Err(error) => background matches Err(message) && message@ == error@,
                Ok(size) => if size.0 == pixel_size@[0] && size.1 == pixel_size@[1] {
                    background == encoded
                } else {
                    background matches Err(message) && message@ == size_mismatch(size, pixel_size)
                },
            },
        },
{
    let data = match encoded {
        Ok(data) => data,
        Err(error) => {
            return Err(error);
        },
    };
    let size: (u32, u32) = match &data.dimensions {
        Ok(size) => *size,
        Err(error) => {
            return Err(error.clone());
        },
    };
    if size.0 != pixel_size[0] || size.1 != pixel_size[1] {
        let mut message = "encoded background is ".to_owned();
        push_decimal(&mut message, size.0 as u64);
        message.append("x");
        push_decimal(&mut message, size.1 as u64);
        message.append("; expected ");
        push_decimal(&mut message, pixel_size[0] as u64);
        message.append("x");
        push_decimal(&mut message, pixel_size[1] as u64);
        return Err(message);
    }
    Ok(data)
}

/// An encoder at work.
#[derive(Clone, Copy, PartialEq, Eq, Structural)]
pub struct ActiveEncode {
    pub encode_id: u64,
    pub capture_sequence: u64,
}

/// Which encoders are at work, and which capture waits for one of them to finish.
pub struct BackgroundEncodeScheduler {
    pub latest_capture_sequence: u64,
    pub next_encode_id: u64,
    pub active: Vec<ActiveEncode>,
    pub pending_latest: Option<ActiveEncode>,
}

/// What has to be done about a capture that was handed in.
pub struct Submission {
    /// The number of the new request.
    pub encode_id: u64,
    /// Whether an encoder has to be started for it.
    pub launch: bool,
    /// The requests whose preparation is given up.
    pub superseded: Vec<u64>,
}

/// The number that follows `id`; no request has the number zero.
pub open spec fn following_id(id: u64) -> u64 {
    if id == u64::MAX {
        1
    } else {
        (id + 1) as u64
    }
}

/// `active` with `encode` in place of whatever had its number.
pub open spec fn with_active(active: Seq<ActiveEncode>, encode: ActiveEncode) -> Seq<ActiveEncode> {
    without_active(active, encode.encode_id).push(encode)
}

/// `active` without the encoder of number `encode_id`.
pub open spec fn without_active(active: Seq<ActiveEncode>, encode_id: u64) -> Seq<ActiveEncode> {
    active.filter(|encode: ActiveEncode| encode.encode_id != encode_id)
}

/// The numbers of the encoders that work on captures before `capture_sequence`.
pub open spec fn overtaken(active: Seq<ActiveEncode>, capture_sequence: u64) -> Seq<u64> {
    active.filter(|encode: ActiveEncode| encode.capture_sequence < capture_sequence).map_values(
        |encode: ActiveEncode| encode.encode_id,
    )
}

/// The numbers of the encoders that work on captures before `capture_sequence`.
fn overtaken_ids(active: &Vec<ActiveEncode>, capture_sequence: u64) -> (ids: Vec<u64>)
    ensures
        ids@ == overtaken(active@, capture_sequence),
{
    let mut ids: Vec<u64> = Vec::new();
    let ghost early = |encode: ActiveEncode| encode.capture_sequence < capture_sequence;
    let ghost id = |encode: ActiveEncode| encode.encode_id;
    reveal(Seq::filter);
    for i in 0..active.len()
        invariant
            early == (|encode: ActiveEncode| encode.capture_sequence < capture_sequence),
            id == (|encode: ActiveEncode| encode.encode_id),
            ids@ == active@.take(i as int).filter(early).map_values(id),
    {
        proof {
            lemma_filter_step(active@, i as int, early);
        }
        if active[i].capture_sequence < capture_sequence {
            ids.push(active[i].encode_id);
        }
        assert(ids@ =~= active@.take(i + 1).filter(early).map_values(id));
    }
    assert(active@.take(active@.len() as int) =~= active@);
    ids
}

/// `active` without the encoder of number `encode_id`.
fn remove_active(active: &Vec<ActiveEncode>, encode_id: u64) -> (rest: Vec<ActiveEncode>)
    ensures
        rest@ == without_active(active@, encode_id),
{
    let mut rest: Vec<ActiveEncode> = Vec::new();
    let ghost other = |encode: ActiveEncode| encode.encode_id != encode_id;
    reveal(Seq::filter);
    for i in 0..active.len()
        invariant
            other == (|encode: ActiveEncode| encode.encode_id != encode_id),
            rest@ == active@.take(i as int).filter(other),
    {
        proof {
            lemma_filter_step(active@, i as int, other);
        }
        if active[i].encode_id != encode_id {
            rest.push(active[i]);
        }
    }
    assert(active@.take(active@.len() as int) =~= active@);
    rest
}

impl BackgroundEncodeScheduler {
    /// At most [`MAX_ACTIVE_ENCODERS`] encoders work, none on a capture after the latest
    /// one; a capture waits only while all of them are busy, and only the latest one waits.
    pub open spec fn well_formed(&self) -> bool {
        &&& self.active@.len() <= MAX_ACTIVE_ENCODERS
        &&& forall|i: int, j: int|
            0 <= i < j < self.active@.len() ==> self.active@[i].encode_id
                != self.active@[j].encode_id
        &&& forall|i: int|
            0 <= i < self.active@.len() ==> (#[trigger] self.active@[i]).capture_sequence
                <= self.latest_capture_sequence
        &&& self.pending_latest matches Some(pending) ==> {
            &&& self.active@.len() == MAX_ACTIVE_ENCODERS
            &&& pending.capture_sequence == self.latest_capture_sequence
        }
    }

    /// Whether an encoder works on the request of number `encode_id`.
    pub open spec fn encodes(&self, encode_id: u64) -> bool {
        exists|i: int|
            0 <= i < self.active@.len() && (#[trigger] self.active@[i]).encode_id == encode_id
    }

    /// The scheduler before any capture.
    pub fn new() -> (scheduler: Self)
        ensures
            scheduler.well_formed(),
            scheduler.latest_capture_sequence == 0,
            scheduler.next_encode_id == 0,
            scheduler.active@.len() == 0,
            scheduler.pending_latest is None,
    {
        BackgroundEncodeScheduler {
            latest_capture_sequence: 0,
            next_encode_id: 0,
            active: Vec::new(),
            pending_latest: None,
        }
    }

    /// How many encoders work and how many captures wait.
    pub fn counts(&self) -> (counts: (usize, usize))
        ensures
            counts.0 == self.active@.len(),
            counts.1 == if self.pending_latest is Some { 1usize } else { 0usize },
    {
        let waiting: usize = if self.pending_latest.is_some() {
            1
        } else {
            0
        };
        (self.active.len(), waiting)
    }

    /// Takes in a capture. One that is older than the latest is given up at once. Any other
    /// gets an encoder where one is free, and waits otherwise; a capture after the latest
    /// one overtakes all that came before it, and of two that wait the later one stays.
    pub fn submit(&mut self, capture_sequence: u64) -> (submission: Submission)
        requires
            old(self).well_formed(),
        ensures
            final(self).well_formed(),
            final(self).latest_capture_sequence == if capture_sequence > old(
                self,
            ).latest_capture_sequence {
                capture_sequence
            } else {
                old(self).latest_capture_sequence
            },
            final(self).next_encode_id == following_id(old(self).next_encode_id),
            submission.encode_id == final(self).next_encode_id,
            submission.launch == (capture_sequence >= old(self).latest_capture_sequence && old(
                self,
            ).active@.len() < MAX_ACTIVE_ENCODERS),
            ({
                let request = ActiveEncode { encode_id: submission.encode_id, capture_sequence };
                let before = old(self).active@;
                let given_up = if capture_sequence > old(self).latest_capture_sequence {
                    overtaken(before, capture_sequence)
                } else {
                    Seq::empty()
                };
                if capture_sequence < old(self).latest_capture_sequence {
                    &&& submission.superseded@ == seq![submission.encode_id]
                    &&& final(self).active@ == before
                    &&& final(self).pending_latest == old(self).pending_latest
                } else if submission.launch {
                    &&& submission.superseded@ == given_up
                    &&& final(self).active@ == with_active(before, request)
                    &&& final(self).pending_latest is None
                } else {
                    &&& submission.superseded@ == given_up + (
                    match old(self).pending_latest {
                        Some(pending) => seq![pending.encode_id],
                        None => Seq::empty(),
                    })
                    &&& final(self).active@ == before
                    &&& final(self).pending_latest == Some(request)
                }
            }),
    {
        let mut superseded: Vec<u64> = Vec::new();
        let mut dropped: Option<u64> = None;
        if capture_sequence > self.latest_capture_sequence {
            self.latest_capture_sequence = capture_sequence;
            superseded = overtaken_ids(&self.active, capture_sequence);
            if let Some(pending) = self.pending_latest {
                if pending.capture_sequence < capture_sequence {
                    self.pending_latest = None;
                    dropped = Some(pending.encode_id);
                }
            }
        }
        self.next_encode_id = if self.next_encode_id == u64::MAX {
            1
        } else {
            self.next_encode_id + 1
        };
        let request = ActiveEncode { encode_id: self.next_encode_id, capture_sequence };
        if let Some(id) = dropped {
            superseded.push(id);
        }
        if capture_sequence < self.latest_capture_sequence {
            superseded.push(request.encode_id);
            assert(superseded@ =~= seq![request.encode_id]);
            Submission { encode_id: request.encode_id, launch: false, superseded }
        } else if self.active.len() < MAX_ACTIVE_ENCODERS {
            let mut active = remove_active(&self.active, request.encode_id);
            active.push(request);
            proof {
                lemma_with_active(self.active@, request, self.latest_capture_sequence);
            }
            self.active = active;
            Submission { encode_id: request.encode_id, launch: true, superseded }
        } else {
            if let Some(replaced) = self.pending_latest {
                superseded.push(replaced.encode_id);
            }
            self.pending_latest = Some(request);
            Submission { encode_id: request.encode_id, launch: false, superseded }
        }
    }

    /// Takes note that the encoder of number `encode_id` has finished. The capture that
    /// waits, if any, gets its place: the request to start an encoder for is returned.
    pub fn finish_encode(&mut self, encode_id: u64) -> (launch: Option<ActiveEncode>)
        requires
            old(self).well_formed(),
            old(self).encodes(encode_id),
        ensures
            final(self).well_formed(),
            launch == old(self).pending_latest,
            final(self).pending_latest is None,
            final(self).latest_capture_sequence == old(self).latest_capture_sequence,
            final(self).next_encode_id == old(self).next_encode_id,
            final(self).active@ == match old(self).pending_latest {
                Some(request) => with_active(without_active(old(self).active@, encode_id), request),
                None => without_active(old(self).active@, encode_id),
            },
    {
        let mut active = remove_active(&self.active, encode_id);
        proof {
            lemma_without_active(self.active@, encode_id, self.latest_capture_sequence);
            let i = choose|i: int|
                0 <= i < self.active@.len() && (#[trigger] self.active@[i]).encode_id == encode_id;
            crate::seqs::lemma_filter_shorter(
                self.active@,
                |encode: ActiveEncode| encode.encode_id != encode_id,
                i,
            );
        }
        let launch = self.pending_latest;
        if let Some(request) = launch {
            proof {
                lemma_with_active(active@, request, self.latest_capture_sequence);
            }
            active = remove_active(&active, request.encode_id);
            active.push(request);
        }
        self.pending_latest = None;
        self.active = active;
        launch
    }
}

/// Encoders have distinct numbers and work on no capture after `latest`.
pub open spec fn proper(active: Seq<ActiveEncode>, latest: u64) -> bool {
    &&& forall|i: int, j: int|
        0 <= i < j < active.len() ==> active[i].encode_id != active[j].encode_id
    &&& forall|i: int| 0 <= i < active.len() ==> (#[trigger] active[i]).capture_sequence <= latest
}

proof fn lemma_without_active(active: Seq<ActiveEncode>, encode_id: u64, latest: u64)
    requires
        proper(active, latest),
    ensures
        proper(without_active(active, encode_id), latest),
        without_active(active, encode_id).len() <= active.len(),
        forall|i: int|
            0 <= i < without_active(active, encode_id).len() ==> (#[trigger] without_active(
                active,
                encode_id,
            )[i]).encode_id != encode_id && active.contains(without_active(active, encode_id)[i]),
    decreases active.len(),
{
    reveal(Seq::filter);
    if active.len() > 0 {
        let rest = active.drop_last();
        lemma_without_active(rest, encode_id, latest);
        let before = without_active(rest, encode_id);
        assert(active =~= rest.push(active.last()));
        assert forall|i: int| 0 <= i < before.len() implies active.contains(#[trigger] before[i])
            && before[i].encode_id != active.last().encode_id by {
            assert(rest.contains(before[i]));
            let k = choose|k: int| 0 <= k < rest.len() && rest[k] == before[i];
            assert(active[k] == before[i]);
        }
        assert(active.contains(active.last())) by {
            assert(active[active.len() - 1] == active.last());
        }
    }
}

proof fn lemma_with_active(active: Seq<ActiveEncode>, encode: ActiveEncode, latest: u64)
    requires
        proper(active, latest),
        encode.capture_sequence <= latest,
    ensures
        proper(with_active(active, encode), latest),
        with_active(active, encode).len() <= active.len() + 1,
{
    lemma_without_active(active, encode.encode_id, latest);
}

/// A preparation that is ready, failed or given up stays so, whatever comes after.
pub proof fn law_finished_preparation_is_kept(
    state: PreparedView,
    result: Result<BackgroundView, Seq<char>>,
)
    requires
        !(state is Pending),
    ensures
        after_complete(state, result) == state,
        after_supersede(state) == state,
{
}

/// Once a preparation has been given up, no encoder makes it ready.
pub proof fn law_superseded_preparation_never_becomes_ready(
    state: PreparedView,
    result: Result<BackgroundView, Seq<char>>,
)
    requires
        state is Pending,
    ensures
        after_complete(after_supersede(state), result) is Superseded,
        outcome(after_complete(after_supersede(state), result)) == Some(
            Err::<BackgroundView, Option<Seq<char>>>(None),
        ),
{
}

/// A capture after the latest one overtakes every encoder that is at work.
pub proof fn law_newer_capture_overtakes_every_encoder(
    scheduler: BackgroundEncodeScheduler,
    capture_sequence: u64,
)
    requires
        scheduler.well_formed(),
        capture_sequence > scheduler.latest_capture_sequence,
    ensures
        overtaken(scheduler.active@, capture_sequence) == scheduler.active@.map_values(
            |encode: ActiveEncode| encode.encode_id,
        ),
{
    crate::seqs::lemma_filter_all(
        scheduler.active@,
        |encode: ActiveEncode| encode.capture_sequence < capture_sequence,
    );
}

/// A capture of the same number as the latest one, such as a second attempt after a
/// failure, overtakes no encoder that works on that number.
pub proof fn law_retry_overtakes_no_encoder_of_its_number(
    active: Seq<ActiveEncode>,
    capture_sequence: u64,
    i: int,
)
    requires
        0 <= i < active.len(),
        active[i].capture_sequence == capture_sequence,
        forall|j: int, k: int|
            0 <= j < k < active.len() ==> active[j].encode_id != active[k].encode_id,
    ensures
        !overtaken(active, capture_sequence).contains(active[i].encode_id),
{
    let early = |encode: ActiveEncode| encode.capture_sequence < capture_sequence;
    let id = |encode: ActiveEncode| encode.encode_id;
    let ids = overtaken(active, capture_sequence);
    if ids.contains(active[i].encode_id) {
        let k = choose|k: int| 0 <= k < ids.len() && ids[k] == active[i].encode_id;
        let found = active.filter(early)[k];
        assert(active.filter(early).contains(found));
        crate::seqs::lemma_filter_contains(active, early, found);
        let j = choose|j: int| 0 <= j < active.len() && active[j] == found;
        assert(active[j].encode_id == active[i].encode_id);
        assert(false);
    }
}

} // verus!
