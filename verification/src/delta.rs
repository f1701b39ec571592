//! Delta encoding of the captured screen: which captures become keyframes,
//! which tiles a delta frame carries, and how fast to poll.

use crate::messages;
use crate::messages::{FrameData, TileUpdate};
use crate::tiles;
use crate::tiles::{Frame, TileRect};
use vstd::prelude::*;

verus! {

/// Send a full keyframe every this many frames to let new clients sync, and to
/// recover from any accumulated error. At 20 fps this is every 6 seconds.
pub const KEYFRAME_INTERVAL: u32 = 120;

/// JPEG quality for keyframes.
pub const QUALITY_KEY: u8 = 75;

/// JPEG quality for dirty tiles.
pub const QUALITY_TILE: u8 = 65;

/// Capture interval in milliseconds (20 fps).
pub const CAPTURE_MS: u64 = 50;

/// After this many consecutive captures without a dirty tile, back off to a
/// slower poll rate to avoid burning CPU on static screens.
pub const IDLE_BACKOFF_AFTER: u32 = 6;

/// Capture interval in milliseconds on a static screen.
pub const CAPTURE_MS_IDLE: u64 = 150;

/// What the encoder remembers from one capture to the next.
pub struct CaptureState {
    /// FNV-1a hashes of the tiles of the last capture, row by row.
    tile_hashes: Vec<u64>,
    /// Screen dimensions of the last capture.
    screen_w: u32,
    screen_h: u32,
    /// Captures since the last keyframe, itself counted.
    delta_count: u32,
    /// Consecutive captures that produced no dirty tile.
    idle_count: u32,
    /// When set, the next frame is a keyframe whatever the hashes say. Set
    /// when a client joins, to give it a whole picture at once.
    force_keyframe: bool,
}

/// The contents of a `CaptureState`.
#[verifier::ext_equal]
pub struct CaptureView {
    pub tile_hashes: Seq<u64>,
    pub screen_w: u32,
    pub screen_h: u32,
    pub delta_count: u32,
    pub idle_count: u32,
    pub force_keyframe: bool,
}

impl View for CaptureState {
    type V = CaptureView;

    closed spec fn view(&self) -> CaptureView {
        CaptureView {
            tile_hashes: self.tile_hashes@,
            screen_w: self.screen_w,
            screen_h: self.screen_h,
            delta_count: self.delta_count,
            idle_count: self.idle_count,
            force_keyframe: self.force_keyframe,
        }
    }
}

impl CaptureView {
    /// There is a hash for every tile of the last capture, and a keyframe is
    /// never overdue.
    pub open spec fn wf(self) -> bool {
        &&& self.tile_hashes.len() == tiles::tile_count(self.screen_w, self.screen_h)
        &&& self.delta_count <= KEYFRAME_INTERVAL
    }

    /// A keyframe must be sent though no client asked for one: on the first
    /// capture, after a change of resolution, and periodically.
    pub open spec fn keyframe_scheduled(self, width: u32, height: u32) -> bool {
        ||| self.tile_hashes.len() == 0
        ||| width != self.screen_w
        ||| height != self.screen_h
        ||| self.delta_count % KEYFRAME_INTERVAL == 0
    }

    /// A keyframe must be sent.
    pub open spec fn keyframe_due(self, width: u32, height: u32) -> bool {
        self.keyframe_scheduled(width, height) || self.force_keyframe
    }

    /// The state once the question whether a keyframe is due was asked: a
    /// request is used up only where nothing else called for a keyframe.
    pub open spec fn keyframe_asked(self, width: u32, height: u32) -> CaptureView {
        CaptureView {
            force_keyframe: self.force_keyframe && self.keyframe_scheduled(width, height),
            ..self
        }
    }

    /// Milliseconds between captures: fewer when the screen changes, more when it
    /// has been still for a while.
    pub open spec fn interval(self) -> u64 {
        if self.idle_count >= IDLE_BACKOFF_AFTER {
            CAPTURE_MS_IDLE
        } else {
            CAPTURE_MS
        }
    }

    /// The state after a capture was compared with the last one.
    pub open spec fn captured(self, img: Frame) -> CaptureView {
        CaptureView {
            tile_hashes: tiles::frame_hashes(img),
            screen_w: img.width,
            screen_h: img.height,
            delta_count: if self.keyframe_due(img.width, img.height) {
                1
            } else {
                (self.delta_count + 1) as u32
            },
            ..self.keyframe_asked(img.width, img.height)
        }
    }
}

/// What is to be sent for one capture.
pub enum FramePlan {
    /// The whole picture.
    Keyframe { width: u32, height: u32 },
    /// The tiles that changed; none if the screen is unchanged.
    Delta { width: u32, height: u32, tiles: Vec<TileRect> },
}

/// The tiles among the first `n` whose hashes differ, row by row.
pub open spec fn dirty_tiles(
    width: u32,
    height: u32,
    before: Seq<u64>,
    after: Seq<u64>,
    n: nat,
) -> Seq<TileRect>
    decreases n,
{
    if n == 0 {
        Seq::empty()
    } else {
        let rest = dirty_tiles(width, height, before, after, (n - 1) as nat);
        if before[n - 1] != after[n - 1] {
            rest.push(tiles::tile_rect(width, height, n - 1))
        } else {
            rest
        }
    }
}

impl FramePlan {
    /// The plan for a capture, made in state `s`.
    pub open spec fn describes(self, s: CaptureView, img: Frame) -> bool {
        match self {
            FramePlan::Keyframe { width, height } => {
                &&& s.keyframe_due(img.width, img.height)
                &&& width == img.width
                &&& height == img.height
            },
            FramePlan::Delta { width, height, tiles } => {
                &&& !s.keyframe_due(img.width, img.height)
                &&& width == img.width
                &&& height == img.height
                &&& tiles@ == dirty_tiles(
                    width,
                    height,
                    s.tile_hashes,
                    tiles::frame_hashes(img),
                    s.tile_hashes.len(),
                )
            },
        }
    }

    /// The plan is for a picture of this size, and its tiles lie inside it.
    pub open spec fn fits(self, img: Frame) -> bool {
        match self {
            FramePlan::Keyframe { width, height } => width == img.width && height == img.height,
            FramePlan::Delta { width, height, tiles } => {
                &&& width == img.width
                &&& height == img.height
                &&& forall|i: int|
                    0 <= i < tiles@.len() ==> tiles::rect_inside(img, #[trigger] tiles@[i])
            },
        }
    }

    /// How many pictures are to be encoded.
    pub open spec fn job_count(self) -> nat {
        match self {
            FramePlan::Keyframe { .. } => 1,
            FramePlan::Delta { tiles, .. } => tiles@.len(),
        }
    }
}

impl CaptureState {
    /// The state before the first capture.
    pub fn new(force_keyframe: bool) -> (state: Self)
        ensures
            state@ == (CaptureView {
                tile_hashes: Seq::empty(),
                screen_w: 0,
                screen_h: 0,
                delta_count: 0,
                idle_count: 0,
                force_keyframe,
            }),
            state@.wf(),
    {
        let state = CaptureState {
            tile_hashes: Vec::new(),
            screen_w: 0,
            screen_h: 0,
            delta_count: 0,
            idle_count: 0,
            force_keyframe,
        };
        assert(state@.tile_hashes =~= Seq::<u64>::empty());
        state
    }

    /// Asks for a keyframe: a client just joined.
    pub fn request_keyframe(&mut self)
        ensures
            final(self)@ == (CaptureView { force_keyframe: true, ..old(self)@ }),
    {
        self.force_keyframe = true;
    }

    /// True when a full keyframe must be sent regardless of tile hashes. Uses
    /// up a client's request where nothing else calls for a keyframe.
    pub fn needs_keyframe(&mut self, img: &Frame) -> (due: bool)
        ensures
            due == old(self)@.keyframe_due(img.width, img.height),
            !due ==> {
                &&& img.width == old(self)@.screen_w
                &&& img.height == old(self)@.screen_h
                &&& !old(self)@.force_keyframe
                &&& final(self)@ == old(self)@
            },
            final(self)@ == old(self)@.keyframe_asked(img.width, img.height),
    {
        if self.tile_hashes.len() == 0 || img.width != self.screen_w || img.height != self.screen_h
            || self.delta_count % KEYFRAME_INTERVAL == 0 {
            return true;
        }
        let forced = self.force_keyframe;
        self.force_keyframe = false;
        forced
    }

    /// Milliseconds between captures: fast when active, slow when idle.
    pub fn sleep_interval(&self) -> (millis: u64)
        ensures
            millis == self@.interval(),
            self@.idle_count >= 6 ==> millis == 150,
            self@.idle_count < 6 ==> millis == 50,
    {
        if self.idle_count >= IDLE_BACKOFF_AFTER {
            CAPTURE_MS_IDLE
        } else {
            CAPTURE_MS
        }
    }

    /// Nanoseconds to wait before the next capture when this one took
    /// `elapsed` nanoseconds.
    pub fn pause_after(&self, elapsed: u128) -> (nanos: u64)
        ensures
            nanos == if elapsed < self@.interval() * 1_000_000 {
                self@.interval() * 1_000_000 - elapsed
            } else {
                0
            },
    {
        let interval: u64 = self.sleep_interval() * 1_000_000;
        if elapsed < interval as u128 {
            interval - elapsed as u64
        } else {
            0
        }
    }
}

/// The tiles whose hashes differ, row by row.
fn find_dirty_tiles(img: &Frame, before: &Vec<u64>, after: &Vec<u64>) -> (dirty: Vec<TileRect>)
    requires
        img.wf(),
        before@.len() == tiles::tile_count(img.width, img.height),
        after@.len() == before@.len(),
    ensures
        dirty@ == dirty_tiles(img.width, img.height, before@, after@, before@.len()),
        forall|i: int| 0 <= i < dirty@.len() ==> tiles::tile_fits(*img, #[trigger] dirty@[i]),
{
    let rects = tiles::tiles_of(img);
    let mut dirty: Vec<TileRect> = Vec::new();
    let mut i: usize = 0;
    while i < rects.len()
        invariant
            i <= rects@.len(),
            before@.len() == rects@.len(),
            after@.len() == rects@.len(),
            rects@ == tiles::frame_tiles(img.width, img.height),
            forall|j: int| 0 <= j < rects@.len() ==> tiles::tile_fits(*img, #[trigger] rects@[j]),
            dirty@ == dirty_tiles(img.width, img.height, before@, after@, i as nat),
            forall|j: int| 0 <= j < dirty@.len() ==> tiles::tile_fits(*img, #[trigger] dirty@[j]),
        decreases rects@.len() - i,
    {
        if before[i] != after[i] {
            dirty.push(rects[i]);
        }
        i = i + 1;
    }
    dirty
}

/// Compares a capture with the last one: the state then remembers this one, and
/// the plan says what is to be encoded and sent.
pub fn plan_frame(state: &mut CaptureState, img: &Frame) -> (plan: FramePlan)
    requires
        old(state)@.wf(),
        img.wf(),
    ensures
        final(state)@ == old(state)@.captured(*img),
        final(state)@.wf(),
        plan.describes(old(state)@, *img),
        plan.fits(*img),
        plan is Keyframe <==> {
            ||| old(state)@.tile_hashes.len() == 0
            ||| img.width != old(state)@.screen_w
            ||| img.height != old(state)@.screen_h
            ||| old(state)@.delta_count % 120 == 0
            ||| old(state)@.force_keyframe
        },
        match plan {
            FramePlan::Keyframe { width, height } => width == img.width && height == img.height,
            FramePlan::Delta { width, height, .. } => width == img.width && height == img.height,
        },
        final(state)@.screen_w == img.width,
        final(state)@.screen_h == img.height,
        final(state)@.tile_hashes == tiles::frame_hashes(*img),
        final(state)@.delta_count == if plan is Keyframe {
            1
        } else {
            old(state)@.delta_count + 1
        },
        final(state)@.idle_count == old(state)@.idle_count,
{
    let hashes = tiles::hash_tiles(img);
    if state.needs_keyframe(img) {
        state.screen_w = img.width;
        state.screen_h = img.height;
        state.delta_count = 1;
        state.tile_hashes = hashes;
        return FramePlan::Keyframe { width: img.width, height: img.height };
    }
    state.delta_count = state.delta_count + 1;
    let dirty = find_dirty_tiles(img, &state.tile_hashes, &hashes);
    proof {
        assert forall|i: int| 0 <= i < dirty@.len() implies tiles::rect_inside(
            *img,
            #[trigger] dirty@[i],
        ) by {
            tiles::lemma_tile_inside(*img, dirty@[i]);
        }
    }
    state.tile_hashes = hashes;
    FramePlan::Delta { width: img.width, height: img.height, tiles: dirty }
}

/// How a picture's colour is thinned out in the JPEG file.
#[derive(Clone, Copy, Debug, PartialEq, Eq, Structural)]
pub enum Subsampling {
    /// 4:4:4, full colour resolution.
    Full,
    /// 4:2:0, a quarter of the colour resolution.
    Quarter,
}

/// What the JPEG compressor is to be given: a rectangle of a pixel buffer, its
/// first byte and the distance between rows, so that no pixel is copied.
#[derive(Clone, Copy, Debug, PartialEq, Eq, Structural)]
pub struct EncodeJob {
    pub offset: usize,
    pub width: usize,
    pub pitch: usize,
    pub height: usize,
    pub quality: i32,
    pub subsampling: Subsampling,
}

impl EncodeJob {
    /// All rows of the rectangle lie inside a buffer of `len` bytes.
    pub open spec fn readable(self, len: int) -> bool {
        &&& self.offset <= len
        &&& self.height > 0 ==> self.offset + self.pitch * (self.height - 1) + 4 * self.width
            <= len
    }
}

/// The job for a whole picture.
pub open spec fn picture_job(img: Frame, quality: u8) -> EncodeJob {
    EncodeJob {
        offset: 0,
        width: img.width as usize,
        pitch: (img.width * 4) as usize,
        height: img.height as usize,
        quality: quality as i32,
        subsampling: Subsampling::Full,
    }
}

/// The job for one rectangle of a picture.
pub open spec fn tile_job(img: Frame, r: TileRect, quality: u8) -> EncodeJob {
    EncodeJob {
        offset: tiles::pixel_offset(img.width, r.x as int, r.y as int) as usize,
        width: r.w as usize,
        pitch: (img.width * 4) as usize,
        height: r.h as usize,
        quality: quality as i32,
        subsampling: Subsampling::Quarter,
    }
}

/// The jobs of a plan, in order.
pub open spec fn jobs_of(plan: FramePlan, img: Frame) -> Seq<EncodeJob> {
    match plan {
        FramePlan::Keyframe { .. } => seq![picture_job(img, QUALITY_KEY)],
        FramePlan::Delta { tiles, .. } => Seq::new(
            tiles@.len(),
            |i: int| tile_job(img, tiles@[i], QUALITY_TILE),
        ),
    }
}

/// What to give the compressor for a full picture. Colour is kept at full
/// resolution, so that colored text and sharp edges are rendered faithfully.
pub fn encode_jpeg(img: &Frame, quality: u8) -> (job: EncodeJob)
    requires
        img.holds_pixels(),
    ensures
        job == picture_job(*img, quality),
        job.offset == 0,
        job.width == img.width,
        job.pitch == 4 * img.width,
        job.height == img.height,
        job.quality == quality,
        job.subsampling is Full,
        job.readable(img.pixels@.len() as int),
{
    let len: usize = img.pixels.len();
    let pitch: usize = img.width as usize * 4;
    proof {
        if img.height > 0 {
            assert(pitch * (img.height - 1) + 4 * img.width == 4 * (img.width * img.height))
                by (nonlinear_arith)
                requires
                    pitch == 4 * img.width,
            ;
        }
    }
    EncodeJob {
        offset: 0,
        width: img.width as usize,
        pitch,
        height: img.height as usize,
        quality: quality as i32,
        subsampling: Subsampling::Full,
    }
}

/// What to give the compressor for a rectangle of a picture: it addresses the
/// rectangle inside the picture's own buffer.
pub fn encode_tile(img: &Frame, r: TileRect, quality: u8) -> (job: EncodeJob)
    requires
        img.holds_pixels(),
        tiles::rect_inside(*img, r),
    ensures
        job == tile_job(*img, r, quality),
        job.offset == (r.y * img.width + r.x) * 4,
        job.width == r.w,
        job.pitch == 4 * img.width,
        job.height == r.h,
        job.quality == quality,
        job.subsampling is Quarter,
        job.readable(img.pixels@.len() as int),
{
    let len: usize = img.pixels.len();
    let pitch: usize = img.width as usize * 4;
    proof {
        assert(0 <= r.y * pitch == (r.y * img.width) * 4) by (nonlinear_arith)
            requires
                pitch == 4 * img.width,
        ;
        if r.h > 0 {
            let last = r.y + r.h - 1;
            assert(r.y * pitch + pitch * (r.h - 1) == (last * img.width) * 4) by (nonlinear_arith)
                requires
                    pitch == 4 * img.width,
                    last == r.y + r.h - 1,
            ;
            assert(last * img.width + img.width <= img.width * img.height) by (nonlinear_arith)
                requires
                    last + 1 <= img.height,
                    0 <= img.width,
            ;
        }
    }
    let offset: usize = r.y as usize * pitch + r.x as usize * 4;
    EncodeJob {
        offset,
        width: r.w as usize,
        pitch,
        height: r.h as usize,
        quality: quality as i32,
        subsampling: Subsampling::Quarter,
    }
}

/// The pictures that a plan has encoded: one for a keyframe, one for each dirty
/// tile of a delta frame.
pub fn encode_jobs(plan: &FramePlan, img: &Frame) -> (jobs: Vec<EncodeJob>)
    requires
        img.holds_pixels(),
        plan.fits(*img),
    ensures
        jobs@ == jobs_of(*plan, *img),
        jobs@.len() == plan.job_count(),
        match plan {
            FramePlan::Keyframe { .. } => {
                &&& jobs@.len() == 1
                &&& jobs@[0].offset == 0
                &&& jobs@[0].width == img.width
                &&& jobs@[0].height == img.height
                &&& jobs@[0].quality == 75
                &&& jobs@[0].subsampling is Full
            },
            FramePlan::Delta { tiles, .. } => {
                &&& jobs@.len() == tiles@.len()
                &&& forall|i: int|
                    #![trigger jobs@[i]]
                    #![trigger tiles@[i]]
                    0 <= i < jobs@.len() ==> {
                        &&& jobs@[i].offset == (tiles@[i].y * img.width + tiles@[i].x) * 4
                        &&& jobs@[i].width == tiles@[i].w
                        &&& jobs@[i].height == tiles@[i].h
                        &&& jobs@[i].quality == 65
                        &&& jobs@[i].subsampling is Quarter
                    }
            },
        },
        forall|i: int| 0 <= i < jobs@.len() ==> (#[trigger] jobs@[i]).pitch == 4 * img.width,
        forall|i: int|
            0 <= i < jobs@.len() ==> (#[trigger] jobs@[i]).readable(img.pixels@.len() as int),
{
    let mut jobs: Vec<EncodeJob> = Vec::new();
    match plan {
        FramePlan::Keyframe { .. } => {
            jobs.push(encode_jpeg(img, QUALITY_KEY));
        },
        FramePlan::Delta { width, height, tiles } => {
            let mut i: usize = 0;
            while i < tiles.len()
                invariant
                    i <= tiles@.len(),
                    jobs@.len() == i,
                    img.holds_pixels(),
                    forall|j: int|
                        0 <= j < tiles@.len() ==> tiles::rect_inside(*img, #[trigger] tiles@[j]),
                    forall|j: int|
                        #![trigger jobs@[j]]
                        #![trigger tiles@[j]]
                        0 <= j < i ==> jobs@[j].readable(img.pixels@.len() as int) && jobs@[j]
                            == tile_job(*img, tiles@[j], QUALITY_TILE) && jobs@[j].offset == (
                        tiles@[j].y * img.width + tiles@[j].x) * 4 && jobs@[j].width == tiles@[j].w
                            && jobs@[j].height == tiles@[j].h && jobs@[j].pitch == 4 * img.width,
                decreases tiles@.len() - i,
            {
                jobs.push(encode_tile(img, tiles[i], QUALITY_TILE));
                i = i + 1;
            }
        },
    }
    assert(jobs@ =~= jobs_of(*plan, *img));
    jobs
}

/// The tiles among the first `n` that could be encoded, with their pictures.
pub open spec fn encoded_tiles(
    rects: Seq<TileRect>,
    encoded: Seq<Option<Vec<u8>>>,
    n: nat,
) -> Seq<TileUpdate>
    decreases n,
{
    if n == 0 {
        Seq::empty()
    } else {
        let rest = encoded_tiles(rects, encoded, (n - 1) as nat);
        match encoded[n - 1] {
            Some(jpeg) => rest.push(
                TileUpdate {
                    x: rects[n - 1].x,
                    y: rects[n - 1].y,
                    tile_width: rects[n - 1].w,
                    tile_height: rects[n - 1].h,
                    jpeg_data: jpeg,
                },
            ),
            None => rest,
        }
    }
}

/// How many of the first `n` jobs could be encoded.
pub open spec fn encoded_count(encoded: Seq<Option<Vec<u8>>>, n: nat) -> nat
    decreases n,
{
    if n == 0 {
        0
    } else if encoded[n - 1] is Some {
        encoded_count(encoded, (n - 1) as nat) + 1
    } else {
        encoded_count(encoded, (n - 1) as nat)
    }
}

/// Every tile among the first `n` that could be encoded has its place, in order.
proof fn lemma_encoded_tiles(rects: Seq<TileRect>, encoded: Seq<Option<Vec<u8>>>, n: nat)
    ensures
        encoded_tiles(rects, encoded, n).len() == encoded_count(encoded, n),
        encoded_count(encoded, n) == 0 <==> forall|i: int|
            0 <= i < n ==> #[trigger] encoded[i] is None,
        forall|i: int|
            #![trigger encoded[i]]
            0 <= i < n ==> (encoded[i] matches Some(jpeg) ==> encoded_count(encoded, i as nat)
                < encoded_count(encoded, n) && encoded_tiles(rects, encoded, n)[encoded_count(
                encoded,
                i as nat,
            ) as int] == (TileUpdate {
                x: rects[i].x,
                y: rects[i].y,
                tile_width: rects[i].w,
                tile_height: rects[i].h,
                jpeg_data: jpeg,
            })),
    decreases n,
{
    if n > 0 {
        lemma_encoded_tiles(rects, encoded, (n - 1) as nat);
        if encoded[n - 1] is Some {
            assert(!(encoded[n - 1] is None));
        }
    }
}

/// The frame to send, given what the compressor made of each job: `None` for a
/// job that it could not encode.
pub open spec fn assembled(plan: FramePlan, encoded: Seq<Option<Vec<u8>>>) -> Option<
    messages::FrameDataView,
> {
    match plan {
        FramePlan::Keyframe { width, height } => Some(
            messages::FrameDataView {
                width,
                height,
                is_keyframe: true,
                jpeg_data: match encoded[0] {
                    Some(jpeg) => jpeg@,
                    None => Seq::empty(),
                },
                tiles: Seq::empty(),
            },
        ),
        FramePlan::Delta { width, height, tiles } => {
            let dirty = encoded_tiles(tiles@, encoded, tiles@.len());
            if dirty.len() == 0 {
                None
            } else {
                Some(
                    messages::FrameDataView {
                        width,
                        height,
                        is_keyframe: false,
                        jpeg_data: Seq::empty(),
                        tiles: dirty,
                    },
                )
            }
        },
    }
}

impl CaptureView {
    /// The state once the frame of a plan was put together: a delta frame that
    /// carries tiles ends an idle phase, one without any prolongs it.
    pub open spec fn computed(self, plan: FramePlan, encoded: Seq<Option<Vec<u8>>>) -> CaptureView {
        match plan {
            FramePlan::Keyframe { .. } => self,
            FramePlan::Delta { .. } => CaptureView {
                idle_count: if assembled(plan, encoded) is Some {
                    0
                } else if self.idle_count == u32::MAX {
                    u32::MAX
                } else {
                    (self.idle_count + 1) as u32
                },
                ..self
            },
        }
    }
}

/// Puts together the frame for a plan from the encoded pictures, one for each
/// job, in order.
///
/// Returns `None` when the screen has not changed (no frame to send), otherwise
/// either a full JPEG (keyframe) or a list of dirty tiles (delta frame). A tile
/// that could not be encoded is left out; a keyframe that could not be is empty.
pub fn compute_frame(
    state: &mut CaptureState,
    plan: FramePlan,
    encoded: Vec<Option<Vec<u8>>>,
) -> (frame: Option<FrameData>)
    requires
        encoded@.len() == plan.job_count(),
    ensures
        match frame {
            Some(f) => assembled(plan, encoded@) == Some(f@),
            None => assembled(plan, encoded@) is None,
        },
        final(state)@ == old(state)@.computed(plan, encoded@),
        match plan {
            FramePlan::Keyframe { width, height } => {
                &&& frame matches Some(f)
                &&& f.is_keyframe
                &&& f.width == width
                &&& f.height == height
                &&& f.tiles@.len() == 0
                &&& encoded@[0] matches Some(jpeg) ==> f.jpeg_data@ == jpeg@
                &&& encoded@[0] is None ==> f.jpeg_data@.len() == 0
                &&& final(state)@ == old(state)@
            },
            FramePlan::Delta { width, height, tiles } => {
                &&& frame is None <==> forall|i: int|
                    0 <= i < encoded@.len() ==> #[trigger] encoded@[i] is None
                &&& frame matches Some(f) ==> {
                    &&& !f.is_keyframe
                    &&& f.width == width
                    &&& f.height == height
                    &&& f.jpeg_data@.len() == 0
                    &&& f.tiles@.len() == encoded_count(encoded@, encoded@.len())
                    &&& forall|i: int|
                        #![trigger encoded@[i]]
                        #![trigger tiles@[i]]
                        0 <= i < encoded@.len() ==> (encoded@[i] matches Some(jpeg) ==> {
                            let sent = f.tiles@[encoded_count(encoded@, i as nat) as int];
                            &&& encoded_count(encoded@, i as nat) < f.tiles@.len()
                            &&& sent.x == tiles@[i].x
                            &&& sent.y == tiles@[i].y
                            &&& sent.tile_width == tiles@[i].w
                            &&& sent.tile_height == tiles@[i].h
                            &&& sent.jpeg_data@ == jpeg@
                        })
                }
                &&& frame is Some ==> final(state)@.idle_count == 0
                &&& frame is None && old(state)@.idle_count < u32::MAX
                    ==> final(state)@.idle_count == old(state)@.idle_count + 1
                &&& frame is None && old(state)@.idle_count == u32::MAX
                    ==> final(state)@.idle_count == u32::MAX
                &&& final(state)@ == (CaptureView {
                    idle_count: final(state)@.idle_count,
                    ..old(state)@
                })
            },
        },
{
    let ghost pictures = encoded@;
    match plan {
        FramePlan::Keyframe { width, height } => {
            let mut encoded = encoded;
            let jpeg_data = match encoded.pop() {
                Some(Some(jpeg)) => jpeg,
                _ => Vec::new(),
            };
            let frame = FrameData { width, height, is_keyframe: true, jpeg_data, tiles: Vec::new() };
            assert(assembled(plan, pictures) =~~= Some(frame@));
            Some(frame)
        },
        FramePlan::Delta { width, height, tiles } => {
            let mut dirty: Vec<TileUpdate> = Vec::new();
            let count: usize = tiles.len();
            let mut i: usize = 0;
            for picture in it: encoded
                invariant
                    i == it.index(),
                    count == tiles@.len(),
                    it.seq() == pictures,
                    tiles@.len() == pictures.len(),
                    dirty@ == encoded_tiles(tiles@, pictures, i as nat),
            {
                if let Some(jpeg) = picture {
                    let r: TileRect = tiles[i];
                    dirty.push(
                        TileUpdate {
                            x: r.x,
                            y: r.y,
                            tile_width: r.w,
                            tile_height: r.h,
                            jpeg_data: jpeg,
                        },
                    );
                }
                i = i + 1;
            }
            proof {
                lemma_encoded_tiles(tiles@, pictures, pictures.len());
            }
            if dirty.len() == 0 {
                state.idle_count = state.idle_count.saturating_add(1);
                return None;
            }
            state.idle_count = 0;
            let frame = FrameData {
                width,
                height,
                is_keyframe: false,
                jpeg_data: Vec::new(),
                tiles: dirty,
            };
            assert(assembled(plan, pictures) =~~= Some(frame@));
            Some(frame)
        },
    }
}

/// Where no hash changed, no tile is dirty.
proof fn lemma_no_dirty_tiles(width: u32, height: u32, hashes: Seq<u64>, n: nat)
    ensures
        dirty_tiles(width, height, hashes, hashes, n) == Seq::<TileRect>::empty(),
    decreases n,
{
    if n > 0 {
        lemma_no_dirty_tiles(width, height, hashes, (n - 1) as nat);
    }
}

/// Where one hash changed, its tile is the only dirty one.
proof fn lemma_one_dirty_tile(
    width: u32,
    height: u32,
    before: Seq<u64>,
    after: Seq<u64>,
    k: int,
    n: nat,
)
    requires
        n <= before.len(),
        before.len() == after.len(),
        forall|i: int| 0 <= i < before.len() ==> (before[i] != after[i] <==> i == k),
    ensures
        dirty_tiles(width, height, before, after, n) == if 0 <= k < n {
            seq![tiles::tile_rect(width, height, k)]
        } else {
            Seq::<TileRect>::empty()
        },
    decreases n,
{
    if n > 0 {
        lemma_one_dirty_tile(width, height, before, after, k, (n - 1) as nat);
        assert(dirty_tiles(width, height, before, after, n) =~= if 0 <= k < n {
            seq![tiles::tile_rect(width, height, k)]
        } else {
            Seq::<TileRect>::empty()
        });
    }
}

/// The dirty tiles among the first `n` are those whose hashes differ.
proof fn lemma_dirty_tiles_contain(
    width: u32,
    height: u32,
    before: Seq<u64>,
    after: Seq<u64>,
    n: nat,
    r: TileRect,
)
    ensures
        dirty_tiles(width, height, before, after, n).contains(r) <==> exists|i: int|
            0 <= i < n && before[i] != after[i] && #[trigger] tiles::tile_rect(width, height, i)
                == r,
    decreases n,
{
    if n > 0 {
        let rest = dirty_tiles(width, height, before, after, (n - 1) as nat);
        let all = dirty_tiles(width, height, before, after, n);
        lemma_dirty_tiles_contain(width, height, before, after, (n - 1) as nat, r);
        if all.contains(r) {
            let j = choose|j: int| 0 <= j < all.len() && all[j] == r;
            if j < rest.len() {
                assert(rest[j] == r);
            } else {
                assert(tiles::tile_rect(width, height, n - 1) == r);
            }
        }
        if exists|i: int|
            0 <= i < n && before[i] != after[i] && #[trigger] tiles::tile_rect(width, height, i)
                == r {
            let i = choose|i: int|
                0 <= i < n && before[i] != after[i] && #[trigger] tiles::tile_rect(width, height, i)
                    == r;
            if i == n - 1 {
                assert(all[rest.len() as int] == r);
            } else {
                let j = choose|j: int| 0 <= j < rest.len() && rest[j] == r;
                assert(all[j] == r);
            }
        }
    }
}

/// The first capture gives a keyframe, whatever its size.
pub proof fn law_first_capture_is_a_keyframe(s: CaptureView, img: Frame, plan: FramePlan)
    requires
        s.tile_hashes.len() == 0,
        plan.describes(s, img),
    ensures
        plan is Keyframe,
{
}

/// A change of resolution gives a keyframe.
pub proof fn law_resolution_change_gives_a_keyframe(
    s: CaptureView,
    first: Frame,
    second: Frame,
    plan: FramePlan,
)
    requires
        second.width != first.width || second.height != first.height,
        plan.describes(s.captured(first), second),
    ensures
        plan is Keyframe,
{
}

/// When a client has joined, the next capture gives a keyframe.
pub proof fn law_joined_client_gets_a_keyframe(s: CaptureView, img: Frame, plan: FramePlan)
    requires
        plan.describes(CaptureView { force_keyframe: true, ..s }, img),
    ensures
        plan is Keyframe,
{
}

/// An unchanged screen sends nothing: where no keyframe is due, capturing a
/// picture again leaves no tile to encode and no frame to send.
pub proof fn law_unchanged_screen_sends_nothing(s: CaptureView, img: Frame, plan: FramePlan)
    requires
        !s.captured(img).keyframe_due(img.width, img.height),
        plan.describes(s.captured(img), img),
    ensures
        plan.job_count() == 0,
        assembled(plan, Seq::empty()) is None,
        s.captured(img).captured(img).tile_hashes == s.captured(img).tile_hashes,
{
    lemma_no_dirty_tiles(
        img.width,
        img.height,
        tiles::frame_hashes(img),
        tiles::frame_hashes(img).len(),
    );
}

/// A delta frame asks for exactly the tiles whose hashes changed since the last
/// capture.
pub proof fn law_delta_carries_the_changed_tiles(
    s: CaptureView,
    first: Frame,
    second: Frame,
    plan: FramePlan,
    i: int,
)
    requires
        first.wf(),
        second.wf(),
        plan.describes(s.captured(first), second),
        plan is Delta,
        0 <= i < tiles::tile_count(second.width, second.height),
    ensures
        plan->tiles@.contains(tiles::tile_rect(second.width, second.height, i)) <==> (
        tiles::frame_hashes(first)[i] != tiles::frame_hashes(second)[i]),
{
    let width = second.width;
    let height = second.height;
    let before = tiles::frame_hashes(first);
    let after = tiles::frame_hashes(second);
    let r = tiles::tile_rect(width, height, i);
    lemma_dirty_tiles_contain(width, height, before, after, before.len(), r);
    tiles::lemma_tile_rect_fits(second, i);
    assert forall|j: int|
        0 <= j < before.len() && #[trigger] tiles::tile_rect(width, height, j) == r implies j
        == i by {
        tiles::lemma_tile_rect_fits(second, j);
        tiles::law_tiles_partition_the_screen(second, r.x as int, r.y as int, i);
        tiles::law_tiles_partition_the_screen(second, r.x as int, r.y as int, j);
    }
}

/// Only tiles that changed are sent: a tile that a delta frame carries holds
/// other pixels than it did at the last capture.
pub proof fn law_only_changed_tiles_are_sent(
    s: CaptureView,
    first: Frame,
    second: Frame,
    plan: FramePlan,
    i: int,
)
    requires
        first.wf(),
        second.wf(),
        plan.describes(s.captured(first), second),
        plan is Delta,
        0 <= i < tiles::tile_count(second.width, second.height),
        plan->tiles@.contains(tiles::tile_rect(second.width, second.height, i)),
    ensures
        ({
            let r = tiles::tile_rect(second.width, second.height, i);
            tiles::rect_bytes(first.pixels@, first.width, r.x, r.y, r.w, r.h as nat)
                != tiles::rect_bytes(second.pixels@, second.width, r.x, r.y, r.w, r.h as nat)
        }),
{
    law_delta_carries_the_changed_tiles(s, first, second, plan, i);
}

/// When a single byte of the picture changed since the last capture, and no
/// keyframe is due, exactly one tile is sent: the one that holds the pixel.
pub proof fn law_one_changed_byte_sends_one_tile(
    s: CaptureView,
    first: Frame,
    second: Frame,
    p: int,
    plan: FramePlan,
)
    requires
        first.wf(),
        second.wf(),
        first.width == second.width,
        first.height == second.height,
        tiles::differ_only_at(first.pixels@, second.pixels@, p),
        p < 4 * (first.width * first.height),
        !s.captured(first).keyframe_due(second.width, second.height),
        plan.describes(s.captured(first), second),
    ensures
        plan is Delta,
        plan->tiles@.len() == 1,
        tiles::rect_contains(
            plan->tiles@[0],
            p / 4 % first.width as int,
            p / 4 / first.width as int,
        ),
{
    let before = tiles::frame_hashes(first);
    let after = tiles::frame_hashes(second);
    let width = first.width as int;
    let px = p / 4 % width;
    let py = p / 4 / width;
    assert(width > 0 && 0 <= px < width && 0 <= py < first.height) by (nonlinear_arith)
        requires
            0 <= p < 4 * (width * first.height),
            width >= 0,
            px == p / 4 % width,
            py == p / 4 / width,
    ;
    let k = py / 128 * tiles::tiles_across(first.width) + px / 128;
    assert forall|i: int| 0 <= i < before.len() implies (before[i] != after[i] <==> i == k) by {
        tiles::law_one_changed_byte_changes_one_tile(first, second, p, i);
        tiles::law_tiles_partition_the_screen(first, px, py, i);
    }
    assert(0 <= k < before.len() && tiles::rect_contains(
        tiles::tile_rect(first.width, first.height, k),
        px,
        py,
    )) by {
        assert(before.len() > 0);
        tiles::law_tiles_partition_the_screen(first, px, py, 0);
        tiles::law_tiles_partition_the_screen(first, px, py, k);
    }
    lemma_one_dirty_tile(first.width, first.height, before, after, k, before.len());
}

/// A keyframe comes at least once in every `KEYFRAME_INTERVAL` captures: among
/// so many consecutive ones, starting from any state, one is a keyframe. In
/// between, frames may be put together and clients may join: neither touches
/// the count.
pub proof fn law_keyframes_come_periodically(states: Seq<CaptureView>, imgs: Seq<Frame>)
    requires
        states.len() == KEYFRAME_INTERVAL,
        imgs.len() == KEYFRAME_INTERVAL,
        states[0].wf(),
        forall|i: int|
            #![trigger states[i]]
            0 < i < KEYFRAME_INTERVAL ==> states[i].delta_count == states[i - 1].captured(
                imgs[i - 1],
            ).delta_count,
    ensures
        exists|i: int|
            #![trigger states[i]]
            0 <= i < KEYFRAME_INTERVAL && states[i].keyframe_due(imgs[i].width, imgs[i].height),
{
    if !exists|i: int|
        #![trigger states[i]]
        0 <= i < KEYFRAME_INTERVAL && states[i].keyframe_due(imgs[i].width, imgs[i].height) {
        let c = states[0].delta_count as int;
        assert(!states[0].keyframe_due(imgs[0].width, imgs[0].height));
        lemma_count_without_keyframe(states, imgs, KEYFRAME_INTERVAL - c);
        let last = states[KEYFRAME_INTERVAL - c];
        assert(last.delta_count % KEYFRAME_INTERVAL == 0);
    }
}

/// A still screen is polled slowly: after `IDLE_BACKOFF_AFTER` consecutive
/// captures that gave no frame, the interval is the longer one.
pub proof fn law_still_screen_is_polled_slowly(
    states: Seq<CaptureView>,
    plans: Seq<FramePlan>,
    encoded: Seq<Seq<Option<Vec<u8>>>>,
)
    requires
        states.len() == IDLE_BACKOFF_AFTER + 1,
        plans.len() == IDLE_BACKOFF_AFTER,
        encoded.len() == IDLE_BACKOFF_AFTER,
        forall|i: int|
            #![trigger states[i]]
            0 < i <= IDLE_BACKOFF_AFTER ==> {
                &&& plans[i - 1] is Delta
                &&& assembled(plans[i - 1], encoded[i - 1]) is None
                &&& states[i].idle_count == states[i - 1].computed(
                    plans[i - 1],
                    encoded[i - 1],
                ).idle_count
            },
    ensures
        states[IDLE_BACKOFF_AFTER as int].interval() == CAPTURE_MS_IDLE,
{
    assert(states[1].idle_count >= 1);
    assert(states[2].idle_count >= 2);
    assert(states[3].idle_count >= 3);
    assert(states[4].idle_count >= 4);
    assert(states[5].idle_count >= 5);
    assert(states[6].idle_count >= 6);
}

/// A screen that changes is polled fast again at once.
pub proof fn law_activity_restores_the_pace(
    s: CaptureView,
    plan: FramePlan,
    encoded: Seq<Option<Vec<u8>>>,
)
    requires
        plan is Delta,
        assembled(plan, encoded) is Some,
    ensures
        s.computed(plan, encoded).interval() == CAPTURE_MS,
{
}

/// A keyframe carries its picture whole: every byte that the compressor gave,
/// and no other, at the size of the plan. Where the compressor gave nothing, the
/// picture is empty.
pub proof fn law_keyframe_carries_its_picture(
    plan: FramePlan,
    encoded: Seq<Option<Vec<u8>>>,
    width: u32,
    height: u32,
)
    requires
        plan == (FramePlan::Keyframe { width, height }),
        encoded.len() == 1,
    ensures
        assembled(plan, encoded) matches Some(f) && {
            &&& f.is_keyframe
            &&& f.width == width
            &&& f.height == height
            &&& f.tiles.len() == 0
            &&& encoded[0] matches Some(jpeg) ==> {
                &&& f.jpeg_data.len() == jpeg@.len()
                &&& forall|i: int|
                    0 <= i < jpeg@.len() ==> #[trigger] f.jpeg_data[i] == jpeg@[i]
            }
            &&& encoded[0] is None ==> f.jpeg_data.len() == 0
        },
{
}

/// A delta frame carries the picture of every tile that was encoded, whole, in
/// its place and in order, and nothing else. There is no frame if and only if no
/// tile was encoded.
pub proof fn law_delta_carries_the_encoded_tiles(
    plan: FramePlan,
    encoded: Seq<Option<Vec<u8>>>,
    i: int,
)
    requires
        plan is Delta,
        encoded.len() == plan->tiles@.len(),
        0 <= i < encoded.len(),
    ensures
        encoded[i] matches Some(jpeg) ==> {
            &&& assembled(plan, encoded) matches Some(f)
            &&& !f.is_keyframe
            &&& f.width == plan->Delta_width
            &&& f.height == plan->Delta_height
            &&& f.jpeg_data.len() == 0
            &&& f.tiles.len() == encoded_count(encoded, encoded.len())
            &&& encoded_count(encoded, i as nat) < f.tiles.len()
            &&& ({
                let sent = f.tiles[encoded_count(encoded, i as nat) as int];
                &&& sent.x == plan->tiles@[i].x
                &&& sent.y == plan->tiles@[i].y
                &&& sent.tile_width == plan->tiles@[i].w
                &&& sent.tile_height == plan->tiles@[i].h
                &&& sent.jpeg_data@ == jpeg@
            })
        },
        assembled(plan, encoded) is None <==> forall|j: int|
            0 <= j < encoded.len() ==> #[trigger] encoded[j] is None,
{
    lemma_encoded_tiles(plan->tiles@, encoded, encoded.len());
}

/// Where every tile was encoded, the delta frame has one picture for each dirty
/// tile, at the same index.
pub proof fn law_fully_encoded_delta_matches_its_plan(
    plan: FramePlan,
    encoded: Seq<Option<Vec<u8>>>,
    i: int,
)
    requires
        plan is Delta,
        encoded.len() == plan->tiles@.len(),
        forall|j: int| 0 <= j < encoded.len() ==> #[trigger] encoded[j] is Some,
        0 <= i < encoded.len(),
    ensures
        assembled(plan, encoded) matches Some(f) && {
            &&& f.tiles.len() == plan->tiles@.len()
            &&& f.tiles[i].x == plan->tiles@[i].x
            &&& f.tiles[i].y == plan->tiles@[i].y
            &&& f.tiles[i].tile_width == plan->tiles@[i].w
            &&& f.tiles[i].tile_height == plan->tiles@[i].h
            &&& f.tiles[i].jpeg_data == encoded[i]->0
        },
{
    lemma_encoded_tiles(plan->tiles@, encoded, encoded.len());
    lemma_all_encoded(encoded, encoded.len());
    lemma_all_encoded(encoded, i as nat);
    assert(encoded[i] is Some);
}

/// Where all jobs could be encoded, they are counted one by one.
proof fn lemma_all_encoded(encoded: Seq<Option<Vec<u8>>>, n: nat)
    requires
        n <= encoded.len(),
        forall|j: int| 0 <= j < encoded.len() ==> #[trigger] encoded[j] is Some,
    ensures
        encoded_count(encoded, n) == n,
    decreases n,
{
    if n > 0 {
        lemma_all_encoded(encoded, (n - 1) as nat);
    }
}

/// Putting a frame together leaves everything as it is but the count of idle
/// captures, and a keyframe leaves that too.
pub proof fn law_frames_touch_only_the_idle_count(
    s: CaptureView,
    plan: FramePlan,
    encoded: Seq<Option<Vec<u8>>>,
)
    ensures
        ({
            let after = s.computed(plan, encoded);
            &&& after.tile_hashes == s.tile_hashes
            &&& after.screen_w == s.screen_w
            &&& after.screen_h == s.screen_h
            &&& after.delta_count == s.delta_count
            &&& after.force_keyframe == s.force_keyframe
            &&& plan is Keyframe ==> after.idle_count == s.idle_count
            &&& after.idle_count <= s.idle_count + 1
        }),
{
}

/// A keyframe comes only for a reason: right after a capture of the same,
/// non-empty size, without a client's request, the next frame is a delta frame
/// unless the count of captures is a multiple of 120.
pub proof fn law_keyframes_come_only_for_a_reason(
    s: CaptureView,
    first: Frame,
    second: Frame,
    plan: FramePlan,
)
    requires
        s.wf(),
        first.wf(),
        second.width == first.width,
        second.height == first.height,
        first.width > 0,
        first.height > 0,
        !s.force_keyframe,
        plan.describes(s.captured(first), second),
    ensures
        plan is Keyframe ==> s.captured(first).delta_count % 120 == 0,
        s.captured(first).delta_count == 1 || s.captured(first).delta_count == s.delta_count + 1,
        s.captured(first).idle_count == s.idle_count,
        s.captured(first).screen_w == first.width,
        s.captured(first).screen_h == first.height,
        s.captured(first).tile_hashes.len() == tiles::tile_count(first.width, first.height),
{
    assert(tiles::tile_count(first.width, first.height) > 0) by (nonlinear_arith)
        requires
            tiles::tiles_across(first.width) > 0,
            tiles::tiles_across(first.height) > 0,
    ;
}

/// A client's request is answered by exactly one keyframe of its own: it is used
/// up by the capture that it alone turned into a keyframe, and kept by one that
/// was to be a keyframe anyway.
pub proof fn law_request_is_answered_by_one_keyframe(s: CaptureView, img: Frame)
    requires
        s.force_keyframe,
    ensures
        s.captured(img).force_keyframe <==> (s.tile_hashes.len() == 0 || img.width != s.screen_w
            || img.height != s.screen_h || s.delta_count % 120 == 0),
        s.captured(img).delta_count == 1,
{
}

/// Without a request, none appears.
pub proof fn law_no_request_appears(s: CaptureView, img: Frame)
    requires
        !s.force_keyframe,
    ensures
        !s.captured(img).force_keyframe,
{
}

/// The plan has the size of the picture.
pub proof fn law_plan_has_the_size_of_the_picture(s: CaptureView, img: Frame, plan: FramePlan)
    requires
        plan.describes(s, img),
    ensures
        match plan {
            FramePlan::Keyframe { width, height } => width == img.width && height == img.height,
            FramePlan::Delta { width, height, .. } => width == img.width && height == img.height,
        },
{
}

/// The changed tiles come row by row, each once: each one lies to the right of
/// the one before or in a lower row.
pub proof fn law_changed_tiles_come_in_order(
    s: CaptureView,
    first: Frame,
    second: Frame,
    plan: FramePlan,
    a: int,
    b: int,
)
    requires
        first.wf(),
        second.wf(),
        plan.describes(s.captured(first), second),
        plan is Delta,
        0 <= a < b < plan->tiles@.len(),
    ensures
        ({
            let before = plan->tiles@[a];
            let after = plan->tiles@[b];
            before.y < after.y || (before.y == after.y && before.x < after.x)
        }),
{
    lemma_dirty_tiles_in_order(
        second,
        tiles::frame_hashes(first),
        tiles::frame_hashes(second),
        tiles::frame_hashes(first).len(),
        a,
        b,
    );
}

/// The number of a tile, told by where it lies.
spec fn tile_number(img: Frame, r: TileRect) -> int {
    r.y / 128 * tiles::tiles_across(img.width) + r.x / 128
}

proof fn lemma_dirty_tile_numbers(
    img: Frame,
    before: Seq<u64>,
    after: Seq<u64>,
    n: nat,
    a: int,
    b: int,
)
    requires
        img.wf(),
        n <= tiles::tile_count(img.width, img.height),
        0 <= a < b < dirty_tiles(img.width, img.height, before, after, n).len(),
    ensures
        ({
            let all = dirty_tiles(img.width, img.height, before, after, n);
            tile_number(img, all[a]) < tile_number(img, all[b]) < n
        }),
        ({
            let all = dirty_tiles(img.width, img.height, before, after, n);
            &&& tiles::tile_fits(img, all[a]) && tiles::tile_fits(img, all[b])
            &&& all[a].y % 128 == 0 && all[b].y % 128 == 0
        }),
    decreases n,
{
    let all = dirty_tiles(img.width, img.height, before, after, n);
    let rest = dirty_tiles(img.width, img.height, before, after, (n - 1) as nat);
    if b < rest.len() {
        lemma_dirty_tile_numbers(img, before, after, (n - 1) as nat, a, b);
    } else {
        lemma_dirty_tile_number(img, before, after, (n - 1) as nat, a);
        tiles::law_tiles_are_squares_cut_off_at_the_edges(img, n - 1);
        tiles::lemma_tile_rect_fits(img, n - 1);
    }
}

proof fn lemma_dirty_tile_number(img: Frame, before: Seq<u64>, after: Seq<u64>, n: nat, a: int)
    requires
        img.wf(),
        n <= tiles::tile_count(img.width, img.height),
        0 <= a < dirty_tiles(img.width, img.height, before, after, n).len(),
    ensures
        tile_number(img, dirty_tiles(img.width, img.height, before, after, n)[a]) < n,
        tiles::tile_fits(img, dirty_tiles(img.width, img.height, before, after, n)[a]),
        dirty_tiles(img.width, img.height, before, after, n)[a].y % 128 == 0,
    decreases n,
{
    let rest = dirty_tiles(img.width, img.height, before, after, (n - 1) as nat);
    if a < rest.len() {
        lemma_dirty_tile_number(img, before, after, (n - 1) as nat, a);
    } else {
        tiles::law_tiles_are_squares_cut_off_at_the_edges(img, n - 1);
        tiles::lemma_tile_rect_fits(img, n - 1);
    }
}

proof fn lemma_dirty_tiles_in_order(
    img: Frame,
    before: Seq<u64>,
    after: Seq<u64>,
    n: nat,
    a: int,
    b: int,
)
    requires
        img.wf(),
        n <= tiles::tile_count(img.width, img.height),
        0 <= a < b < dirty_tiles(img.width, img.height, before, after, n).len(),
    ensures
        ({
            let r = dirty_tiles(img.width, img.height, before, after, n)[a];
            let q = dirty_tiles(img.width, img.height, before, after, n)[b];
            r.y < q.y || (r.y == q.y && r.x < q.x)
        }),
{
    lemma_dirty_tile_numbers(img, before, after, n, a, b);
    let r = dirty_tiles(img.width, img.height, before, after, n)[a];
    let q = dirty_tiles(img.width, img.height, before, after, n)[b];
    let columns = tiles::tiles_across(img.width);
    let (ry, rx, qy, qx) = (r.y / 128, r.x / 128, q.y / 128, q.x / 128);
    assert(ry < qy || (ry == qy && rx < qx)) by (nonlinear_arith)
        requires
            ry * columns + rx < qy * columns + qx,
            0 <= rx < columns,
            0 <= qx < columns,
    ;
}

/// What the compressor is given for a tile is the tile's own pixels: the byte in
/// column `k` of row `d` that the job addresses is the one that was hashed.
pub proof fn law_tile_jobs_read_the_tiles(img: Frame, r: TileRect, quality: u8, d: int, k: int)
    requires
        img.holds_pixels(),
        tiles::tile_fits(img, r),
        0 <= d < r.h,
        0 <= k < 4 * r.w,
    ensures
        ({
            let job = tile_job(img, r, quality);
            let bytes = tiles::rect_bytes(img.pixels@, img.width, r.x, r.y, r.w, r.h as nat);
            &&& job.width == r.w
            &&& job.height == r.h
            &&& job.quality == quality
            &&& job.offset + d * job.pitch + k < img.pixels@.len()
            &&& img.pixels@[job.offset + d * job.pitch + k] == bytes[d * (4 * r.w) + k]
        }),
{
    let len = img.pixels.len();
    tiles::lemma_tile_inside(img, r);
    tiles::lemma_rect_bytes_index(img.pixels@, img.width, r.x, r.y, r.w, r.h as nat, d, k);
    let pitch = img.width * 4;
    assert((r.y * img.width + r.x) * 4 + d * pitch == ((r.y + d) * img.width + r.x) * 4)
        by (nonlinear_arith)
        requires
            pitch == img.width * 4,
    ;
    assert(0 <= r.y * img.width) by (nonlinear_arith);
    let row = r.y + d;
    assert(row * img.width + img.width <= img.width * img.height) by (nonlinear_arith)
        requires
            row + 1 <= img.height,
            0 <= img.width,
    ;
}

/// What the compressor is given for a keyframe is the whole picture.
pub proof fn law_picture_job_reads_the_picture(img: Frame, quality: u8)
    requires
        img.holds_pixels(),
    ensures
        ({
            let job = picture_job(img, quality);
            &&& job.offset == 0
            &&& job.width == img.width
            &&& job.height == img.height
            &&& job.pitch == 4 * img.width
            &&& job.quality == quality
        }),
{
}

/// Without a keyframe the count goes up by one with every capture.
proof fn lemma_count_without_keyframe(states: Seq<CaptureView>, imgs: Seq<Frame>, n: int)
    requires
        states.len() == KEYFRAME_INTERVAL,
        imgs.len() == KEYFRAME_INTERVAL,
        0 <= n < KEYFRAME_INTERVAL,
        states[0].delta_count + n <= KEYFRAME_INTERVAL,
        forall|i: int|
            #![trigger states[i]]
            0 < i < KEYFRAME_INTERVAL ==> states[i].delta_count == states[i - 1].captured(
                imgs[i - 1],
            ).delta_count,
        forall|i: int|
            #![trigger states[i]]
            0 <= i < KEYFRAME_INTERVAL ==> !states[i].keyframe_due(imgs[i].width, imgs[i].height),
    ensures
        states[n].delta_count == states[0].delta_count + n,
    decreases n,
{
    if n > 0 {
        lemma_count_without_keyframe(states, imgs, n - 1);
        assert(states[n].delta_count == states[n - 1].captured(imgs[n - 1]).delta_count);
        assert(!states[n - 1].keyframe_due(imgs[n - 1].width, imgs[n - 1].height));
    }
}

} // verus!
