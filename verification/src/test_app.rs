//! The stereo test application: what its frame loop does, and what it picks.

use crate::text::parse_u32;
use crate::upload::{Barrier, ImagePlan};
use crate::vk::{
    queue_flags_contain, ACCESS_COLOR_WRITE, ACCESS_DEPTH_WRITE, ACCESS_NONE, ASPECT_COLOR,
    ASPECT_DEPTH, FORMAT_B8G8R8A8_SRGB, FORMAT_D32_SFLOAT, FORMAT_R8G8B8A8_SRGB,
    LAYOUT_COLOR_ATTACHMENT, LAYOUT_DEPTH_ATTACHMENT, LAYOUT_UNDEFINED, MEMORY_DEVICE_LOCAL,
    QUEUE_GRAPHICS, SAMPLES_1, STAGE_COLOR_OUTPUT_EARLY_TESTS, STAGE_TOP, USAGE_DEPTH_ATTACHMENT,
    VIEW_2D,
};
use vstd::prelude::*;

verus! {

/// The frames after which the application ends, where nothing else is asked
/// for.
pub const DEFAULT_FRAMES: u32 = 900;

/// The last frame that is not counted into the render time: until then
/// pipelines are cached and memory is allocated.
pub const WARM_UP: u32 = 30;

/// What the runtime reports.
#[derive(Clone, Copy, Debug, PartialEq, Eq, Structural)]
pub enum AppEvent {
    Ready,
    Stopping,
    Exiting,
    LossPending,
    InstanceLossPending,
    Other,
}

/// What the application does about it.
#[derive(Clone, Copy, Debug, PartialEq, Eq, Structural)]
pub enum AppAction {
    Begin,
    End,
    Quit,
    Nothing,
}

/// The state of the frame loop: whether the session runs, the frames rendered,
/// and the eye renders counted into the render time.
#[derive(Clone, Copy, Debug, PartialEq, Eq, Structural)]
pub struct AppState {
    pub running: bool,
    pub frame: u32,
    pub samples: u64,
}

/// What the application does in one turn of its loop.
#[derive(Clone, Copy, Debug, PartialEq, Eq, Structural)]
pub enum FramePlan {
    /// End the frame without drawing.
    Empty,
    /// Draw both eyes, maybe after asking the session to exit, and count the
    /// render time or not.
    Draw { request_exit: bool, timed: bool },
}

/// What the application does about an event.
pub open spec fn action_for(event: AppEvent) -> AppAction {
    match event {
        AppEvent::Ready => AppAction::Begin,
        AppEvent::Stopping => AppAction::End,
        AppEvent::Exiting | AppEvent::LossPending | AppEvent::InstanceLossPending => AppAction::Quit,
        AppEvent::Other => AppAction::Nothing,
    }
}

/// Whether the session runs after an event.
pub open spec fn runs_after(event: AppEvent, running: bool) -> bool {
    match event {
        AppEvent::Ready => true,
        AppEvent::Stopping => false,
        _ => running,
    }
}

/// What the application does in a frame.
pub open spec fn frame_plan(frame: u32, should_render: bool, max_frames: u32) -> FramePlan {
    if should_render {
        FramePlan::Draw {
            request_exit: max_frames != 0 && frame >= max_frames,
            timed: frame > WARM_UP,
        }
    } else {
        FramePlan::Empty
    }
}

/// The eye renders that are counted, after one more in a frame.
pub open spec fn samples_after(frame: u32, samples: u64) -> int {
    if frame > WARM_UP {
        samples + 1
    } else {
        samples as int
    }
}

/// The number of frames to render, from the setting of it.
pub open spec fn frames_asked(setting: Option<Seq<char>>) -> u32 {
    match setting {
        Some(s) => match crate::text::fitting_number(s) {
            Some(n) => n,
            None => DEFAULT_FRAMES,
        },
        None => DEFAULT_FRAMES,
    }
}

/// The colour format to use.
pub open spec fn format_picked(formats: Seq<u32>) -> Option<i32> {
    if formats.contains(FORMAT_B8G8R8A8_SRGB as u32) {
        Some(FORMAT_B8G8R8A8_SRGB)
    } else if formats.contains(FORMAT_R8G8B8A8_SRGB as u32) {
        Some(FORMAT_R8G8B8A8_SRGB)
    } else if formats.len() > 0 {
        Some(formats[0] as i32)
    } else {
        None
    }
}

/// Whether `r` is the first queue family that can draw.
pub open spec fn family_found(flags: Seq<u32>, r: Option<u32>) -> bool {
    match r {
        Some(i) => first_graphics(flags, i as int),
        None => forall|i: int| !first_graphics(flags, i),
    }
}

/// The depth image of an eye's extent.
pub open spec fn depth_image(width: u32, height: u32) -> ImagePlan {
    ImagePlan {
        format: FORMAT_D32_SFLOAT,
        width,
        height,
        layers: 1,
        samples: SAMPLES_1,
        usage: USAGE_DEPTH_ATTACHMENT,
        memory: MEMORY_DEVICE_LOCAL,
        view_type: VIEW_2D,
        aspect: ASPECT_DEPTH,
    }
}

/// The change of the colour image's layout before an eye is drawn.
pub open spec fn before_color() -> Barrier {
    Barrier {
        aspect: ASPECT_COLOR,
        base_layer: 0,
        layer_count: 1,
        old_layout: LAYOUT_UNDEFINED,
        new_layout: LAYOUT_COLOR_ATTACHMENT,
        src_stage: STAGE_TOP,
        dst_stage: STAGE_COLOR_OUTPUT_EARLY_TESTS,
        src_access: ACCESS_NONE,
        dst_access: ACCESS_COLOR_WRITE,
    }
}

/// The change of the depth image's layout before an eye is drawn.
pub open spec fn before_depth() -> Barrier {
    Barrier {
        aspect: ASPECT_DEPTH,
        new_layout: LAYOUT_DEPTH_ATTACHMENT,
        dst_access: ACCESS_DEPTH_WRITE,
        ..before_color()
    }
}

impl AppState {
    pub fn new() -> (r: Self)
        ensures
            r == (AppState { running: false, frame: 0, samples: 0 }),
    {
        AppState { running: false, frame: 0, samples: 0 }
    }

    /// What to do about an event. The session runs from READY to STOPPING.
    pub fn handle(&mut self, event: AppEvent) -> (r: AppAction)
        ensures
            r == action_for(event),
            final(self).running == runs_after(event, old(self).running),
            final(self).frame == old(self).frame,
            final(self).samples == old(self).samples,
    {
        match event {
            AppEvent::Ready => {
                self.running = true;
                AppAction::Begin
            },
            AppEvent::Stopping => {
                self.running = false;
                AppAction::End
            },
            AppEvent::Exiting | AppEvent::LossPending | AppEvent::InstanceLossPending => AppAction::Quit,
            AppEvent::Other => AppAction::Nothing,
        }
    }

    /// What to do in a frame. The session is asked to exit from the frame
    /// `max_frames` on; 0 means never.
    pub fn plan_frame(&self, should_render: bool, max_frames: u32) -> (r: FramePlan)
        ensures
            r == frame_plan(self.frame, should_render, max_frames),
    {
        if should_render {
            FramePlan::Draw {
                request_exit: max_frames != 0 && self.frame >= max_frames,
                timed: self.frame > WARM_UP,
            }
        } else {
            FramePlan::Empty
        }
    }

    /// Count one eye render of the current frame.
    pub fn eye_rendered(&mut self)
        requires
            old(self).samples < u64::MAX,
        ensures
            final(self).samples == samples_after(old(self).frame, old(self).samples),
            final(self).running == old(self).running,
            final(self).frame == old(self).frame,
    {
        if self.frame > WARM_UP {
            self.samples = self.samples + 1;
        }
    }

    /// Count a frame that was drawn.
    pub fn frame_drawn(&mut self)
        requires
            old(self).frame < u32::MAX,
        ensures
            final(self).frame == old(self).frame + 1,
            final(self).running == old(self).running,
            final(self).samples == old(self).samples,
    {
        self.frame = self.frame + 1;
    }
}

/// The number of frames to render, from the setting of it. What is no number
/// counts as not set.
pub fn max_frames(setting: Option<&str>) -> (r: u32)
    ensures
        r == frames_asked(
            match setting {
                Some(s) => Some(s@),
                None => None,
            },
        ),
{
    match setting {
        Some(s) => match parse_u32(s) {
            Some(n) => n,
            None => DEFAULT_FRAMES,
        },
        None => DEFAULT_FRAMES,
    }
}

/// Whether a list holds a number.
fn holds(list: &Vec<u32>, x: u32) -> (r: bool)
    ensures
        r == list@.contains(x),
{
    let mut i: usize = 0;
    while i < list.len()
        invariant
            i <= list@.len(),
            forall|k: int| 0 <= k < i ==> list@[k] != x,
        decreases list@.len() - i,
    {
        if list[i] == x {
            return true;
        }
        i = i + 1;
    }
    false
}

/// The colour format to use: one of the two 8-bit sRGB formats, blue first
/// before red first, or else the first that the runtime offers. There is none
/// where it offers none.
pub fn pick_color_format(formats: &Vec<u32>) -> (r: Option<i32>)
    ensures
        r == format_picked(formats@),
{
    if holds(formats, FORMAT_B8G8R8A8_SRGB as u32) {
        Some(FORMAT_B8G8R8A8_SRGB)
    } else if holds(formats, FORMAT_R8G8B8A8_SRGB as u32) {
        Some(FORMAT_R8G8B8A8_SRGB)
    } else if formats.len() > 0 {
        Some(formats[0] as i32)
    } else {
        None
    }
}

/// The queue family at `i` is the first that can draw.
pub open spec fn first_graphics(flags: Seq<u32>, i: int) -> bool {
    &&& 0 <= i < flags.len()
    &&& flags[i] & QUEUE_GRAPHICS == QUEUE_GRAPHICS
    &&& forall|j: int| 0 <= j < i ==> #[trigger] flags[j] & QUEUE_GRAPHICS != QUEUE_GRAPHICS
}

/// The first queue family that can draw, if there is one. `flags` holds those
/// of each family.
pub fn graphics_queue_family(flags: &Vec<u32>) -> (r: Option<u32>)
    requires
        flags@.len() <= u32::MAX,
    ensures
        family_found(flags@, r),
{
    let mut i: usize = 0;
    while i < flags.len()
        invariant
            flags@.len() <= u32::MAX,
            i <= flags@.len(),
            forall|j: int|
                0 <= j < i ==> #[trigger] flags@[j] & QUEUE_GRAPHICS != QUEUE_GRAPHICS,
        decreases flags@.len() - i,
    {
        if queue_flags_contain(flags[i], QUEUE_GRAPHICS) {
            return Some(i as u32);
        }
        i = i + 1;
    }
    None
}

/// The depth image of an eye's extent.
pub fn create_depth(width: u32, height: u32) -> (r: ImagePlan)
    ensures
        r == depth_image(width, height),
{
    ImagePlan {
        format: FORMAT_D32_SFLOAT,
        width,
        height,
        layers: 1,
        samples: SAMPLES_1,
        usage: USAGE_DEPTH_ATTACHMENT,
        memory: MEMORY_DEVICE_LOCAL,
        view_type: VIEW_2D,
        aspect: ASPECT_DEPTH,
    }
}

/// The changes of layout before an eye is drawn: its colour image and the
/// depth image, neither of which is kept.
pub fn render_barriers() -> (r: (Barrier, Barrier))
    ensures
        r.0 == before_color(),
        r.1 == before_depth(),
{
    let color: Barrier = Barrier {
        aspect: ASPECT_COLOR,
        base_layer: 0,
        layer_count: 1,
        old_layout: LAYOUT_UNDEFINED,
        new_layout: LAYOUT_COLOR_ATTACHMENT,
        src_stage: STAGE_TOP,
        dst_stage: STAGE_COLOR_OUTPUT_EARLY_TESTS,
        src_access: ACCESS_NONE,
        dst_access: ACCESS_COLOR_WRITE,
    };
    let mut depth: Barrier = color;
    depth.aspect = ASPECT_DEPTH;
    depth.new_layout = LAYOUT_DEPTH_ATTACHMENT;
    depth.dst_access = ACCESS_DEPTH_WRITE;
    (color, depth)
}

/// The session begins when it is ready and ends when it stops, and runs in
/// between whatever else is reported. The application quits when the session
/// exits or is lost, or the instance is.
pub proof fn session_runs_from_ready_to_stopping(running: bool)
    ensures
        action_for(AppEvent::Ready) == AppAction::Begin,
        action_for(AppEvent::Stopping) == AppAction::End,
        action_for(AppEvent::Exiting) == AppAction::Quit,
        action_for(AppEvent::LossPending) == AppAction::Quit,
        action_for(AppEvent::InstanceLossPending) == AppAction::Quit,
        action_for(AppEvent::Other) == AppAction::Nothing,
        runs_after(AppEvent::Ready, running),
        !runs_after(AppEvent::Stopping, running),
        runs_after(AppEvent::Exiting, running) == running,
        runs_after(AppEvent::LossPending, running) == running,
        runs_after(AppEvent::InstanceLossPending, running) == running,
        runs_after(AppEvent::Other, running) == running,
{
}

/// A frame that is not to be rendered is empty. Any other is drawn; the session
/// is asked to exit once as many frames as asked for were drawn, never where
/// the number is 0; and the render time counts from the 31st frame on.
pub proof fn frames_are_drawn_counted_and_ended(frame: u32, max_frames: u32, samples: u64)
    ensures
        frame_plan(frame, false, max_frames) == FramePlan::Empty,
        frame_plan(frame, true, max_frames) matches FramePlan::Draw { request_exit, timed } && (
        request_exit <==> max_frames > 0 && frame >= max_frames) && (timed <==> frame > 30),
        frame > 30 ==> samples_after(frame, samples) == samples + 1,
        frame <= 30 ==> samples_after(frame, samples) == samples,
{
}

/// A setting that writes a number is taken; without one, or with a text that
/// writes none that fits, 900 frames are rendered.
pub proof fn frames_come_from_setting(s: Seq<char>, n: u32)
    ensures
        frames_asked(None) == 900,
        crate::text::written_number(s) == Some(n as nat) ==> frames_asked(Some(s)) == n,
        crate::text::written_number(s) is None ==> frames_asked(Some(s)) == 900,
        frames_asked(Some(crate::text::decimal(n as nat))) == n,
{
    crate::text::decimal_reads_back(n as nat);
}

/// The format with blue first is taken wherever it is offered, the one with red
/// first where the other is not, and elsewhere the first that is offered.
pub proof fn srgb_formats_are_preferred(formats: Seq<u32>)
    ensures
        formats.contains(50) ==> format_picked(formats) == Some(50i32),
        !formats.contains(50) && formats.contains(43) ==> format_picked(formats) == Some(43i32),
        !formats.contains(50) && !formats.contains(43) && formats.len() > 0 ==> format_picked(
            formats,
        ) == Some(formats[0] as i32),
        format_picked(Seq::empty()) is None,
{
}

/// The queue family can draw, and none before it can; there is none exactly
/// where no family can draw.
pub proof fn family_is_the_first_that_draws(flags: Seq<u32>, r: Option<u32>, i: int)
    requires
        family_found(flags, r),
        0 <= i < flags.len(),
        flags[i] & 1 == 1,
        forall|j: int| 0 <= j < i ==> (#[trigger] flags[j]) & 1 != 1,
    ensures
        r matches Some(k) && k == i,
{
    assert(first_graphics(flags, i));
    if r is Some {
        let k = r->0 as int;
        if k < i {
            assert(flags[k] & 1 != 1);
        }
    }
}

/// Where no family can draw, none is found.
pub proof fn no_family_draws(flags: Seq<u32>, r: Option<u32>)
    requires
        family_found(flags, r),
        forall|j: int| 0 <= j < flags.len() ==> (#[trigger] flags[j]) & 1 != 1,
    ensures
        r is None,
{
}

/// The depth image has the eye's extent, one layer and one sample, and lies on
/// the device.
pub proof fn depth_image_has_the_extent(width: u32, height: u32)
    ensures
        depth_image(width, height).width == width,
        depth_image(width, height).height == height,
        depth_image(width, height).format == 126,
        depth_image(width, height).layers == 1,
        depth_image(width, height).samples == 1,
        depth_image(width, height).usage == 0x20,
        depth_image(width, height).memory == 1,
        depth_image(width, height).view_type == 1,
        depth_image(width, height).aspect == 2,
{
}

/// Before an eye is drawn neither image is kept, both wait for nothing, and the
/// draw waits for both; each goes to the layout of its own kind of attachment.
pub proof fn images_are_prepared_for_drawing()
    ensures
        before_color().aspect == 1,
        before_depth().aspect == 2,
        before_color().old_layout == 0 && before_depth().old_layout == 0,
        before_color().new_layout == 2,
        before_depth().new_layout == 1_000_241_000,
        before_color().src_stage == 1 && before_depth().src_stage == 1,
        before_color().src_access == 0 && before_depth().src_access == 0,
        before_color().dst_stage == 0x500 && before_depth().dst_stage == 0x500,
        before_color().dst_access == 0x100,
        before_depth().dst_access == 0x400,
        before_color().base_layer == 0 && before_depth().base_layer == 0,
        before_color().layer_count == 1 && before_depth().layer_count == 1,
{
}

} // verus!
