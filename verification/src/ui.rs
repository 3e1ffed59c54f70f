use vstd::prelude::*;

verus! {

/// Where on the screen an overlay video is pinned.
#[derive(Debug, Clone, Copy, PartialEq, Eq, Structural)]
pub enum VideoPosition {
    Top,
    TopRight,
    Right,
    BottomRight,
    Bottom,
    BottomLeft,
    Left,
    TopLeft,
}

impl Default for VideoPosition {
    fn default() -> (position: Self)
        ensures
            position == VideoPosition::Right,
    {
        VideoPosition::Right
    }
}

impl VideoPosition {
    pub open spec fn spec_css(self) -> Seq<char> {
        match self {
            VideoPosition::Top => "top:0;left:50%;transform:translateX(-50%);"@,
            VideoPosition::TopRight => "top:0;right:0;"@,
            VideoPosition::Right => "right:0;top:50%;transform:translateY(-50%);"@,
            VideoPosition::BottomRight => "bottom:0;right:0;"@,
            VideoPosition::Bottom => "bottom:0;left:50%;transform:translateX(-50%);"@,
            VideoPosition::BottomLeft => "bottom:0;left:0;"@,
            VideoPosition::Left => "left:0;top:50%;transform:translateY(-50%);"@,
            VideoPosition::TopLeft => "top:0;left:0;"@,
        }
    }

    /// The CSS declarations that pin a video at this position.
    pub fn to_css(self) -> (css: &'static str)
        ensures
            css@ == self.spec_css(),
    {
        match self {
            VideoPosition::Top => "top:0;left:50%;transform:translateX(-50%);",
            VideoPosition::TopRight => "top:0;right:0;",
            VideoPosition::Right => "right:0;top:50%;transform:translateY(-50%);",
            VideoPosition::BottomRight => "bottom:0;right:0;",
            VideoPosition::Bottom => "bottom:0;left:50%;transform:translateX(-50%);",
            VideoPosition::BottomLeft => "bottom:0;left:0;",
            VideoPosition::Left => "left:0;top:50%;transform:translateY(-50%);",
            VideoPosition::TopLeft => "top:0;left:0;",
        }
    }
}

/// The style of the box around an overlay video: pinned at `position`, above the page,
/// letting clicks through, and hidden unless the video is playing.
pub open spec fn spec_overlay_style(position: VideoPosition, playing: bool) -> Seq<char> {
    "position:fixed;"@ + position.spec_css() + "z-index:50;pointer-events:none;"@
        + if playing { Seq::<char>::empty() } else { "visibility:hidden;"@ }
}

/// Writes the style of the box around an overlay video.
pub fn overlay_style(position: VideoPosition, playing: bool) -> (style: String)
    ensures
        style@ == spec_overlay_style(position, playing),
{
    let mut style = String::from_str("position:fixed;");
    style.append(position.to_css());
    style.append("z-index:50;pointer-events:none;");
    if !playing {
        style.append("visibility:hidden;");
    } else {
        assert(style@ == style@ + Seq::<char>::empty());
    }
    style
}

/// A box that is not playing has the style of a playing one, then `visibility:hidden;`.
pub proof fn overlay_boxes_hide_until_playing(position: VideoPosition)
    ensures
        spec_overlay_style(position, false) == spec_overlay_style(position, true) + "visibility:hidden;"@,
        spec_overlay_style(position, true) == "position:fixed;"@ + position.spec_css() + "z-index:50;pointer-events:none;"@,
{
    assert(spec_overlay_style(position, true) =~= "position:fixed;"@ + position.spec_css()
        + "z-index:50;pointer-events:none;"@);
}

/// `label` (a property name and a colon), the value and `;`, or nothing where there is no value.
pub open spec fn declaration(label: Seq<char>, value: Option<&str>) -> Seq<char> {
    match value {
        Some(v) => label + v@ + ";"@,
        None => Seq::<char>::empty(),
    }
}

/// The style that sizes an overlay video: its width, then its height, each where it is given.
pub open spec fn spec_video_size_style(width: Option<&str>, height: Option<&str>) -> Seq<char> {
    declaration("width:"@, width) + declaration("height:"@, height)
}

/// Writes the style that sizes an overlay video.
pub fn video_size_style(width: Option<&str>, height: Option<&str>) -> (style: String)
    ensures
        style@ == spec_video_size_style(width, height),
{
    let mut style = String::new();
    if let Some(w) = width {
        style.append("width:");
        style.append(w);
        style.append(";");
    }
    assert(style@ =~= declaration("width:"@, width));
    let ghost before = style@;
    if let Some(h) = height {
        style.append("height:");
        style.append(h);
        style.append(";");
        assert(style@ =~= before + declaration("height:"@, height));
    } else {
        assert(style@ =~= before + declaration("height:"@, height));
    }
    style
}

/// The size style gives the width where there is one, then the height where there is one,
/// each as `name:value;`, and nothing where neither is given.
pub proof fn video_sizes_are_width_then_height(width: &str, height: &str)
    ensures
        spec_video_size_style(Some(width), None) == "width:"@ + width@ + ";"@,
        spec_video_size_style(None, Some(height)) == "height:"@ + height@ + ";"@,
        spec_video_size_style(Some(width), Some(height)) == spec_video_size_style(Some(width), None)
            + spec_video_size_style(None, Some(height)),
        spec_video_size_style(None, None) == Seq::<char>::empty(),
{
    assert(spec_video_size_style(Some(width), None) =~= "width:"@ + width@ + ";"@);
    assert(spec_video_size_style(None, Some(height)) =~= "height:"@ + height@ + ";"@);
    assert(spec_video_size_style(None, None) =~= Seq::<char>::empty());
}

pub open spec fn spec_reveal_class(visible: bool) -> Seq<char> {
    if visible {
        "animate-in fade-in zoom-in slide-in-from-bottom duration-500"@
    } else {
        "opacity-0"@
    }
}

/// The class of a block that fades in once it scrolls into view.
pub fn reveal_class(visible: bool) -> (class: &'static str)
    ensures
        class@ == spec_reveal_class(visible),
{
    if visible {
        "animate-in fade-in zoom-in slide-in-from-bottom duration-500"
    } else {
        "opacity-0"
    }
}

pub open spec fn spec_navbar_class(floating: bool) -> Seq<char> {
    "fixed inset-x-0 top-0 z-50 px-4 transition-all duration-300 ease-out "@
        + if floating { "pt-4"@ } else { "pt-0"@ }
}

/// The class of the navigation bar, which moves down a little once the page is scrolled.
pub fn navbar_class(floating: bool) -> (class: String)
    ensures
        class@ == spec_navbar_class(floating),
{
    let mut class = String::from_str("fixed inset-x-0 top-0 z-50 px-4 transition-all duration-300 ease-out ");
    class.append(if floating { "pt-4" } else { "pt-0" });
    class
}

pub open spec fn spec_navbar_backdrop_class(floating: bool) -> Seq<char> {
    "absolute inset-0 border border-white/10 bg-base-200/80 backdrop-blur-md pointer-events-none transition-all duration-300 ease-out "@
        + if floating { "rounded-2xl shadow-2xl"@ } else { "rounded-t-none rounded-b-2xl shadow-lg"@ }
}

/// The class of the backdrop behind the navigation bar, fully rounded once the bar floats.
pub fn navbar_backdrop_class(floating: bool) -> (class: String)
    ensures
        class@ == spec_navbar_backdrop_class(floating),
{
    let mut class = String::from_str(
        "absolute inset-0 border border-white/10 bg-base-200/80 backdrop-blur-md pointer-events-none transition-all duration-300 ease-out ",
    );
    class.append(if floating { "rounded-2xl shadow-2xl" } else { "rounded-t-none rounded-b-2xl shadow-lg" });
    class
}

pub open spec fn spec_chevron_class(open: bool) -> Seq<char> {
    "h-3 w-3 transition-transform duration-200"@ + if open { Seq::<char>::empty() } else { " -rotate-90"@ }
}

/// The class of the chevron of the info dropdown, which points down while the dropdown is open.
pub fn chevron_class(open: bool) -> (class: String)
    ensures
        class@ == spec_chevron_class(open),
{
    let mut class = String::from_str("h-3 w-3 transition-transform duration-200");
    if !open {
        class.append(" -rotate-90");
    } else {
        assert(class@ == class@ + Seq::<char>::empty());
    }
    class
}

/// The navigation bar and its backdrop keep their classes when they float, but for the last
/// part; and a closed dropdown's chevron has the open one's class, then ` -rotate-90`.
pub proof fn classes_change_only_their_state_part()
    ensures
        spec_navbar_class(true) == "fixed inset-x-0 top-0 z-50 px-4 transition-all duration-300 ease-out "@ + "pt-4"@,
        spec_navbar_class(false) == "fixed inset-x-0 top-0 z-50 px-4 transition-all duration-300 ease-out "@ + "pt-0"@,
        spec_chevron_class(false) == spec_chevron_class(true) + " -rotate-90"@,
        spec_chevron_class(true) == "h-3 w-3 transition-transform duration-200"@,
        spec_reveal_class(false) == "opacity-0"@,
{
    assert(spec_chevron_class(true) =~= "h-3 w-3 transition-transform duration-200"@);
}

/// Which of the navigation menus are open.
#[derive(Debug, Clone, Copy, PartialEq, Eq, Structural)]
pub struct NavMenus {
    pub profile_open: bool,
    pub mobile_open: bool,
    pub info_open: bool,
}

impl Default for NavMenus {
    fn default() -> (menus: Self)
        ensures
            !menus.profile_open && !menus.mobile_open && !menus.info_open,
    {
        NavMenus { profile_open: false, mobile_open: false, info_open: false }
    }
}

impl NavMenus {
    pub open spec fn spec_any_open(self) -> bool {
        self.profile_open || self.mobile_open || self.info_open
    }

    /// Whether any menu is open (and a click outside should close them).
    pub fn any_open(&self) -> (open: bool)
        ensures
            open == self.spec_any_open(),
    {
        self.profile_open || self.mobile_open || self.info_open
    }

    /// Closes every menu.
    pub fn close_all(&mut self)
        ensures
            !final(self).profile_open,
            !final(self).mobile_open,
            !final(self).info_open,
    {
        self.profile_open = false;
        self.mobile_open = false;
        self.info_open = false;
    }

    /// Opens the profile menu if it is closed, and closes it if it is open.
    pub fn toggle_profile(&mut self)
        ensures
            *final(self) == (NavMenus { profile_open: !old(self).profile_open, ..*old(self) }),
    {
        self.profile_open = !self.profile_open;
    }

    /// Opens the mobile menu if it is closed, and closes it if it is open.
    pub fn toggle_mobile(&mut self)
        ensures
            *final(self) == (NavMenus { mobile_open: !old(self).mobile_open, ..*old(self) }),
    {
        self.mobile_open = !self.mobile_open;
    }

    /// Opens the info dropdown if it is closed, and closes it if it is open.
    pub fn toggle_info(&mut self)
        ensures
            *final(self) == (NavMenus { info_open: !old(self).info_open, ..*old(self) }),
    {
        self.info_open = !self.info_open;
    }
}

/// The menus count as open whenever any one of them is open, and only then.
pub proof fn any_open_menu_counts(m: NavMenus)
    ensures
        m.profile_open ==> m.spec_any_open(),
        m.mobile_open ==> m.spec_any_open(),
        m.info_open ==> m.spec_any_open(),
        !m.profile_open && !m.mobile_open && !m.info_open ==> !m.spec_any_open(),
{
}

/// After `close_all`, no menu is open, whatever was open before.
pub proof fn closing_all_leaves_none_open(after: NavMenus)
    requires
        !after.profile_open,
        !after.mobile_open,
        !after.info_open,
    ensures
        !after.spec_any_open(),
{
}

/// Toggling a menu twice leaves every menu as it was.
pub proof fn toggling_twice_restores(m: NavMenus)
    ensures
        ({
            let once = NavMenus { profile_open: !m.profile_open, ..m };
            NavMenus { profile_open: !once.profile_open, ..once } == m
        }),
        ({
            let once = NavMenus { mobile_open: !m.mobile_open, ..m };
            NavMenus { mobile_open: !once.mobile_open, ..once } == m
        }),
        ({
            let once = NavMenus { info_open: !m.info_open, ..m };
            NavMenus { info_open: !once.info_open, ..once } == m
        }),
{
}

/// Videos that join a group one after another, starting from an empty group, are numbered
/// 0, 1, 2, ... in the order they joined, no two alike, and the group counts them all.
/// `groups[i]` is the group before the `i`-th `join`, and `ids[i]` what that `join` gave back.
pub proof fn joins_number_videos_in_order(groups: Seq<OverlayGroup>, ids: Seq<usize>)
    requires
        groups.len() == ids.len() + 1,
        groups[0].spec_child_count() == 0,
        forall|i: int| 0 <= i < ids.len() ==> #[trigger] ids[i] == groups[i].spec_child_count()
            && groups[i + 1].spec_child_count() == groups[i].spec_child_count() + 1,
    ensures
        groups.last().spec_child_count() == ids.len(),
        forall|i: int| 0 <= i < ids.len() ==> #[trigger] ids[i] == i,
        forall|i: int, j: int| 0 <= i < ids.len() && 0 <= j < ids.len() && i != j ==> ids[i] != ids[j],
    decreases ids.len(),
{
    if ids.len() > 0 {
        let k = ids.len() - 1;
        joins_number_videos_in_order(groups.drop_last(), ids.drop_last());
        assert(ids[k] == groups[k].spec_child_count());
        assert(groups.drop_last().last() == groups[k]);
        assert forall|i: int| 0 <= i < ids.len() implies #[trigger] ids[i] == i by {
            if i < k {
                assert(ids.drop_last()[i] == ids[i]);
            }
        }
    }
}

/// A group of overlay videos of which at most one plays at a time, picked at random
/// every so often.
#[derive(Debug)]
pub struct OverlayGroup {
    active: Option<usize>,
    child_count: usize,
    frequency_ms: u32,
}

impl OverlayGroup {
    /// The video playing, if any.
    pub closed spec fn spec_active(self) -> Option<usize> {
        self.active
    }

    /// How many videos have joined the group.
    pub closed spec fn spec_child_count(self) -> usize {
        self.child_count
    }

    /// The mean pause between two videos, in milliseconds.
    pub closed spec fn spec_frequency_ms(self) -> u32 {
        self.frequency_ms
    }

    /// The videos that play are ones that joined.
    pub closed spec fn wf(self) -> bool {
        self.active matches Some(id) ==> id < self.child_count
    }

    /// An empty group whose videos play about every `frequency_secs` seconds.
    pub fn new(frequency_secs: u32) -> (group: Self)
        ensures
            group.wf(),
            group.spec_active() is None,
            group.spec_child_count() == 0,
            group.spec_frequency_ms() == if frequency_secs * 1000 <= u32::MAX {
                (frequency_secs * 1000) as u32
            } else {
                u32::MAX
            },
    {
        let frequency_ms = if frequency_secs <= 4294967 { frequency_secs * 1000 } else { u32::MAX };
        OverlayGroup { active: None, child_count: 0, frequency_ms }
    }

    /// The mean pause between two videos, in milliseconds.
    pub fn frequency_ms(&self) -> (ms: u32)
        ensures
            ms == self.spec_frequency_ms(),
    {
        self.frequency_ms
    }

    /// How many videos have joined the group.
    pub fn child_count(&self) -> (count: usize)
        ensures
            count == self.spec_child_count(),
    {
        self.child_count
    }

    /// Adds a video to the group, and gives back the number by which the group knows it.
    pub fn join(&mut self) -> (id: usize)
        requires
            old(self).wf(),
            old(self).spec_child_count() < usize::MAX,
        ensures
            final(self).wf(),
            id == old(self).spec_child_count(),
            final(self).spec_child_count() == old(self).spec_child_count() + 1,
            final(self).spec_active() == old(self).spec_active(),
            final(self).spec_frequency_ms() == old(self).spec_frequency_ms(),
    {
        let id = self.child_count;
        self.child_count = self.child_count + 1;
        id
    }

    /// Whether the video `id` is the one playing.
    pub fn is_playing(&self, id: usize) -> (playing: bool)
        ensures
            playing == (self.spec_active() == Some(id)),
    {
        match self.active {
            Some(active) => active == id,
            None => false,
        }
    }

    /// Starts the video at `pick`, a position drawn at random, brought within the group;
    /// an empty group plays nothing.
    pub fn start(&mut self, pick: usize)
        requires
            old(self).wf(),
        ensures
            final(self).wf(),
            final(self).spec_child_count() == old(self).spec_child_count(),
            final(self).spec_frequency_ms() == old(self).spec_frequency_ms(),
            old(self).spec_child_count() == 0 ==> final(self).spec_active() == old(self).spec_active(),
            old(self).spec_child_count() > 0 ==> final(self).spec_active() == Some(
                if pick < old(self).spec_child_count() { pick } else { (old(self).spec_child_count() - 1) as usize },
            ),
    {
        if self.child_count > 0 {
            let last = self.child_count - 1;
            self.active = Some(if pick < last { pick } else { last });
        }
    }

    /// Stops the video playing, once it has ended.
    pub fn stop(&mut self)
        requires
            old(self).wf(),
        ensures
            final(self).wf(),
            final(self).spec_active() is None,
            final(self).spec_child_count() == old(self).spec_child_count(),
            final(self).spec_frequency_ms() == old(self).spec_frequency_ms(),
    {
        self.active = None;
    }
}

} // verus!
