//! Output management of the configuration API: handles to connected
//! outputs, their properties, and the pure placement arithmetic behind
//! declarative output layout. The transport that asks the compositor lives
//! outside; every function here works on the values it answered with.

use vstd::prelude::*;

use crate::api_signal::{OutputSignal, SignalHandle, SignalRegistry};
use crate::api_tag::TagHandle;
use crate::api_window::WindowHandle;
use crate::geometry::COORD_LIMIT;
use crate::wire;

verus! {

/// Entry point for getting handles to connected outputs.
#[derive(Clone, Copy, Debug, Default, PartialEq, Eq, Hash, Structural)]
pub struct Output;

/// A handle to an output: its connector name identifies it.
#[derive(Clone, Debug, PartialEq, Eq, Hash)]
pub struct OutputHandle {
    pub name: String,
}

/// An identifier for an output.
#[derive(Clone, Debug, PartialEq, Eq, Hash)]
pub enum OutputId {
    /// Identify using the output's connector name.
    Name(String),
}

/// A location for an output: a fixed point, or relative to another output.
#[derive(Clone, Debug, PartialEq, Eq)]
pub enum OutputLoc {
    /// A specific point in the global space of the form (x, y).
    Point(i32, i32),
    /// A location relative to another output with an [`Alignment`].
    RelativeTo(OutputId, Alignment),
}

/// How an output is placed against another by
/// [`OutputHandle::set_loc_adj_to`].
#[derive(Clone, Copy, Debug, PartialEq, Eq, Hash, Structural)]
pub enum Alignment {
    /// Set above, align left borders.
    TopAlignLeft,
    /// Set above, align centers.
    TopAlignCenter,
    /// Set above, align right borders.
    TopAlignRight,
    /// Set below, align left borders.
    BottomAlignLeft,
    /// Set below, align centers.
    BottomAlignCenter,
    /// Set below, align right borders.
    BottomAlignRight,
    /// Set to left, align top borders.
    LeftAlignTop,
    /// Set to left, align centers.
    LeftAlignCenter,
    /// Set to left, align bottom borders.
    LeftAlignBottom,
    /// Set to right, align top borders.
    RightAlignTop,
    /// Set to right, align centers.
    RightAlignCenter,
    /// Set to right, align bottom borders.
    RightAlignBottom,
}

/// An output transform: the orientation outputs render at.
#[derive(Clone, Copy, Debug, Default, PartialEq, Eq, Hash, Structural)]
pub enum Transform {
    /// No transform.
    #[default]
    Normal,
    /// Ninety degrees counter-clockwise.
    Rotate90,
    /// One hundred eighty degrees counter-clockwise.
    Rotate180,
    /// Two hundred seventy degrees counter-clockwise.
    Rotate270,
    /// Flipped vertically (across the horizontal axis).
    Flipped,
    /// Flipped vertically and rotated ninety degrees counter-clockwise.
    Flipped90,
    /// Flipped vertically and rotated one hundred eighty degrees.
    Flipped180,
    /// Flipped vertically and rotated two hundred seventy degrees.
    Flipped270,
}

impl Transform {
    /// The code this transform travels as on the wire.
    pub open spec fn spec_code(self) -> i32 {
        match self {
            Transform::Normal => 1,
            Transform::Rotate90 => 2,
            Transform::Rotate180 => 3,
            Transform::Rotate270 => 4,
            Transform::Flipped => 5,
            Transform::Flipped90 => 6,
            Transform::Flipped180 => 7,
            Transform::Flipped270 => 8,
        }
    }

    /// The transform a wire code names, if any.
    pub open spec fn spec_from_code(code: i32) -> Option<Transform> {
        if code == 1 {
            Some(Transform::Normal)
        } else if code == 2 {
            Some(Transform::Rotate90)
        } else if code == 3 {
            Some(Transform::Rotate180)
        } else if code == 4 {
            Some(Transform::Rotate270)
        } else if code == 5 {
            Some(Transform::Flipped)
        } else if code == 6 {
            Some(Transform::Flipped90)
        } else if code == 7 {
            Some(Transform::Flipped180)
        } else if code == 8 {
            Some(Transform::Flipped270)
        } else {
            None
        }
    }

    /// Encodes this transform for the wire.
    pub fn code(self) -> (r: i32)
        ensures
            r == self.spec_code(),
    {
        match self {
            Transform::Normal => 1,
            Transform::Rotate90 => 2,
            Transform::Rotate180 => 3,
            Transform::Rotate270 => 4,
            Transform::Flipped => 5,
            Transform::Flipped90 => 6,
            Transform::Flipped180 => 7,
            Transform::Flipped270 => 8,
        }
    }

    /// Decodes a wire code; an unknown code is refused.
    pub fn try_from_code(code: i32) -> (r: Option<Transform>)
        ensures
            r == Self::spec_from_code(code),
    {
        if code == 1 {
            Some(Transform::Normal)
        } else if code == 2 {
            Some(Transform::Rotate90)
        } else if code == 3 {
            Some(Transform::Rotate180)
        } else if code == 4 {
            Some(Transform::Rotate270)
        } else if code == 5 {
            Some(Transform::Flipped)
        } else if code == 6 {
            Some(Transform::Flipped90)
        } else if code == 7 {
            Some(Transform::Flipped180)
        } else if code == 8 {
            Some(Transform::Flipped270)
        } else {
            None
        }
    }

    /// Encoding then decoding a transform gives it back.
    pub proof fn lemma_code_round_trip(self)
        ensures
            Self::spec_from_code(self.spec_code()) == Some(self),
    {
    }
}

/// A pixel dimension and refresh rate an output can run at.
#[derive(Clone, Copy, Debug, PartialEq, Eq, Hash, Default, Structural)]
pub struct Mode {
    /// The width of the output, in pixels.
    pub pixel_width: u32,
    /// The height of the output, in pixels.
    pub pixel_height: u32,
    /// The output's refresh rate, in millihertz; 60 Hz is 60000.
    pub refresh_rate_millihertz: u32,
}

impl Mode {
    /// The mode a wire mode names: all three components must be present.
    pub open spec fn spec_from_wire(m: wire::Mode) -> Option<Mode> {
        match (m.pixel_width, m.pixel_height, m.refresh_rate_millihz) {
            (Some(w), Some(h), Some(r)) => Some(
                Mode { pixel_width: w, pixel_height: h, refresh_rate_millihertz: r },
            ),
            _ => None,
        }
    }

    /// Decodes a wire mode; one missing component refuses the mode.
    pub fn from_wire(m: wire::Mode) -> (r: Option<Mode>)
        ensures
            r == Self::spec_from_wire(m),
    {
        match (m.pixel_width, m.pixel_height, m.refresh_rate_millihz) {
            (Some(w), Some(h), Some(rr)) => Some(
                Mode { pixel_width: w, pixel_height: h, refresh_rate_millihertz: rr },
            ),
            _ => None,
        }
    }
}

/// The properties of an output, as the compositor answered them. The
/// fractional scale travels in thousandths.
#[derive(Clone, Debug, PartialEq, Default)]
pub struct OutputProperties {
    pub make: Option<String>,
    pub model: Option<String>,
    pub x: Option<i32>,
    pub y: Option<i32>,
    pub logical_width: Option<u32>,
    pub logical_height: Option<u32>,
    pub current_mode: Option<Mode>,
    pub preferred_mode: Option<Mode>,
    pub modes: Vec<Mode>,
    pub physical_width: Option<u32>,
    pub physical_height: Option<u32>,
    pub focused: Option<bool>,
    pub tags: Vec<TagHandle>,
    pub scale_millis: Option<u32>,
    pub transform: Option<Transform>,
    pub serial: Option<String>,
    pub keyboard_focus_stack: Vec<WindowHandle>,
    pub enabled: Option<bool>,
    pub powered: Option<bool>,
}

/// The valid modes among a wire mode list, in order.
pub open spec fn spec_modes_from_wire(ms: Seq<wire::Mode>) -> Seq<Mode>
    decreases ms.len(),
{
    if ms.len() == 0 {
        Seq::empty()
    } else {
        let rest = spec_modes_from_wire(ms.drop_last());
        match Mode::spec_from_wire(ms.last()) {
            Some(m) => rest.push(m),
            None => rest,
        }
    }
}

/// Tag handles for a list of tag ids, in order.
pub open spec fn spec_tags_from_ids(ids: Seq<u32>) -> Seq<TagHandle>
    decreases ids.len(),
{
    if ids.len() == 0 {
        Seq::empty()
    } else {
        spec_tags_from_ids(ids.drop_last()).push(TagHandle { id: ids.last() })
    }
}

/// Window handles for a list of window ids, in order.
pub open spec fn spec_windows_from_ids(ids: Seq<u32>) -> Seq<WindowHandle>
    decreases ids.len(),
{
    if ids.len() == 0 {
        Seq::empty()
    } else {
        spec_windows_from_ids(ids.drop_last()).push(WindowHandle { id: ids.last() })
    }
}

impl OutputProperties {
    /// Unpacks a wire properties answer: modes keep only complete entries,
    /// tag and window ids become handles, and an unknown transform code is
    /// dropped.
    pub fn from_response(resp: wire::OutputPropertiesResponse) -> (r: OutputProperties)
        ensures
            r.make == resp.make,
            r.model == resp.model,
            r.x == resp.x,
            r.y == resp.y,
            r.logical_width == resp.logical_width,
            r.logical_height == resp.logical_height,
            r.current_mode == (match resp.current_mode {
                Some(m) => Mode::spec_from_wire(m),
                None => None,
            }),
            r.preferred_mode == (match resp.preferred_mode {
                Some(m) => Mode::spec_from_wire(m),
                None => None,
            }),
            r.modes@ == spec_modes_from_wire(resp.modes@),
            r.physical_width == resp.physical_width,
            r.physical_height == resp.physical_height,
            r.focused == resp.focused,
            r.tags@ == spec_tags_from_ids(resp.tag_ids@),
            r.scale_millis == resp.scale_millis,
            r.transform == (match resp.transform {
                Some(code) => Transform::spec_from_code(code),
                None => None,
            }),
            r.serial == resp.serial_str,
            r.keyboard_focus_stack@ == spec_windows_from_ids(
                resp.keyboard_focus_stack_window_ids@,
            ),
            r.enabled == resp.enabled,
            r.powered == resp.powered,
    {
        let mut modes: Vec<Mode> = Vec::new();
        let mut i: usize = 0;
        while i < resp.modes.len()
            invariant
                i <= resp.modes@.len(),
                modes@ == spec_modes_from_wire(resp.modes@.take(i as int)),
            decreases resp.modes@.len() - i,
        {
            proof {
                assert(resp.modes@.take(i as int + 1).drop_last() =~= resp.modes@.take(i as int));
                assert(resp.modes@.take(i as int + 1).last() == resp.modes@[i as int]);
            }
            match Mode::from_wire(resp.modes[i]) {
                Some(m) => modes.push(m),
                None => {},
            }
            i = i + 1;
        }
        proof {
            assert(resp.modes@.take(resp.modes@.len() as int) =~= resp.modes@);
        }
        let mut tags: Vec<TagHandle> = Vec::new();
        let mut i: usize = 0;
        while i < resp.tag_ids.len()
            invariant
                i <= resp.tag_ids@.len(),
                tags@ == spec_tags_from_ids(resp.tag_ids@.take(i as int)),
            decreases resp.tag_ids@.len() - i,
        {
            proof {
                assert(resp.tag_ids@.take(i as int + 1).drop_last() =~= resp.tag_ids@.take(
                    i as int,
                ));
                assert(resp.tag_ids@.take(i as int + 1).last() == resp.tag_ids@[i as int]);
            }
            tags.push(TagHandle { id: resp.tag_ids[i] });
            i = i + 1;
        }
        proof {
            assert(resp.tag_ids@.take(resp.tag_ids@.len() as int) =~= resp.tag_ids@);
        }
        let mut keyboard_focus_stack: Vec<WindowHandle> = Vec::new();
        let mut i: usize = 0;
        while i < resp.keyboard_focus_stack_window_ids.len()
            invariant
                i <= resp.keyboard_focus_stack_window_ids@.len(),
                keyboard_focus_stack@ == spec_windows_from_ids(
                    resp.keyboard_focus_stack_window_ids@.take(i as int),
                ),
            decreases resp.keyboard_focus_stack_window_ids@.len() - i,
        {
            proof {
                assert(resp.keyboard_focus_stack_window_ids@.take(i as int + 1).drop_last()
                    =~= resp.keyboard_focus_stack_window_ids@.take(i as int));
                assert(resp.keyboard_focus_stack_window_ids@.take(i as int + 1).last()
                    == resp.keyboard_focus_stack_window_ids@[i as int]);
            }
            keyboard_focus_stack.push(
                WindowHandle { id: resp.keyboard_focus_stack_window_ids[i] },
            );
            i = i + 1;
        }
        proof {
            assert(resp.keyboard_focus_stack_window_ids@.take(
                resp.keyboard_focus_stack_window_ids@.len() as int,
            ) =~= resp.keyboard_focus_stack_window_ids@);
        }
        let current_mode = match resp.current_mode {
            Some(m) => Mode::from_wire(m),
            None => None,
        };
        let preferred_mode = match resp.preferred_mode {
            Some(m) => Mode::from_wire(m),
            None => None,
        };
        let transform = match resp.transform {
            Some(code) => Transform::try_from_code(code),
            None => None,
        };
        OutputProperties {
            make: resp.make,
            model: resp.model,
            x: resp.x,
            y: resp.y,
            logical_width: resp.logical_width,
            logical_height: resp.logical_height,
            current_mode,
            preferred_mode,
            modes,
            physical_width: resp.physical_width,
            physical_height: resp.physical_height,
            focused: resp.focused,
            tags,
            scale_millis: resp.scale_millis,
            transform,
            serial: resp.serial_str,
            keyboard_focus_stack,
            enabled: resp.enabled,
            powered: resp.powered,
        }
    }
}

impl Output {
    /// A handle to the output with this connector name.
    pub fn new_handle(&self, name: String) -> (r: OutputHandle)
        ensures
            r.name == name,
    {
        OutputHandle { name }
    }

    /// Handles to all connected outputs, from the connector names the
    /// compositor answered with.
    pub fn get_all(&self, output_names: Vec<String>) -> (r: Vec<OutputHandle>)
        ensures
            r@.len() == output_names@.len(),
            forall|i: int| 0 <= i < r@.len() ==> (#[trigger] r@[i]).name == output_names@[i],
    {
        let mut names = output_names;
        let mut r: Vec<OutputHandle> = Vec::new();
        let ghost orig = names@;
        while names.len() > 0
            invariant
                names@ =~= orig.skip(r@.len() as int),
                r@.len() <= orig.len(),
                forall|i: int| 0 <= i < r@.len() ==> (#[trigger] r@[i]).name == orig[i],
            decreases names@.len(),
        {
            let name = names.remove(0);
            r.push(OutputHandle { name });
        }
        r
    }

    /// The handles whose outputs the compositor reported enabled; a missing
    /// answer counts as disabled. `enabled` pairs with `handles` by index.
    pub fn get_all_enabled(&self, handles: Vec<OutputHandle>, enabled: Vec<Option<bool>>) -> (r:
        Vec<OutputHandle>)
        requires
            handles@.len() == enabled@.len(),
        ensures
            r@ == spec_enabled_filter(handles@, enabled@),
    {
        let mut handles = handles;
        let mut r: Vec<OutputHandle> = Vec::new();
        let ghost orig = handles@;
        let mut i: usize = 0;
        while handles.len() > 0
            invariant
                orig.len() == enabled@.len(),
                i <= orig.len(),
                handles@ =~= orig.skip(i as int),
                r@ == spec_enabled_filter(orig.take(i as int), enabled@.take(i as int)),
            decreases handles@.len(),
        {
            let h = handles.remove(0);
            proof {
                assert(orig.take(i as int + 1).drop_last() =~= orig.take(i as int));
                assert(enabled@.take(i as int + 1).drop_last() =~= enabled@.take(i as int));
                assert(orig.take(i as int + 1).last() == orig[i as int]);
                assert(enabled@.take(i as int + 1).last() == enabled@[i as int]);
            }
            let keep = match enabled[i] {
                Some(b) => b,
                None => false,
            };
            if keep {
                r.push(h);
            }
            i = i + 1;
        }
        proof {
            assert(orig.take(orig.len() as int) =~= orig);
            assert(enabled@.take(enabled@.len() as int) =~= enabled@);
        }
        r
    }

    /// The first handle whose connector name matches.
    pub fn get_by_name(&self, handles: &Vec<OutputHandle>, name: &String) -> (r: Option<
        OutputHandle,
    >)
        ensures
            match r {
                Some(h) => exists|i: int|
                    spec_handle_lookup(name@, handles@, i) && h.name@ == handles@[i].name@,
                None => forall|k: int|
                    0 <= k < handles@.len() ==> (#[trigger] handles@[k]).name@ != name@,
            },
    {
        let mut i: usize = 0;
        while i < handles.len()
            invariant
                i <= handles@.len(),
                forall|k: int| 0 <= k < i ==> (#[trigger] handles@[k]).name@ != name@,
            decreases handles@.len() - i,
        {
            if handles[i].name.eq(name) {
                let h = OutputHandle { name: handles[i].name.clone() };
                proof {
                    assert(spec_handle_lookup(name@, handles@, i as int));
                }
                return Some(h);
            }
            i = i + 1;
        }
        None
    }

    /// Registers a callback for an output signal and hands back its token.
    pub fn connect_signal(&self, signal: OutputSignal, registry: &mut SignalRegistry) -> (r:
        SignalHandle)
        requires
            old(registry).next_token < u64::MAX,
            old(registry).output_connect < u64::MAX,
            old(registry).output_disconnect < u64::MAX,
            old(registry).output_resize < u64::MAX,
            old(registry).output_move < u64::MAX,
        ensures
            r.token == old(registry).next_token,
            final(registry).next_token == old(registry).next_token + 1,
            signal is Connect ==> final(registry).output_connect == old(registry).output_connect
                + 1,
            signal is Disconnect ==> final(registry).output_disconnect == old(
                registry,
            ).output_disconnect + 1,
            signal is Resize ==> final(registry).output_resize == old(registry).output_resize + 1,
            signal is Move ==> final(registry).output_move == old(registry).output_move + 1,
            final(registry).tag_active == old(registry).tag_active,
    {
        let token = registry.next_token;
        registry.next_token = registry.next_token + 1;
        match signal {
            OutputSignal::Connect => {
                registry.output_connect = registry.output_connect + 1;
            },
            OutputSignal::Disconnect => {
                registry.output_disconnect = registry.output_disconnect + 1;
            },
            OutputSignal::Resize => {
                registry.output_resize = registry.output_resize + 1;
            },
            OutputSignal::Move => {
                registry.output_move = registry.output_move + 1;
            },
        }
        SignalHandle { token }
    }
}

/// The first handle matching a connector name.
pub open spec fn spec_handle_lookup(name: Seq<char>, handles: Seq<OutputHandle>, i: int) -> bool {
    &&& 0 <= i < handles.len()
    &&& handles[i].name@ == name
    &&& forall|k: int| 0 <= k < i ==> (#[trigger] handles[k]).name@ != name
}

/// The handles whose paired answer is `Some(true)`, in order.
pub open spec fn spec_enabled_filter(handles: Seq<OutputHandle>, enabled: Seq<Option<bool>>) -> Seq<
    OutputHandle,
>
    decreases handles.len(),
{
    if handles.len() == 0 || enabled.len() < handles.len() {
        Seq::empty()
    } else {
        let rest = spec_enabled_filter(handles.drop_last(), enabled.drop_last());
        if enabled[handles.len() - 1] == Some(true) {
            rest.push(handles.last())
        } else {
            rest
        }
    }
}

impl OutputId {
    /// An id naming an output by its connector name.
    pub fn name(name: String) -> (r: OutputId)
        ensures
            r == OutputId::Name(name),
    {
        OutputId::Name(name)
    }

    /// Whether this id identifies the given output.
    pub fn matches(&self, output: &OutputHandle) -> (r: bool)
        ensures
            r == (self matches OutputId::Name(n) && n@ == output.name@),
    {
        match self {
            OutputId::Name(n) => n.eq(&output.name),
        }
    }
}

/// Truncating halving, as machine division computes it: rounds toward
/// zero, also for negative values.
pub open spec fn spec_half_trunc(v: int) -> int {
    if v >= 0 {
        v / 2
    } else {
        -((-v) / 2)
    }
}

/// The location placing one output adjacent to another, when both outputs'
/// positions and logical sizes are known; the alignment picks the side and
/// the border or center to line up.
pub open spec fn spec_loc_adj_to(
    sp: OutputProperties,
    op: OutputProperties,
    alignment: Alignment,
) -> Option<(int, int)> {
    if op.x is Some && op.y is Some && op.logical_width is Some && op.logical_height is Some
        && sp.logical_width is Some && sp.logical_height is Some {
        let ox = op.x->0 as int;
        let oy = op.y->0 as int;
        let ow = op.logical_width->0 as int;
        let oh = op.logical_height->0 as int;
        let sw = sp.logical_width->0 as int;
        let sh = sp.logical_height->0 as int;
        let x = match alignment {
            Alignment::TopAlignLeft | Alignment::BottomAlignLeft => ox,
            Alignment::TopAlignCenter | Alignment::BottomAlignCenter => ox + spec_half_trunc(
                ow - sw,
            ),
            Alignment::TopAlignRight | Alignment::BottomAlignRight => ox + (ow - sw),
            Alignment::LeftAlignTop | Alignment::LeftAlignCenter | Alignment::LeftAlignBottom => ox
                - sw,
            Alignment::RightAlignTop | Alignment::RightAlignCenter
                | Alignment::RightAlignBottom => ox + ow,
        };
        let y = match alignment {
            Alignment::TopAlignLeft | Alignment::TopAlignCenter | Alignment::TopAlignRight => oy
                - sh,
            Alignment::BottomAlignLeft | Alignment::BottomAlignCenter
                | Alignment::BottomAlignRight => oy + oh,
            Alignment::LeftAlignTop | Alignment::RightAlignTop => oy,
            Alignment::LeftAlignCenter | Alignment::RightAlignCenter => oy + spec_half_trunc(
                oh - sh,
            ),
            Alignment::LeftAlignBottom | Alignment::RightAlignBottom => oy + (oh - sh),
        };
        Some((x, y))
    } else {
        None
    }
}

/// Whether the properties' position and size components are inside the
/// range the placement arithmetic is defined on.
pub open spec fn spec_props_in_range(p: OutputProperties) -> bool {
    &&& (p.x matches Some(v) ==> -COORD_LIMIT <= v <= COORD_LIMIT)
    &&& (p.y matches Some(v) ==> -COORD_LIMIT <= v <= COORD_LIMIT)
    &&& (p.logical_width matches Some(v) ==> v <= COORD_LIMIT as u32)
    &&& (p.logical_height matches Some(v) ==> v <= COORD_LIMIT as u32)
}

impl OutputHandle {
    /// Computes where this output must go to sit adjacent to `other` with
    /// the given alignment: the location to hand to the location setter.
    /// Nothing is computed when either output's position or logical size is
    /// unknown.
    pub fn set_loc_adj_to(
        &self,
        self_props: &OutputProperties,
        other_props: &OutputProperties,
        alignment: Alignment,
    ) -> (r: Option<(i32, i32)>)
        requires
            spec_props_in_range(*self_props),
            spec_props_in_range(*other_props),
        ensures
            match r {
                Some(xy) => spec_loc_adj_to(*self_props, *other_props, alignment) == Some(
                    (xy.0 as int, xy.1 as int),
                ),
                None => spec_loc_adj_to(*self_props, *other_props, alignment) is None,
            },
    {
        let ox64: i64;
        let oy64: i64;
        let ow64: i64;
        let oh64: i64;
        let sw64: i64;
        let sh64: i64;
        match (other_props.x, other_props.y, other_props.logical_width,
            other_props.logical_height, self_props.logical_width, self_props.logical_height) {
            (Some(ox), Some(oy), Some(ow), Some(oh), Some(sw), Some(sh)) => {
                ox64 = ox as i64;
                oy64 = oy as i64;
                ow64 = ow as i64;
                oh64 = oh as i64;
                sw64 = sw as i64;
                sh64 = sh as i64;
            },
            _ => {
                return None;
            },
        }
        let x64: i64 = match alignment {
            Alignment::TopAlignLeft | Alignment::BottomAlignLeft => ox64,
            Alignment::TopAlignCenter | Alignment::BottomAlignCenter => ox64 + (ow64 - sw64) / 2,
            Alignment::TopAlignRight | Alignment::BottomAlignRight => ox64 + (ow64 - sw64),
            Alignment::LeftAlignTop | Alignment::LeftAlignCenter | Alignment::LeftAlignBottom => {
                ox64 - sw64
            },
            Alignment::RightAlignTop | Alignment::RightAlignCenter
                | Alignment::RightAlignBottom => ox64 + ow64,
        };
        let y64: i64 = match alignment {
            Alignment::TopAlignLeft | Alignment::TopAlignCenter | Alignment::TopAlignRight => {
                oy64 - sh64
            },
            Alignment::BottomAlignLeft | Alignment::BottomAlignCenter
                | Alignment::BottomAlignRight => oy64 + oh64,
            Alignment::LeftAlignTop | Alignment::RightAlignTop => oy64,
            Alignment::LeftAlignCenter | Alignment::RightAlignCenter => oy64 + (oh64 - sh64) / 2,
            Alignment::LeftAlignBottom | Alignment::RightAlignBottom => oy64 + (oh64 - sh64),
        };
        Some((x64 as i32, y64 as i32))
    }

    /// This output's make; shorthand for the answered properties' field.
    pub fn make(&self, props: &OutputProperties) -> (r: Option<String>)
        ensures
            match r {
                Some(s) => props.make matches Some(m) && s@ == m@,
                None => props.make is None,
            },
    {
        clone_opt_string(&props.make)
    }

    /// This output's model.
    pub fn model(&self, props: &OutputProperties) -> (r: Option<String>)
        ensures
            match r {
                Some(s) => props.model matches Some(m) && s@ == m@,
                None => props.model is None,
            },
    {
        clone_opt_string(&props.model)
    }

    /// This output's x position in the global space.
    pub fn x(&self, props: &OutputProperties) -> (r: Option<i32>)
        ensures
            r == props.x,
    {
        props.x
    }

    /// This output's y position in the global space.
    pub fn y(&self, props: &OutputProperties) -> (r: Option<i32>)
        ensures
            r == props.y,
    {
        props.y
    }

    /// This output's logical width in pixels; absent while disabled.
    pub fn logical_width(&self, props: &OutputProperties) -> (r: Option<u32>)
        ensures
            r == props.logical_width,
    {
        props.logical_width
    }

    /// This output's logical height in pixels; absent while disabled.
    pub fn logical_height(&self, props: &OutputProperties) -> (r: Option<u32>)
        ensures
            r == props.logical_height,
    {
        props.logical_height
    }

    /// This output's current mode.
    pub fn current_mode(&self, props: &OutputProperties) -> (r: Option<Mode>)
        ensures
            r == props.current_mode,
    {
        props.current_mode
    }

    /// This output's preferred mode.
    pub fn preferred_mode(&self, props: &OutputProperties) -> (r: Option<Mode>)
        ensures
            r == props.preferred_mode,
    {
        props.preferred_mode
    }

    /// All modes this output supports.
    pub fn modes(&self, props: &OutputProperties) -> (r: Vec<Mode>)
        ensures
            r@ == props.modes@,
    {
        let mut r: Vec<Mode> = Vec::new();
        let mut i: usize = 0;
        while i < props.modes.len()
            invariant
                i <= props.modes@.len(),
                r@ == props.modes@.take(i as int),
            decreases props.modes@.len() - i,
        {
            r.push(props.modes[i]);
            proof {
                assert(props.modes@.take(i as int + 1) =~= props.modes@.take(i as int).push(
                    props.modes@[i as int],
                ));
            }
            i = i + 1;
        }
        proof {
            assert(props.modes@.take(props.modes@.len() as int) =~= props.modes@);
        }
        r
    }

    /// This output's physical width in millimeters.
    pub fn physical_width(&self, props: &OutputProperties) -> (r: Option<u32>)
        ensures
            r == props.physical_width,
    {
        props.physical_width
    }

    /// This output's physical height in millimeters.
    pub fn physical_height(&self, props: &OutputProperties) -> (r: Option<u32>)
        ensures
            r == props.physical_height,
    {
        props.physical_height
    }

    /// Whether this output is focused: the one with the most recent
    /// pointer motion.
    pub fn focused(&self, props: &OutputProperties) -> (r: Option<bool>)
        ensures
            r == props.focused,
    {
        props.focused
    }

    /// The tags this output carries.
    pub fn tags(&self, props: &OutputProperties) -> (r: Vec<TagHandle>)
        ensures
            r@ == props.tags@,
    {
        let mut r: Vec<TagHandle> = Vec::new();
        let mut i: usize = 0;
        while i < props.tags.len()
            invariant
                i <= props.tags@.len(),
                r@ == props.tags@.take(i as int),
            decreases props.tags@.len() - i,
        {
            r.push(props.tags[i]);
            proof {
                assert(props.tags@.take(i as int + 1) =~= props.tags@.take(i as int).push(
                    props.tags@[i as int],
                ));
            }
            i = i + 1;
        }
        proof {
            assert(props.tags@.take(props.tags@.len() as int) =~= props.tags@);
        }
        r
    }

    /// This output's transform.
    pub fn transform(&self, props: &OutputProperties) -> (r: Option<Transform>)
        ensures
            r == props.transform,
    {
        props.transform
    }

    /// This output's EDID serial.
    pub fn serial(&self, props: &OutputProperties) -> (r: Option<String>)
        ensures
            match r {
                Some(s) => props.serial matches Some(m) && s@ == m@,
                None => props.serial is None,
            },
    {
        clone_opt_string(&props.serial)
    }

    /// The keyboard focus stack of all windows on this output.
    pub fn keyboard_focus_stack(&self, props: &OutputProperties) -> (r: Vec<WindowHandle>)
        ensures
            r@ == props.keyboard_focus_stack@,
    {
        let mut r: Vec<WindowHandle> = Vec::new();
        let mut i: usize = 0;
        while i < props.keyboard_focus_stack.len()
            invariant
                i <= props.keyboard_focus_stack@.len(),
                r@ == props.keyboard_focus_stack@.take(i as int),
            decreases props.keyboard_focus_stack@.len() - i,
        {
            r.push(props.keyboard_focus_stack[i]);
            proof {
                assert(props.keyboard_focus_stack@.take(i as int + 1)
                    =~= props.keyboard_focus_stack@.take(i as int).push(
                    props.keyboard_focus_stack@[i as int],
                ));
            }
            i = i + 1;
        }
        proof {
            assert(props.keyboard_focus_stack@.take(props.keyboard_focus_stack@.len() as int)
                =~= props.keyboard_focus_stack@);
        }
        r
    }

    /// The keyboard focus stack restricted to windows on active tags;
    /// `on_active_tag` pairs with the stack by index.
    pub fn keyboard_focus_stack_visible(
        &self,
        props: &OutputProperties,
        on_active_tag: &Vec<bool>,
    ) -> (r: Vec<WindowHandle>)
        requires
            props.keyboard_focus_stack@.len() == on_active_tag@.len(),
        ensures
            r@ == spec_visible_focus_stack(props.keyboard_focus_stack@, on_active_tag@),
    {
        let mut r: Vec<WindowHandle> = Vec::new();
        let mut i: usize = 0;
        while i < props.keyboard_focus_stack.len()
            invariant
                props.keyboard_focus_stack@.len() == on_active_tag@.len(),
                i <= props.keyboard_focus_stack@.len(),
                r@ == spec_visible_focus_stack(
                    props.keyboard_focus_stack@.take(i as int),
                    on_active_tag@.take(i as int),
                ),
            decreases props.keyboard_focus_stack@.len() - i,
        {
            proof {
                assert(props.keyboard_focus_stack@.take(i as int + 1).drop_last()
                    =~= props.keyboard_focus_stack@.take(i as int));
                assert(on_active_tag@.take(i as int + 1).drop_last() =~= on_active_tag@.take(
                    i as int,
                ));
                assert(props.keyboard_focus_stack@.take(i as int + 1).last()
                    == props.keyboard_focus_stack@[i as int]);
                assert(on_active_tag@.take(i as int + 1).last() == on_active_tag@[i as int]);
            }
            if on_active_tag[i] {
                r.push(props.keyboard_focus_stack[i]);
            }
            i = i + 1;
        }
        proof {
            assert(props.keyboard_focus_stack@.take(props.keyboard_focus_stack@.len() as int)
                =~= props.keyboard_focus_stack@);
            assert(on_active_tag@.take(on_active_tag@.len() as int) =~= on_active_tag@);
        }
        r
    }

    /// Whether this output is enabled; a disabled output acts unplugged.
    pub fn enabled(&self, props: &OutputProperties) -> (r: Option<bool>)
        ensures
            r == props.enabled,
    {
        props.enabled
    }

    /// Whether this output is powered; an unpowered output is dark but
    /// still interactable.
    pub fn powered(&self, props: &OutputProperties) -> (r: Option<bool>)
        ensures
            r == props.powered,
    {
        props.powered
    }

    /// This output's unique connector name.
    pub fn name(&self) -> (r: String)
        ensures
            r@ == self.name@,
    {
        self.name.clone()
    }
}

/// The focus-stack windows whose paired flag holds, in order.
pub open spec fn spec_visible_focus_stack(stack: Seq<WindowHandle>, on: Seq<bool>) -> Seq<
    WindowHandle,
>
    decreases stack.len(),
{
    if stack.len() == 0 || on.len() < stack.len() {
        Seq::empty()
    } else {
        let rest = spec_visible_focus_stack(stack.drop_last(), on.drop_last());
        if on[stack.len() - 1] {
            rest.push(stack.last())
        } else {
            rest
        }
    }
}

/// Clones an optional string.
fn clone_opt_string(o: &Option<String>) -> (r: Option<String>)
    ensures
        match r {
            Some(s) => o matches Some(m) && s@ == m@,
            None => o is None,
        },
{
    match o {
        Some(s) => Some(s.clone()),
        None => None,
    }
}

} // verus!
