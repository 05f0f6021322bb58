//! The list of packs on the screen: which of them are checked off, in what
//! order they are shown, and how far the display is zoomed.

use itertools::Itertools;
use vstd::prelude::*;

use crate::order::{
    as_positions, clear_then_set, is_stable_order, lemma_stable_order_is_clear_then_set,
};
use crate::pack::Pack;
use crate::text::{decimal, decimal_string, text_view};
use crate::zoom::{
    wheel_delta, wheel_step, zoom_after, zoom_percent, zoom_step, ZoomModel, MAX_ZOOM, MIN_ZOOM,
    ZOOM_ONE,
};

verus! {

/// What the list is made from.
#[derive(Clone, Debug, PartialEq, Eq)]
pub struct Props {
    pub packs: Vec<Pack>,
}

/// A pack and whether it has been checked off.
#[derive(Clone, Debug, PartialEq, Eq)]
pub struct PackItem {
    pub pack: Pack,
    pub checked: bool,
}

/// What can happen to the list.
#[derive(Clone, Copy, Debug, PartialEq, Eq)]
pub enum Msg {
    /// The pack at this position was clicked.
    Check(usize),
    /// The display is to be zoomed by this many thousandths.
    Zoom(i64),
}

/// The list of packs on the screen.
pub struct PackList {
    packs: Vec<PackItem>,
    zoom: ZoomModel,
    is_desktop: bool,
}

/// The list as contracts see it.
pub struct PackListState {
    pub items: Seq<PackItem>,
    pub zoom_scale: int,
    pub is_desktop: bool,
}

/// The checked flags of `items`, position by position.
pub open spec fn checked_flags(items: Seq<PackItem>) -> Seq<bool> {
    Seq::new(items.len(), |i: int| items[i].checked)
}

impl PackListState {
    /// The scale is within the permitted range.
    pub open spec fn wf(self) -> bool {
        MIN_ZOOM <= self.zoom_scale <= MAX_ZOOM
    }

    /// The list after `msg`, and whether the screen has to be drawn again.
    ///
    /// A click turns the checked flag of the pack at its position over and
    /// always asks for a redraw. A zoom moves the scale by a clamped step, but
    /// only inside the desktop shell: elsewhere it changes nothing. It asks
    /// for a redraw where it has moved the scale, so not where the scale was
    /// at the end of the range already and the step led further out.
    pub open spec fn update(self, msg: Msg) -> (PackListState, bool) {
        match msg {
            Msg::Check(index) => (
                PackListState {
                    items: self.items.update(
                        index as int,
                        PackItem {
                            pack: self.items[index as int].pack,
                            checked: !self.items[index as int].checked,
                        },
                    ),
                    ..self
                },
                true,
            ),
            Msg::Zoom(delta) => if self.is_desktop {
                let scale = zoom_step(self.zoom_scale, delta as int);
                (PackListState { zoom_scale: scale, ..self }, scale != self.zoom_scale)
            } else {
                (self, false)
            },
        }
    }

    /// The label that tells the zoom; it is shown inside the desktop shell
    /// only.
    pub open spec fn zoom_indicator(self) -> Option<Seq<char>> {
        if self.is_desktop {
            Some(
                "Zoom: "@ + decimal(zoom_percent(self.zoom_scale) as nat)
                    + "% (use mouse wheel)"@,
            )
        } else {
            None
        }
    }

    /// The list after each of `msgs` in turn.
    pub open spec fn after(self, msgs: Seq<Msg>) -> PackListState
        decreases msgs.len(),
    {
        if msgs.len() == 0 {
            self
        } else {
            self.after(msgs.drop_last()).update(msgs.last()).0
        }
    }
}

impl PackList {
    /// The list as contracts see it.
    pub closed spec fn state(&self) -> PackListState {
        PackListState {
            items: self.packs@,
            zoom_scale: self.zoom.value(),
            is_desktop: self.is_desktop,
        }
    }
}

/// All that the list shows besides the cards themselves.
#[derive(Clone, Debug, PartialEq, Eq)]
pub struct ListView {
    /// The positions of the packs, in the order in which their cards are
    /// shown.
    pub order: Vec<usize>,
    /// The zoom that every card is drawn at, in thousandths.
    pub zoom_scale: i64,
    /// The label that tells the zoom, where one is shown.
    pub zoom_indicator: Option<String>,
}

/// The steps that `deltas` ask for.
pub open spec fn as_steps(deltas: Seq<i64>) -> Seq<int> {
    Seq::new(deltas.len(), |k: int| deltas[k] as int)
}

/// One zoom message for each of `deltas`.
pub open spec fn zoom_messages(deltas: Seq<i64>) -> Seq<Msg> {
    Seq::new(deltas.len(), |k: int| Msg::Zoom(deltas[k]))
}

/// The positions of `items` as `Itertools::sorted_by_key` orders them by the
/// checked flag. That method collects what it is given and sorts it with the
/// standard library's `sort_by_key`: in ascending order, so not checked comes
/// before checked, and stably, so items with equal flags stay in the order of
/// the list. It hands back every item that it was given, here each by its
/// position.
#[verifier::external_body]
fn sorted_by_checked(items: &Vec<PackItem>) -> (order: Vec<usize>)
    ensures
        is_stable_order(checked_flags(items@), as_positions(order@)),
{
    items.iter().enumerate().sorted_by_key(|(_, item)| item.checked).map(|(index, _)| index).collect()
}

/// What a turn of the wheel sends to the list: inside the desktop shell a zoom
/// by one notch, and the page must then be kept from scrolling; elsewhere
/// nothing. `delta_y` is the bit pattern of the turn's vertical delta, a
/// double-precision number.
pub fn wheel_message(is_desktop: bool, delta_y: u64) -> (msg: Option<Msg>)
    ensures
        msg == if is_desktop {
            Some(Msg::Zoom(wheel_step(delta_y) as i64))
        } else {
            None
        },
{
    if is_desktop {
        Some(Msg::Zoom(wheel_delta(delta_y)))
    } else {
        None
    }
}

/// The items that a new list holds for `packs`: each pack, in the order given,
/// not yet checked.
pub open spec fn unchecked_items(packs: Seq<Pack>) -> Seq<PackItem> {
    Seq::new(packs.len(), |i: int| PackItem { pack: packs[i], checked: false })
}

impl PackList {
    /// A list of the given packs, none of them checked, at the natural size.
    /// Whether the screen runs inside the desktop shell is asked once, by the
    /// caller, and kept for as long as the list lives.
    pub fn create(props: Props, is_desktop: bool) -> (list: PackList)
        ensures
            list.state().items == unchecked_items(props.packs@),
            list.state().zoom_scale == ZOOM_ONE,
            list.state().is_desktop == is_desktop,
    {
        let ghost given = props.packs@;
        let mut items: Vec<PackItem> = Vec::new();
        for pack in iter: props.packs
            invariant
                iter.seq() == given,
                items@ == unchecked_items(given.take(iter.index() as int)),
        {
            items.push(PackItem { pack, checked: false });
            assert(items@ =~= unchecked_items(given.take(iter.index() + 1)));
        }
        assert(given.take(given.len() as int) =~= given);
        PackList { packs: items, zoom: ZoomModel::new(), is_desktop }
    }

    /// The positions of the packs in the order of display: the packs not yet
    /// checked first, the checked ones after them, each group in the order
    /// of the list. The list itself is not touched.
    pub fn display_order(&self) -> (order: Vec<usize>)
        ensures
            as_positions(order@) == clear_then_set(checked_flags(self.state().items)),
            is_stable_order(checked_flags(self.state().items), as_positions(order@)),
    {
        let order = sorted_by_checked(&self.packs);
        proof {
            lemma_stable_order_is_clear_then_set(checked_flags(self.packs@), as_positions(order@));
        }
        order
    }

    /// The label that tells the zoom, inside the desktop shell; `None`
    /// elsewhere.
    pub fn zoom_indicator(&self) -> (label: Option<String>)
        ensures
            text_view(label) == self.state().zoom_indicator(),
    {
        if self.is_desktop {
            let percent: i64 = self.zoom.percent();
            let mut label = String::from_str("Zoom: ");
            label.append(decimal_string(percent as u64).as_str());
            label.append("% (use mouse wheel)");
            Some(label)
        } else {
            None
        }
    }

    /// What the list shows: the order of its cards, their zoom, and the label
    /// that tells the zoom.
    pub fn view(&self) -> (shown: ListView)
        ensures
            as_positions(shown.order@) == clear_then_set(checked_flags(self.state().items)),
            shown.zoom_scale == self.state().zoom_scale,
            text_view(shown.zoom_indicator) == self.state().zoom_indicator(),
    {
        ListView {
            order: self.display_order(),
            zoom_scale: self.zoom.scale(),
            zoom_indicator: self.zoom_indicator(),
        }
    }

    /// The packs, in the order in which they were given.
    pub fn packs(&self) -> (items: &Vec<PackItem>)
        ensures
            items@ == self.state().items,
    {
        &self.packs
    }

    /// The zoom of the display, in thousandths.
    pub fn zoom_scale(&self) -> (scale: i64)
        ensures
            scale == self.state().zoom_scale,
            self.state().wf(),
    {
        self.zoom.scale()
    }

    /// Whether the list was made inside the desktop shell.
    pub fn is_desktop(&self) -> (desktop: bool)
        ensures
            desktop == self.state().is_desktop,
    {
        self.is_desktop
    }

    /// Takes one message in; tells whether the screen has to be drawn again.
    /// A click must name a position of the list. A zoom counts inside the
    /// desktop shell only, and asks for a redraw only where it has moved the
    /// scale.
    pub fn update(&mut self, msg: Msg) -> (changed: bool)
        requires
            msg matches Msg::Check(index) ==> index < old(self).state().items.len(),
        ensures
            (final(self).state(), changed) == old(self).state().update(msg),
            final(self).state().wf(),
    {
        proof {
            use_type_invariant(&self.zoom);
        }
        match msg {
            Msg::Check(index) => {
                self.packs[index].checked = !self.packs[index].checked;
                true
            },
            Msg::Zoom(delta) => {
                if self.is_desktop {
                    let before: i64 = self.zoom.scale();
                    let after: i64 = self.zoom.apply_delta(delta);
                    after != before
                } else {
                    false
                }
            },
        }
    }
}

/// A zoom outside the desktop shell is no event at all: whatever the step and
/// whatever the scale, the list stays as it is and no redraw is asked for.
pub proof fn lemma_zoom_needs_desktop(list: PackListState, delta: i64)
    requires
        !list.is_desktop,
    ensures
        list.update(Msg::Zoom(delta)) == (list, false),
{
}

/// Two clicks on one pack leave the list as it was, and each of them shows:
/// each turns the flag of that pack over and asks for a redraw.
pub proof fn lemma_check_twice_restores(list: PackListState, index: usize)
    requires
        index < list.items.len(),
    ensures
        ({
            let (once, first) = list.update(Msg::Check(index));
            let (twice, second) = once.update(Msg::Check(index));
            &&& first && second
            &&& once.items[index as int].checked != list.items[index as int].checked
            &&& twice.items[index as int].checked != once.items[index as int].checked
            &&& twice == list
        }),
{
    let once = list.update(Msg::Check(index)).0;
    let twice = once.update(Msg::Check(index)).0;
    assert(twice.items =~= list.items);
}

/// A click touches the one pack that it names and nothing else.
pub proof fn lemma_check_touches_one(list: PackListState, index: usize, other: int)
    requires
        index < list.items.len(),
        0 <= other < list.items.len(),
    ensures
        ({
            let once = list.update(Msg::Check(index)).0;
            &&& once.items.len() == list.items.len()
            &&& once.items[other].pack == list.items[other].pack
            &&& other != index ==> once.items[other] == list.items[other]
            &&& once.zoom_scale == list.zoom_scale
            &&& once.is_desktop == list.is_desktop
        }),
{
}

/// Whatever messages come in, the scale stays within the permitted range,
/// and neither the number of packs nor the answer to whether the list runs
/// inside the desktop shell changes.
pub proof fn lemma_after_keeps(list: PackListState, msgs: Seq<Msg>)
    requires
        list.wf(),
        forall|k: int|
            0 <= k < msgs.len() ==> (#[trigger] msgs[k] matches Msg::Check(index) ==> index
                < list.items.len()),
    ensures
        list.after(msgs).wf(),
        list.after(msgs).is_desktop == list.is_desktop,
        list.after(msgs).items.len() == list.items.len(),
    decreases msgs.len(),
{
    if msgs.len() > 0 {
        lemma_after_keeps(list, msgs.drop_last());
        assert(msgs.last() == msgs[msgs.len() - 1]);
    }
}

/// A run of zoom messages moves the scale, inside the desktop shell, as the
/// steps taken one after another move it, and leaves it alone elsewhere. The
/// packs stay as they are either way.
pub proof fn lemma_after_zooms(list: PackListState, deltas: Seq<i64>)
    ensures
        list.after(zoom_messages(deltas)) == (PackListState {
            zoom_scale: if list.is_desktop {
                zoom_after(list.zoom_scale, as_steps(deltas))
            } else {
                list.zoom_scale
            },
            ..list
        }),
    decreases deltas.len(),
{
    if deltas.len() > 0 {
        lemma_after_zooms(list, deltas.drop_last());
        assert(zoom_messages(deltas).drop_last() =~= zoom_messages(deltas.drop_last()));
        assert(as_steps(deltas).drop_last() =~= as_steps(deltas.drop_last()));
    }
}

} // verus!
