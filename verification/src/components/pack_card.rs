//! One pack on the screen: its number, whether it is checked off, and the
//! table of the piles that it draws from.

use itertools::Itertools;
use vstd::prelude::*;

use crate::order::{as_positions, is_sorted_by_name, lemma_sorted_by_name_is_unique};
use crate::pack::Pack;
use crate::text::str_eq;

verus! {

/// What a card is drawn from.
#[derive(Clone, Debug, PartialEq, Eq)]
pub struct Props {
    /// The position of the pack in the list.
    pub index: usize,
    pub pack: Pack,
    pub checked: bool,
    /// The zoom of the display, in thousandths.
    pub zoom_scale: i64,
}

/// What can happen to a card.
#[derive(Clone, Copy, Debug, PartialEq, Eq)]
pub enum Msg {
    /// The mark in the card's header was clicked.
    Clicked,
}

/// A card. It keeps nothing: all that it shows comes from its `Props`.
pub struct PackCard {}

/// The font size of a card at the natural size, in rem.
pub const BASE_FONT_SIZE: i64 = 1;

/// The font size of a card at `scale`, in thousandths of a rem: the base size
/// times the scale.
pub open spec fn scaled_font_size(scale: int) -> int {
    BASE_FONT_SIZE * scale
}

/// The control in a card's header.
#[derive(Clone, Copy, Debug, PartialEq, Eq)]
pub enum MarkButton {
    /// Offered on a pack that is not checked: marks it as done.
    Done,
    /// Offered on a checked pack: takes the mark away.
    Delete,
}

/// The colours of a pile that has a colour of its own: background, then text.
pub open spec fn pile_colors(lowered: Seq<char>) -> Option<(Seq<char>, Seq<char>)> {
    if lowered == "black"@ {
        Some(("#1a1a1a"@, "#ffffff"@))
    } else if lowered == "blue"@ {
        Some(("#3273dc"@, "#ffffff"@))
    } else if lowered == "green"@ {
        Some(("#23d160"@, "#ffffff"@))
    } else if lowered == "red"@ {
        Some(("#ff3860"@, "#ffffff"@))
    } else if lowered == "white"@ {
        Some(("#f5f5f5"@, "#363636"@))
    } else if lowered == "artifacts"@ {
        Some(("#8b4513"@, "#ffffff"@))
    } else if lowered == "gold"@ {
        Some(("#ffd700"@, "#363636"@))
    } else {
        None
    }
}

/// A pair of colours as contracts see it.
pub open spec fn colors_view(colors: Option<(&'static str, &'static str)>) -> Option<
    (Seq<char>, Seq<char>),
> {
    match colors {
        Some((background, text)) => Some((background@, text@)),
        None => None,
    }
}

/// What `str::to_lowercase` makes of a text.
pub uninterp spec fn lowercase_of(text: Seq<char>) -> Seq<char>;

/// The lowercase form of `name`, as `str::to_lowercase` of the standard
/// library gives it. That form depends on the characters of `name` alone.
#[verifier::external_body]
fn to_lowercase(name: &str) -> (lowered: String)
    ensures
        lowered@ == lowercase_of(name@),
{
    name.to_lowercase()
}

/// The colours of the pile whose name, in lowercase, is `lowered`.
pub fn colors_of_lowered(lowered: &str) -> (colors: Option<(&'static str, &'static str)>)
    ensures
        colors_view(colors) == pile_colors(lowered@),
{
    if str_eq(lowered, "black") {
        Some(("#1a1a1a", "#ffffff"))
    } else if str_eq(lowered, "blue") {
        Some(("#3273dc", "#ffffff"))
    } else if str_eq(lowered, "green") {
        Some(("#23d160", "#ffffff"))
    } else if str_eq(lowered, "red") {
        Some(("#ff3860", "#ffffff"))
    } else if str_eq(lowered, "white") {
        Some(("#f5f5f5", "#363636"))
    } else if str_eq(lowered, "artifacts") {
        Some(("#8b4513", "#ffffff"))
    } else if str_eq(lowered, "gold") {
        Some(("#ffd700", "#363636"))
    } else {
        None
    }
}

/// The colours of the pile called `name`, whatever the case of its letters.
pub fn get_pile_colors(name: &str) -> (colors: Option<(&'static str, &'static str)>)
    ensures
        colors_view(colors) == pile_colors(lowercase_of(name@)),
{
    let lowered = to_lowercase(name);
    colors_of_lowered(lowered.as_str())
}

/// The inline style of a table row: the pile's colours where it has any.
pub open spec fn row_style(colors: Option<(Seq<char>, Seq<char>)>) -> Seq<char> {
    match colors {
        Some((background, text)) => "background-color: "@ + background + "; color: "@ + text
            + ";"@,
        None => Seq::empty(),
    }
}

/// The inline style of a table row for a pile with these colours.
pub fn style_of_colors(colors: Option<(&'static str, &'static str)>) -> (style: String)
    ensures
        style@ == row_style(colors_view(colors)),
{
    match colors {
        Some((background, text)) => {
            let mut style = String::from_str("background-color: ");
            style.append(background);
            style.append("; color: ");
            style.append(text);
            style.append(";");
            style
        },
        None => String::new(),
    }
}

/// One row of a card's table.
#[derive(Clone, Debug, PartialEq, Eq)]
pub struct Row {
    pub name: String,
    pub amount: usize,
    pub style: String,
}

/// A row as contracts see it.
pub struct RowView {
    pub name: Seq<char>,
    pub amount: usize,
    pub style: Seq<char>,
}

impl View for Row {
    type V = RowView;

    open spec fn view(&self) -> RowView {
        RowView { name: self.name@, amount: self.amount, style: self.style@ }
    }
}

/// The row that shows `source`.
pub open spec fn row_of(source: (String, usize)) -> RowView {
    RowView {
        name: source.0@,
        amount: source.1,
        style: row_style(pile_colors(lowercase_of(source.0@))),
    }
}

/// The rows that show `sources` in the order `order`.
pub open spec fn rows_in_order(sources: Seq<(String, usize)>, order: Seq<int>) -> Seq<RowView> {
    Seq::new(order.len(), |k: int| row_of(sources[order[k]]))
}

/// The names of `sources`, position by position.
pub open spec fn source_names(sources: Seq<(String, usize)>) -> Seq<Seq<char>> {
    Seq::new(sources.len(), |i: int| sources[i].0@)
}

/// What `rows` hold, position by position.
pub open spec fn row_views(rows: Seq<Row>) -> Seq<RowView> {
    Seq::new(rows.len(), |k: int| rows[k]@)
}

/// `rows` is a table of `sources`: it shows each source in one row, and its
/// rows are in an order that is sorted by name.
pub open spec fn is_table_of(sources: Seq<(String, usize)>, rows: Seq<RowView>) -> bool {
    exists|order: Seq<int>|
        {
            &&& is_sorted_by_name(source_names(sources), order)
            &&& rows == rows_in_order(sources, order)
        }
}

/// The positions of `sources` as `Itertools::sorted_unstable_by_key` orders
/// them by name. That method collects what it is given and sorts it with the
/// standard library's `sort_unstable_by_key`: in ascending order of the key,
/// here in the order that the standard library gives text. It hands back every
/// item that it was given, here each by its position. Its sort is not stable:
/// nothing is said of the order of two sources with one name.
#[verifier::external_body]
fn sorted_by_name(sources: &Vec<(String, usize)>) -> (order: Vec<usize>)
    ensures
        is_sorted_by_name(source_names(sources@), as_positions(order@)),
{
    sources.iter().enumerate().sorted_unstable_by_key(|(_, source)| source.0.as_str()).map(
        |(index, _)| index,
    ).collect()
}

/// The table of a pack: one row for each of its sources, by ascending name.
pub fn table_rows(pack: &Pack) -> (rows: Vec<Row>)
    ensures
        is_table_of(pack.card_sources@, row_views(rows@)),
{
    let order = sorted_by_name(&pack.card_sources);
    let ghost positions = as_positions(order@);
    let mut rows: Vec<Row> = Vec::new();
    let mut k: usize = 0;
    while k < order.len()
        invariant
            k <= order@.len(),
            rows@.len() == k,
            positions == as_positions(order@),
            is_sorted_by_name(source_names(pack.card_sources@), positions),
            row_views(rows@) == rows_in_order(pack.card_sources@, positions.take(k as int)),
        decreases order@.len() - k,
    {
        assert(0 <= positions[k as int] < pack.card_sources@.len());
        let ghost shown = row_views(rows@);
        let source = &pack.card_sources[order[k]];
        let name = source.0.clone();
        let style = style_of_colors(get_pile_colors(name.as_str()));
        let row = Row { name, amount: source.1, style };
        assert(row@ == row_of(pack.card_sources@[positions[k as int]]));
        rows.push(row);
        k += 1;
        assert forall|j: int| 0 <= j < k implies #[trigger] row_views(rows@)[j] == rows_in_order(
            pack.card_sources@,
            positions.take(k as int),
        )[j] by {
            if j < k - 1 {
                assert(row_views(rows@)[j] == shown[j]);
                assert(positions.take(k as int)[j] == positions.take(k - 1)[j]);
            }
        }
        assert(row_views(rows@) =~= rows_in_order(pack.card_sources@, positions.take(k as int)));
    }
    assert(positions.take(k as int) =~= positions);
    rows
}

/// A pack that names no pile twice has one table only.
pub proof fn lemma_table_is_determined(
    sources: Seq<(String, usize)>,
    one: Seq<RowView>,
    other: Seq<RowView>,
)
    requires
        forall|i: int, j: int| 0 <= i < j < sources.len() ==> sources[i].0@ != sources[j].0@,
        is_table_of(sources, one),
        is_table_of(sources, other),
    ensures
        one == other,
{
    let names = source_names(sources);
    let a = choose|order: Seq<int>|
        is_sorted_by_name(names, order) && one == rows_in_order(sources, order);
    let b = choose|order: Seq<int>|
        is_sorted_by_name(names, order) && other == rows_in_order(sources, order);
    lemma_sorted_by_name_is_unique(names, a, b);
}

/// The class of a card's header: a checked card has a coloured one.
pub open spec fn header_class(checked: bool) -> Seq<char> {
    if checked {
        "card-header"@ + " has-background-success"@
    } else {
        "card-header"@
    }
}

/// All that a card shows.
#[derive(Clone, Debug, PartialEq, Eq)]
pub struct CardView {
    /// The number in the header: packs are counted from one.
    pub slot: usize,
    pub header_class: String,
    pub mark: MarkButton,
    pub rows: Vec<Row>,
    /// The magnification of the card, in thousandths.
    pub zoom_scale: i64,
    /// The font size of the card, in thousandths of a rem.
    pub font_size: i64,
}

impl Props {
    /// The position leaves room for the number that the card shows.
    pub open spec fn wf(&self) -> bool {
        self.index < usize::MAX
    }
}

impl PackCard {
    /// A card.
    pub fn create() -> PackCard {
        PackCard {  }
    }

    /// Takes one message in. A click changes nothing on the card: the position
    /// of its pack is handed on to whoever listens, and the card need not be
    /// drawn again. Returns that position, and whether to redraw.
    pub fn update(&mut self, props: &Props, msg: Msg) -> (effect: (usize, bool))
        ensures
            effect.0 == props.index,
            !effect.1,
    {
        match msg {
            Msg::Clicked => (props.index, false),
        }
    }

    /// What the card shows for `props`.
    pub fn view(&self, props: &Props) -> (card: CardView)
        requires
            props.wf(),
        ensures
            card.slot == props.index + 1,
            card.header_class@ == header_class(props.checked),
            card.mark == if props.checked {
                MarkButton::Delete
            } else {
                MarkButton::Done
            },
            is_table_of(props.pack.card_sources@, row_views(card.rows@)),
            card.zoom_scale == props.zoom_scale,
            card.font_size == scaled_font_size(props.zoom_scale as int),
    {
        let rows = table_rows(&props.pack);
        let mut class = String::from_str("card-header");
        if props.checked {
            class.append(" has-background-success");
        }
        let mark = if props.checked {
            MarkButton::Delete
        } else {
            MarkButton::Done
        };
        CardView {
            slot: props.index + 1,
            header_class: class,
            mark,
            rows,
            zoom_scale: props.zoom_scale,
            font_size: BASE_FONT_SIZE * props.zoom_scale,
        }
    }
}

} // verus!
