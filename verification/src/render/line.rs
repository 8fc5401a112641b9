//! The layout of one bar: how wide it is, and the lines that draw its staff.

use svg::node::element::Group;
use svg::Node;

use vstd::prelude::*;

use crate::bar::Bar;
use crate::decimal::decimal;
use crate::render::RendererConfig;

verus! {

/// Half the distance between two staff lines.
pub const VERTICAL_NOTE_MARGIN: usize = 5;

/// The distance between two staff lines.
pub const LINES_MARGIN: usize = 2 * VERTICAL_NOTE_MARGIN;

/// The thickness of a staff line and of a thin barline.
pub const LINES_THICKNESS: usize = 1;

/// The color of every line of the staff.
pub const STROKE_COLOR: &'static str = "black";

/// The margin on either side of a note, and after the clef and the time
/// signature.
pub const NOTES_MARGIN: usize = 25;

/// The width of a bar that holds nothing.
pub const MIN_SIZE_BAR: usize = 50;

/// The width of a note.
pub const NOTE_SIZE: usize = 25;

/// The width of a clef.
pub const CLEF_SIZE: usize = 40;

/// The width of a time signature.
pub const TIME_SIGNATURE_SIZE: usize = 25;

/// The distance between the two closing lines of the last bar of a line.
pub const END_BAR_MARGIN: usize = 5;

/// The room one note takes: a margin, the note, a margin.
pub open spec fn note_cell() -> nat {
    (2 * NOTES_MARGIN + NOTE_SIZE) as nat
}

/// The height of the staff: five lines, four gaps.
pub open spec fn staff_height() -> nat {
    (4 * LINES_MARGIN) as nat
}

/// The width of a bar, from what its header holds, the number of its notes
/// and whether it closes its line.
pub open spec fn bar_width(clef: bool, time_signature: bool, notes: nat, end: bool) -> nat {
    MIN_SIZE_BAR as nat + (if clef {
        (CLEF_SIZE + NOTES_MARGIN) as nat
    } else {
        0
    }) + (if time_signature {
        (TIME_SIGNATURE_SIZE + NOTES_MARGIN) as nat
    } else {
        0
    }) + notes * note_cell() + (if end {
        END_BAR_MARGIN as nat
    } else {
        0
    })
}

/// The width of the given bar.
pub open spec fn width_of(bar: &Bar, end: bool) -> nat {
    bar_width(bar.header.clef is Some, bar.header.time_signature is Some, bar.notes@.len(), end)
}

/// Each note more widens a bar by exactly one note cell, so the width grows
/// strictly with the number of notes.
pub proof fn lemma_width_per_note(clef: bool, time_signature: bool, notes: nat, end: bool)
    ensures
        bar_width(clef, time_signature, notes + 1, end) == bar_width(
            clef,
            time_signature,
            notes,
            end,
        ) + note_cell(),
        bar_width(clef, time_signature, notes, end) < bar_width(
            clef,
            time_signature,
            notes + 1,
            end,
        ),
        note_cell() == 75,
{
    assert((notes + 1) * note_cell() == notes * note_cell() + note_cell()) by (nonlinear_arith);
}

/// The width of a bar grows strictly with the number of its notes.
pub proof fn lemma_width_increasing(clef: bool, time_signature: bool, fewer: nat, more: nat, end: bool)
    requires
        fewer < more,
    ensures
        bar_width(clef, time_signature, fewer, end) < bar_width(clef, time_signature, more, end),
        bar_width(clef, time_signature, more, end) - bar_width(clef, time_signature, fewer, end)
            == (more - fewer) * note_cell(),
{
    assert(more * note_cell() == fewer * note_cell() + (more - fewer) * note_cell())
        by (nonlinear_arith);
    assert((more - fewer) * note_cell() > 0) by (nonlinear_arith)
        requires
            more - fewer > 0,
            note_cell() > 0,
    ;
}

/// Of two bars with the same header, the one with more notes is the wider,
/// by one note cell of 75 for each note more, whatever the notes are.
pub proof fn lemma_wider_with_more_notes(fewer: Bar, more: Bar, end: bool)
    requires
        fewer.header == more.header,
        fewer.notes@.len() < more.notes@.len(),
    ensures
        width_of(&fewer, end) < width_of(&more, end),
        width_of(&more, end) == width_of(&fewer, end) + (more.notes@.len() - fewer.notes@.len())
            * 75,
        more.notes@.len() == fewer.notes@.len() + 1 ==> width_of(&more, end) == width_of(
            &fewer,
            end,
        ) + 75,
{
    lemma_width_increasing(
        fewer.header.clef is Some,
        fewer.header.time_signature is Some,
        fewer.notes@.len(),
        more.notes@.len(),
        end,
    );
}

/// The width and the height of a bar as it is drawn.
pub fn bar_size(bar: &Bar, end: bool) -> (size: (usize, usize))
    requires
        width_of(bar, end) <= usize::MAX,
    ensures
        size.0 == width_of(bar, end),
        size.1 == staff_height(),
{
    let mut width: usize = MIN_SIZE_BAR;
    if bar.header.clef.is_some() {
        width += CLEF_SIZE;
        width += NOTES_MARGIN;
    }
    if bar.header.time_signature.is_some() {
        width += TIME_SIGNATURE_SIZE;
        width += NOTES_MARGIN;
    }
    let cell: usize = (2 * NOTES_MARGIN) + NOTE_SIZE;
    assert(bar.notes@.len() * note_cell() <= width_of(bar, end));
    assert(bar.notes.len() * cell == bar.notes@.len() * note_cell());
    width += bar.notes.len() * cell;
    if end {
        width += END_BAR_MARGIN;
    }
    (width, 4 * LINES_MARGIN)
}

/// Whether a bar can be drawn with its top left corner at `(x, y)`: whether
/// its right edge and its bottom line still have coordinates.
pub fn bar_fits(x: usize, y: usize, end: bool, bar: &Bar) -> (fits: bool)
    ensures
        fits == (x + width_of(bar, end) <= usize::MAX && y + staff_height() <= usize::MAX),
{
    let mut fixed: usize = MIN_SIZE_BAR;
    if bar.header.clef.is_some() {
        fixed += CLEF_SIZE + NOTES_MARGIN;
    }
    if bar.header.time_signature.is_some() {
        fixed += TIME_SIGNATURE_SIZE + NOTES_MARGIN;
    }
    if end {
        fixed += END_BAR_MARGIN;
    }
    let cell: usize = (2 * NOTES_MARGIN) + NOTE_SIZE;
    assert(width_of(bar, end) == fixed + bar.notes@.len() * cell) by {
        assert(bar.notes@.len() * note_cell() == bar.notes@.len() * cell);
    }
    if y > usize::MAX - 4 * LINES_MARGIN || x > usize::MAX - fixed {
        return false;
    }
    bar.notes.len() <= (usize::MAX - fixed - x) / cell
}

/// The `g` element of the `svg` crate: a group of child nodes.
#[verifier::external_type_specification]
#[verifier::external_body]
pub struct ExGroup(Group);

/// The `line` element of the `svg` crate.
#[verifier::external_type_specification]
#[verifier::external_body]
pub struct ExLine(svg::node::element::Line);

/// The attributes of an element: each name with its value, both as text.
pub type Attributes = Map<Seq<char>, Seq<char>>;

/// The attributes that a line element holds: each name with its value as
/// text.
pub uninterp spec fn line_attributes(line: svg::node::element::Line) -> Map<Seq<char>, Seq<char>>;

/// The children that a group holds, in the order in which they were
/// appended, each given by its attributes.
pub uninterp spec fn group_lines(group: Group) -> Seq<Map<Seq<char>, Seq<char>>>;

/// `Line::new`: a line element without attributes.
#[verifier::external_body]
fn new_line() -> (res: svg::node::element::Line)
    ensures
        line_attributes(res) == Attributes::empty(),
{
    svg::node::element::Line::new()
}

/// `Line::set` with a number: the attribute of that name now holds the
/// number in decimal notation, and the other attributes are as before.
#[verifier::external_body]
fn set_number(line: svg::node::element::Line, name: &str, value: usize) -> (res: svg::node::element::Line)
    ensures
        line_attributes(res) == line_attributes(line).insert(name@, decimal(value as nat)),
{
    line.set(name, value)
}

/// `Line::set` with a text: the attribute of that name now holds the text,
/// and the other attributes are as before.
#[verifier::external_body]
fn set_text(line: svg::node::element::Line, name: &str, value: &str) -> (res: svg::node::element::Line)
    ensures
        line_attributes(res) == line_attributes(line).insert(name@, value@),
{
    line.set(name, value)
}

/// `Group::new`: a group without children.
#[verifier::external_body]
fn new_group() -> (group: Group)
    ensures
        group_lines(group) == Seq::<Attributes>::empty(),
{
    Group::new()
}

/// `Node::append` on a group: the line becomes the last child.
#[verifier::external_body]
fn append_line(group: &mut Group, line: svg::node::element::Line)
    ensures
        group_lines(*final(group)) == group_lines(*old(group)).push(line_attributes(line)),
{
    group.append(line)
}

/// The attributes of a line from `(x1, y1)` to `(x2, y2)`, drawn in the
/// staff color at the given thickness.
pub open spec fn stroke(x1: nat, y1: nat, x2: nat, y2: nat, thickness: nat) -> Attributes {
    Attributes::empty().insert("x1"@, decimal(x1)).insert(
        "x2"@,
        decimal(x2),
    ).insert("y1"@, decimal(y1)).insert("y2"@, decimal(y2)).insert("stroke"@, STROKE_COLOR@).insert(
        "stroke-width"@,
        decimal(thickness),
    )
}

/// A barline at `x`, from the top of the staff at `y` to its bottom.
pub open spec fn barline(x: nat, y: nat, thickness: nat) -> Attributes {
    stroke(x, y, x, y + staff_height(), thickness)
}

/// The staff line number `i` from the top, from `x` over the given width.
pub open spec fn staff_line(x: nat, y: nat, width: nat, i: nat) -> Attributes {
    stroke(x, y + i * LINES_MARGIN as nat, x + width, y + i * LINES_MARGIN as nat, LINES_THICKNESS as nat)
}

/// What closes a bar on the right: one thin barline, or for the last bar of
/// a line a thin barline and, after the end margin, one of double thickness.
pub open spec fn closing_lines(x: nat, y: nat, width: nat, end: bool) -> Seq<Attributes> {
    if end {
        seq![
            barline((x + width - END_BAR_MARGIN) as nat, y, LINES_THICKNESS as nat),
            barline(x + width, y, (2 * LINES_THICKNESS) as nat),
        ]
    } else {
        seq![barline(x + width, y, LINES_THICKNESS as nat)]
    }
}

/// The lines of a bar of the given width whose top left corner is `(x, y)`:
/// the barline on the left, the five staff lines from top to bottom, and
/// what closes the bar.
pub open spec fn bar_lines(x: nat, y: nat, width: nat, end: bool) -> Seq<Attributes> {
    seq![barline(x, y, LINES_THICKNESS as nat)] + Seq::new(
        5,
        |i: int| staff_line(x, y, width, i as nat),
    ) + closing_lines(x, y, width, end)
}

/// The thickness that a line is drawn with, as its attribute gives it.
pub open spec fn thickness(line: Attributes) -> Seq<char> {
    line["stroke-width"@]
}

/// Every line of a bar is thin but the very last line of the last bar of a
/// line, which has double thickness.
pub proof fn lemma_line_thickness(x: nat, y: nat, width: nat, end: bool)
    ensures
        forall|i: int|
            0 <= i < bar_lines(x, y, width, end).len() ==> thickness(
                #[trigger] bar_lines(x, y, width, end)[i],
            ) == if end && i == 7 {
                decimal(2)
            } else {
                decimal(1)
            },
        decimal(1) != decimal(2),
{
    assert(decimal(1)[0] == '1' && decimal(2)[0] == '2');
}

/// The last bar of a line closes with two barlines, the second of double
/// thickness; every other bar closes with a single thin one. Either way the
/// last barline stands at the right edge of the bar.
pub proof fn lemma_closing_lines(x: nat, y: nat, width: nat, end: bool)
    ensures
        bar_lines(x, y, width, end).len() == if end {
            8nat
        } else {
            7nat
        },
        end ==> bar_lines(x, y, width, end)[6] == barline(
            (x + width - END_BAR_MARGIN) as nat,
            y,
            1,
        ) && bar_lines(x, y, width, end)[7] == barline(x + width, y, 2),
        !end ==> bar_lines(x, y, width, end)[6] == barline(x + width, y, 1),
{
}

/// A line element from `(x1, y1)` to `(x2, y2)` in the staff color.
fn line_between(x1: usize, y1: usize, x2: usize, y2: usize, thickness: usize) -> (line: svg::node::element::Line)
    ensures
        line_attributes(line) == stroke(x1 as nat, y1 as nat, x2 as nat, y2 as nat, thickness as nat),
{
    let line = new_line();
    let line = set_number(line, "x1", x1);
    let line = set_number(line, "x2", x2);
    let line = set_number(line, "y1", y1);
    let line = set_number(line, "y2", y2);
    let line = set_text(line, "stroke", STROKE_COLOR);
    set_number(line, "stroke-width", thickness)
}

/// Draws the staff of a bar with its top left corner at `(x, y)`, and gives
/// the group of its lines together with the size of the bar.
///
/// The clef, the time signature and the notes take their room in the width
/// but are not drawn, and nothing of the configuration is read: every line
/// has the staff color.
pub fn generate_bar(x: usize, y: usize, end: bool, bar: &Bar, _config: &RendererConfig) -> (res: (
    Group,
    (usize, usize),
))
    requires
        x + width_of(bar, end) <= usize::MAX,
        y + staff_height() <= usize::MAX,
    ensures
        res.1.0 == width_of(bar, end),
        res.1.1 == staff_height(),
        group_lines(res.0) == bar_lines(x as nat, y as nat, width_of(bar, end), end),
        group_lines(res.0).len() == if end {
            8nat
        } else {
            7nat
        },
        end ==> group_lines(res.0)[6] == barline(
            (x + width_of(bar, end) - END_BAR_MARGIN) as nat,
            y as nat,
            1,
        ) && group_lines(res.0)[7] == barline(x as nat + width_of(bar, end), y as nat, 2),
        !end ==> group_lines(res.0)[6] == barline(x as nat + width_of(bar, end), y as nat, 1),
        forall|i: int|
            0 <= i < group_lines(res.0).len() ==> thickness(#[trigger] group_lines(res.0)[i])
                == if end && i == 7 {
                decimal(2)
            } else {
                decimal(1)
            },
{
    let (bar_size, height) = bar_size(bar, end);
    let ghost lines = bar_lines(x as nat, y as nat, bar_size as nat, end);
    proof {
        lemma_closing_lines(x as nat, y as nat, bar_size as nat, end);
        lemma_line_thickness(x as nat, y as nat, bar_size as nat, end);
    }
    let mut g = new_group();

    // starting vertical line
    append_line(&mut g, line_between(x, y, x, y + (4 * LINES_MARGIN), LINES_THICKNESS));

    // the 5 bar lines
    let mut i: usize = 0;
    while i < 5
        invariant
            i <= 5,
            x + bar_size <= usize::MAX,
            y + 4 * LINES_MARGIN <= usize::MAX,
            group_lines(g) == lines.subrange(0, 1 + i),
            lines == bar_lines(x as nat, y as nat, bar_size as nat, end),
        decreases 5 - i,
    {
        assert(LINES_MARGIN == 10);
        let cur_y: usize = y + (i * LINES_MARGIN);
        append_line(&mut g, line_between(x, cur_y, x + bar_size, cur_y, LINES_THICKNESS));
        assert(lines[1 + i] == staff_line(x as nat, y as nat, bar_size as nat, i as nat));
        assert(lines.subrange(0, 1 + i).push(lines[1 + i]) == lines.subrange(0, 2 + i));
        i += 1;
    }

    // one thin line closes a bar; the last bar of a line gets a thick one after it
    if !end {
        append_line(
            &mut g,
            line_between(x + bar_size, y, x + bar_size, y + (4 * LINES_MARGIN), LINES_THICKNESS),
        );
        assert(lines.subrange(0, 6).push(lines[6]) == lines);
    } else {
        append_line(
            &mut g,
            line_between(
                x + bar_size - END_BAR_MARGIN,
                y,
                x + bar_size - END_BAR_MARGIN,
                y + (4 * LINES_MARGIN),
                LINES_THICKNESS,
            ),
        );
        append_line(
            &mut g,
            line_between(x + bar_size, y, x + bar_size, y + (4 * LINES_MARGIN), 2 * LINES_THICKNESS),
        );
        assert(lines.subrange(0, 6).push(lines[6]).push(lines[7]) == lines);
    }
    (g, (bar_size, height))
}

} // verus!
