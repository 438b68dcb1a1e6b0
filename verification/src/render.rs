//! Textual rendering of the application state.
//!
//! The rendered view is a rectangular grid of characters: a thick border,
//! the title centered in the top edge, `Value: {counter}` centered on the
//! first inner row, and the key-binding legend centered in the bottom edge.
//! Rendering is a pure function of the state and the frame size, so the
//! same state always draws the same grid, whatever puts it on screen.

use vstd::prelude::*;
use vstd::string::StrSliceExecFns;

use crate::app::{App, AppModel};

verus! {

/// The decimal digit `d` as a character, for `0 <= d < 10`.
pub open spec fn spec_digit_char(d: int) -> char {
    if d == 0 {
        '0'
    } else if d == 1 {
        '1'
    } else if d == 2 {
        '2'
    } else if d == 3 {
        '3'
    } else if d == 4 {
        '4'
    } else if d == 5 {
        '5'
    } else if d == 6 {
        '6'
    } else if d == 7 {
        '7'
    } else if d == 8 {
        '8'
    } else {
        '9'
    }
}

/// The usual decimal writing of `n`: no sign, no leading zeros (except for
/// `n == 0` itself, written "0").
pub open spec fn spec_udec(n: nat) -> Seq<char>
    decreases n,
{
    if n < 10 {
        seq![spec_digit_char(n as int)]
    } else {
        spec_udec(n / 10) + seq![spec_digit_char((n % 10) as int)]
    }
}

/// The decimal writing of a signed number: a leading '-' for negatives.
pub open spec fn spec_int_chars(n: int) -> Seq<char> {
    if n < 0 {
        seq!['-'] + spec_udec((-n) as nat)
    } else {
        spec_udec(n as nat)
    }
}

fn digit_char(d: u64) -> (c: char)
    requires
        d < 10,
    ensures
        c == spec_digit_char(d as int),
{
    match d {
        0 => '0',
        1 => '1',
        2 => '2',
        3 => '3',
        4 => '4',
        5 => '5',
        6 => '6',
        7 => '7',
        8 => '8',
        _ => '9',
    }
}

fn u64_dec(n: u64) -> (v: Vec<char>)
    ensures
        v@ == spec_udec(n as nat),
    decreases n,
{
    if n < 10 {
        let mut v: Vec<char> = Vec::new();
        v.push(digit_char(n));
        assert(v@ =~= seq![spec_digit_char(n as int)]);
        v
    } else {
        let mut v = u64_dec(n / 10);
        v.push(digit_char(n % 10));
        assert(v@ =~= spec_udec((n / 10) as nat) + seq![spec_digit_char((n % 10) as int)]);
        v
    }
}

/// Writes `n` in decimal, as the row of characters `spec_int_chars` names.
pub fn int_chars(n: i64) -> (v: Vec<char>)
    ensures
        v@ == spec_int_chars(n as int),
{
    if n >= 0 {
        u64_dec(n as u64)
    } else {
        let m: u64 = if n == i64::MIN {
            9223372036854775808u64
        } else {
            (-n) as u64
        };
        assert(m as nat == (-(n as int)) as nat);
        let mut v: Vec<char> = Vec::new();
        v.push('-');
        let mut digits = u64_dec(m);
        v.append(&mut digits);
        assert(v@ =~= seq!['-'] + spec_udec((-(n as int)) as nat));
        v
    }
}

/// `n` copies of the character `fill`.
pub open spec fn spec_pad(fill: char, n: nat) -> Seq<char> {
    Seq::new(n, |i: int| fill)
}

/// `content` centered in a row of `width` characters, the rest filled with
/// `fill`; when the content does not fit, its first `width` characters.
/// A surplus that does not split evenly leaves the extra fill on the right.
pub open spec fn spec_centered(content: Seq<char>, fill: char, width: nat) -> Seq<char> {
    if content.len() >= width {
        content.take(width as int)
    } else {
        let left = (width - content.len()) / 2;
        spec_pad(fill, left as nat) + content + spec_pad(
            fill,
            (width - content.len() - left) as nat,
        )
    }
}

fn repeat_char(fill: char, n: usize) -> (v: Vec<char>)
    ensures
        v@ == spec_pad(fill, n as nat),
{
    let mut v: Vec<char> = Vec::new();
    let mut i: usize = 0;
    while i < n
        invariant
            i <= n,
            v@ == spec_pad(fill, i as nat),
        decreases n - i,
    {
        v.push(fill);
        i = i + 1;
        assert(v@ =~= spec_pad(fill, i as nat));
    }
    v
}

fn take_prefix(content: &Vec<char>, n: usize) -> (v: Vec<char>)
    requires
        n <= content@.len(),
    ensures
        v@ == content@.take(n as int),
{
    let mut v: Vec<char> = Vec::new();
    let mut i: usize = 0;
    while i < n
        invariant
            i <= n,
            n <= content@.len(),
            v@ == content@.take(i as int),
        decreases n - i,
    {
        v.push(content[i]);
        i = i + 1;
        assert(v@ =~= content@.take(i as int));
    }
    v
}

/// Centers `content` in a row of `width` characters filled with `fill`,
/// exactly as `spec_centered` lays it out.
fn centered(content: &Vec<char>, fill: char, width: usize) -> (row: Vec<char>)
    ensures
        row@ == spec_centered(content@, fill, width as nat),
{
    let n = content.len();
    if n >= width {
        take_prefix(content, width)
    } else {
        let left = (width - n) / 2;
        let right = width - n - left;
        let mut row = repeat_char(fill, left);
        let mut middle = take_prefix(content, n);
        assert(middle@ =~= content@);
        row.append(&mut middle);
        let mut tail = repeat_char(fill, right);
        row.append(&mut tail);
        assert(row@ =~= spec_centered(content@, fill, width as nat));
        row
    }
}

/// The title shown in the top border.
pub open spec fn spec_title() -> Seq<char> {
    " Counter App Tutorial "@
}

/// The key-binding legend shown in the bottom border.
pub open spec fn spec_legend() -> Seq<char> {
    " Decrement <Left> Increment <Right> Quit <Q> "@
}

/// The text on the value row: "Value: " followed by the counter in decimal.
pub open spec fn spec_value_text(counter: int) -> Seq<char> {
    "Value: "@ + spec_int_chars(counter)
}

/// The top border: the title centered between the corners, filled with '━'.
pub open spec fn spec_row_top(width: nat) -> Seq<char> {
    seq!['┏'] + spec_centered(spec_title(), '━', (width - 2) as nat) + seq!['┓']
}

/// An inner row holding the value text, centered between the side borders.
pub open spec fn spec_row_value(counter: int, width: nat) -> Seq<char> {
    seq!['┃'] + spec_centered(spec_value_text(counter), ' ', (width - 2) as nat) + seq!['┃']
}

/// An empty inner row: blanks between the side borders.
pub open spec fn spec_row_blank(width: nat) -> Seq<char> {
    seq!['┃'] + spec_pad(' ', (width - 2) as nat) + seq!['┃']
}

/// The bottom border: the legend centered between the corners.
pub open spec fn spec_row_bottom(width: nat) -> Seq<char> {
    seq!['┗'] + spec_centered(spec_legend(), '━', (width - 2) as nat) + seq!['┛']
}

/// The whole grid: top border, the value row, blank rows, bottom border.
/// A frame too small for a border (width or height under 2) renders as
/// nothing at all.
pub open spec fn spec_render(counter: int, width: nat, height: nat) -> Seq<Seq<char>> {
    if width < 2 || height < 2 {
        Seq::empty()
    } else {
        seq![spec_row_top(width)] + Seq::new(
            (height - 2) as nat,
            |i: int|
                if i == 0 {
                    spec_row_value(counter, width)
                } else {
                    spec_row_blank(width)
                },
        ) + seq![spec_row_bottom(width)]
    }
}

/// Rendering is pure: the grid is a function of the counter and the frame
/// size alone, so the same state rendered twice gives the same rows both
/// times, and states that agree on the counter render identically whatever
/// their lifecycle flag.
pub proof fn lemma_render_pure(a: AppModel, b: AppModel, width: nat, height: nat)
    requires
        a.counter == b.counter,
    ensures
        spec_render(a.counter, width, height) == spec_render(b.counter, width, height),
{
}

fn str_chars(s: &str) -> (v: Vec<char>)
    ensures
        v@ == s@,
{
    let n = s.unicode_len();
    let mut v: Vec<char> = Vec::new();
    let mut i: usize = 0;
    while i < n
        invariant
            i <= n,
            n == s@.len(),
            v@ == s@.take(i as int),
        decreases n - i,
    {
        v.push(s.get_char(i));
        i = i + 1;
        assert(v@ =~= s@.take(i as int));
    }
    assert(v@ =~= s@);
    v
}

fn boxed_row(left: char, content: &Vec<char>, fill: char, right: char, inner: usize) -> (row: Vec<
    char,
>)
    ensures
        row@ == seq![left] + spec_centered(content@, fill, inner as nat) + seq![right],
{
    let mut row: Vec<char> = Vec::new();
    row.push(left);
    let mut middle = centered(content, fill, inner);
    row.append(&mut middle);
    row.push(right);
    assert(row@ =~= seq![left] + spec_centered(content@, fill, inner as nat) + seq![right]);
    row
}

/// A rendered frame: one `Vec<char>` per screen row, top to bottom.
pub struct RenderedView {
    pub rows: Vec<Vec<char>>,
}

impl View for RenderedView {
    type V = Seq<Seq<char>>;

    open spec fn view(&self) -> Seq<Seq<char>> {
        self.rows.deep_view()
    }
}

impl App {
    /// Describes the current state as a `width` by `height` character grid:
    /// a thick border with the title centered in its top edge and the
    /// key-binding legend centered in its bottom edge, and `Value: {counter}`
    /// centered on the first inner row. Pure: the grid depends on nothing
    /// but the counter and the frame size.
    pub fn render_frame(&self, width: u16, height: u16) -> (view: RenderedView)
        ensures
            view@ == spec_render(self@.counter, width as nat, height as nat),
    {
        let mut rows: Vec<Vec<char>> = Vec::new();
        if width < 2 || height < 2 {
            assert(rows.deep_view() =~~= spec_render(self@.counter, width as nat, height as nat));
            return RenderedView { rows };
        }
        let inner: usize = (width as usize) - 2;
        let ghost w = width as nat;

        let title = str_chars(" Counter App Tutorial ");
        rows.push(boxed_row('┏', &title, '━', '┓', inner));
        assert(rows.deep_view() =~~= seq![spec_row_top(w)]);

        let content: usize = (height as usize) - 2;
        let ghost inner_rows = Seq::new(
            (height - 2) as nat,
            |i: int|
                if i == 0 {
                    spec_row_value(self@.counter, w)
                } else {
                    spec_row_blank(w)
                },
        );
        let mut j: usize = 0;
        while j < content
            invariant
                j <= content,
                2 <= width,
                2 <= height,
                inner == width - 2,
                content == height - 2,
                w == width as nat,
                inner_rows == Seq::new(
                    (height - 2) as nat,
                    |i: int|
                        if i == 0 {
                            spec_row_value(self@.counter, w)
                        } else {
                            spec_row_blank(w)
                        },
                ),
                rows.deep_view() == seq![spec_row_top(w)] + inner_rows.take(j as int),
            decreases content - j,
        {
            let ghost prev = rows.deep_view();
            let row: Vec<char>;
            if j == 0 {
                let mut value = str_chars("Value: ");
                let mut digits = int_chars(self.counter);
                value.append(&mut digits);
                assert(value@ =~= spec_value_text(self@.counter));
                row = boxed_row('┃', &value, ' ', '┃', inner);
                assert(row@ == inner_rows[j as int]);
            } else {
                row = boxed_row('┃', &Vec::new(), ' ', '┃', inner);
                assert(row@ =~= spec_row_blank(w)) by {
                    assert(spec_centered(Seq::<char>::empty(), ' ', (w - 2) as nat) =~= spec_pad(
                        ' ',
                        (w - 2) as nat,
                    ));
                }
                assert(row@ == inner_rows[j as int]);
            }
            let ghost rv = row@;
            rows.push(row);
            assert(rows.deep_view() =~~= prev.push(rv));
            j = j + 1;
            assert(rows.deep_view() =~~= seq![spec_row_top(w)] + inner_rows.take(j as int));
        }

        let legend = str_chars(" Decrement <Left> Increment <Right> Quit <Q> ");
        rows.push(boxed_row('┗', &legend, '━', '┛', inner));
        assert(inner_rows.take(content as int) =~= inner_rows);
        assert(rows.deep_view() =~~= spec_render(self@.counter, w, height as nat));
        RenderedView { rows }
    }
}

} // verus!
