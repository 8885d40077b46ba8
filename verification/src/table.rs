use vstd::prelude::*;
use vstd::string::StringExecFns;

use crate::strutil::{repeat_char, spec_repeat_char};

verus! {

/// The displayed column width of a string, as unicode-width measures it.
pub uninterp spec fn display_width(s: Seq<char>) -> nat;

/// Relies on unicode-width's UnicodeWidthStr::width: the displayed column
/// width of a string, a function of its characters alone (characters of
/// ambiguous width counted narrow).
#[verifier::external_body]
fn str_width(s: &str) -> (r: usize)
    ensures
        r as nat == display_width(s@),
{
    unicode_width::UnicodeWidthStr::width(s)
}

/// Saturating difference, the padding arithmetic of the renderer: content
/// wider than its column simply gets no padding.
pub open spec fn spec_sat_sub(a: nat, b: nat) -> nat {
    if a >= b {
        (a - b) as nat
    } else {
        0
    }
}

/// Saturating sum: a box that would outgrow `usize` is clamped instead of
/// failing.
pub open spec fn spec_sat_add(a: nat, b: nat) -> nat {
    if a + b > usize::MAX as nat {
        usize::MAX as nat
    } else {
        a + b
    }
}

/// `n` spaces.
pub open spec fn spec_spaces(n: nat) -> Seq<char> {
    spec_repeat_char(' ', n)
}

fn spaces(n: usize) -> (r: String)
    ensures
        r@ == spec_spaces(n as nat),
{
    repeat_char(' ', n)
}

/// `s` padded on the right with spaces to the visible width `w`.
pub open spec fn spec_pad_left(s: Seq<char>, w: nat) -> Seq<char> {
    s + spec_spaces(spec_sat_sub(w, display_width(s)))
}

/// `s` padded on the left with spaces to the visible width `w`.
pub open spec fn spec_pad_right(s: Seq<char>, w: nat) -> Seq<char> {
    spec_spaces(spec_sat_sub(w, display_width(s))) + s
}

/// Left-aligns a string within the specified visible width.
pub fn pad_left(s: &str, width: usize) -> (r: String)
    ensures
        r@ == spec_pad_left(s@, width as nat),
{
    let w = str_width(s);
    let mut out = String::from_str(s);
    let pad = spaces(width.saturating_sub(w));
    out.append(pad.as_str());
    out
}

/// Right-aligns a string within the specified visible width.
pub fn pad_right(s: &str, width: usize) -> (r: String)
    ensures
        r@ == spec_pad_right(s@, width as nat),
{
    let w = str_width(s);
    let mut out = spaces(width.saturating_sub(w));
    out.append(s);
    out
}

/// Text alignment options.
#[derive(Clone, Copy)]
pub enum Align {
    Left,
    Center,
}

/// Border style options for the box.
#[derive(Clone, Copy)]
pub enum BorderStyle {
    /// Sharp corners.
    Sharp,
    /// Rounded corners.
    Rounded,
    /// Double lines.
    Double,
}

/// Theme configuration for box appearance.
#[derive(Clone, Copy)]
pub struct BoxTheme {
    pub padding: usize,
    pub border: BorderStyle,
    pub align: Align,
}

impl Default for BoxTheme {
    /// The theme boxes start from: two columns of padding, sharp corners,
    /// centered text.
    fn default() -> (r: Self)
        ensures
            r.padding == 2,
            r.border is Sharp,
            r.align is Center,
    {
        BoxTheme { padding: 2, border: BorderStyle::Sharp, align: Align::Center }
    }
}

/// Border characters for the box styles.
pub struct BorderChars {
    pub top_left: char,
    pub top_right: char,
    pub bottom_left: char,
    pub bottom_right: char,
    pub h: char,
    pub v: char,
}

/// The border characters a style draws with.
pub open spec fn spec_border_chars(style: BorderStyle) -> (char, char, char, char, char, char) {
    match style {
        BorderStyle::Sharp => ('┌', '┐', '└', '┘', '─', '│'),
        BorderStyle::Rounded => ('╭', '╮', '╰', '╯', '─', '│'),
        BorderStyle::Double => ('╔', '╗', '╚', '╝', '═', '║'),
    }
}

/// Returns border characters for the specified style.
pub fn border_chars(style: BorderStyle) -> (r: BorderChars)
    ensures
        (r.top_left, r.top_right, r.bottom_left, r.bottom_right, r.h, r.v) == spec_border_chars(
            style,
        ),
{
    match style {
        BorderStyle::Sharp => BorderChars {
            top_left: '┌',
            top_right: '┐',
            bottom_left: '└',
            bottom_right: '┘',
            h: '─',
            v: '│',
        },
        BorderStyle::Rounded => BorderChars {
            top_left: '╭',
            top_right: '╮',
            bottom_left: '╰',
            bottom_right: '╯',
            h: '─',
            v: '│',
        },
        BorderStyle::Double => BorderChars {
            top_left: '╔',
            top_right: '╗',
            bottom_left: '╚',
            bottom_right: '╝',
            h: '═',
            v: '║',
        },
    }
}

/// Text aligned within the given visible width: flushed left, or centered
/// with the leftover split in two.
pub open spec fn spec_align_text(s: Seq<char>, width: nat, align: Align) -> Seq<char> {
    let w = display_width(s);
    match align {
        Align::Left => s + spec_spaces(spec_sat_sub(width, w)),
        Align::Center => {
            let left = spec_sat_sub(width, w) / 2;
            let right = spec_sat_sub(spec_sat_sub(width, w), left);
            spec_spaces(left) + s + spec_spaces(right)
        },
    }
}

/// Aligns text within the specified width according to alignment mode.
pub fn align_text(s: &str, width: usize, align: Align) -> (r: String)
    ensures
        r@ == spec_align_text(s@, width as nat, align),
{
    let w = str_width(s);
    match align {
        Align::Left => {
            let mut out = String::from_str(s);
            let pad = spaces(width.saturating_sub(w));
            out.append(pad.as_str());
            out
        },
        Align::Center => {
            let total = width.saturating_sub(w);
            let left = total / 2;
            let right = total - left;
            let mut out = spaces(left);
            out.append(s);
            let rp = spaces(right);
            out.append(rp.as_str());
            out
        },
    }
}


/// Represents different types of rows in the box.
pub enum RowKind {
    Stat { label: String, value: String },
    Message(String),
}

/// The spec-level shape of a row: its texts as character sequences.
pub enum RowV {
    Stat(Seq<char>, Seq<char>),
    Message(Seq<char>),
}

pub open spec fn row_view(r: RowKind) -> RowV {
    match r {
        RowKind::Stat { label, value } => RowV::Stat(label@, value@),
        RowKind::Message(l) => RowV::Message(l@),
    }
}

pub open spec fn rows_view(rows: Seq<RowKind>) -> Seq<RowV> {
    rows.map_values(|r: RowKind| row_view(r))
}

/// Whether any row is a label/value statistic row.
pub open spec fn spec_has_stat(rows: Seq<RowV>) -> bool {
    exists|i: int| 0 <= i < rows.len() && (#[trigger] rows[i]) is Stat
}

/// The statistic rows of a stats box, rendered in order; message rows do
/// not appear there.
pub open spec fn spec_stat_rows(rows: Seq<RowV>) -> Seq<char>
    decreases rows.len(),
{
    if rows.len() == 0 {
        Seq::empty()
    } else {
        spec_stat_rows(rows.drop_last()) + match rows.last() {
            RowV::Stat(l, v) => "│  "@ + spec_pad_left(l, 18) + "  "@ + spec_pad_right(v, 26)
                + "  │\n"@,
            RowV::Message(_) => Seq::<char>::empty(),
        }
    }
}

/// A statistics box of fixed width: bordered, the title centered, one line
/// for each statistic row with the label flushed left and the value
/// flushed right.
pub open spec fn spec_stats_box(title: Seq<char>, rows: Seq<RowV>) -> Seq<char> {
    let tw = display_width(title);
    let p = spec_sat_sub(51, tw) / 2;
    let rr = spec_sat_sub(spec_sat_sub(spec_sat_sub(51, p), tw), 1);
    "┌──────────────────────────────────────────────────┐\n"@ + "│"@ + spec_spaces(p) + title
        + spec_spaces(rr) + "│\n"@ + "├──────────────────────────────────────────────────┤\n"@
        + spec_stat_rows(rows) + "└──────────────────────────────────────────────────┘"@
}

/// The widest visible line of a message box: the title or any message row.
pub open spec fn spec_max_msg_width(title: Seq<char>, rows: Seq<RowV>) -> nat
    decreases rows.len(),
{
    if rows.len() == 0 {
        display_width(title)
    } else {
        let prefix = spec_max_msg_width(title, rows.drop_last());
        match rows.last() {
            RowV::Message(l) => if display_width(l) > prefix {
                display_width(l)
            } else {
                prefix
            },
            RowV::Stat(_, _) => prefix,
        }
    }
}

/// One bordered line of a message box: the padded text aligned within the
/// inner width between two border characters.
pub open spec fn spec_msg_line(
    vch: char,
    pad: nat,
    text: Seq<char>,
    inner: nat,
    align: Align,
) -> Seq<char> {
    seq![vch] + spec_align_text(spec_spaces(pad) + text, inner, align) + seq![vch] + seq!['\n']
}

/// The message rows of a message box, rendered in order; statistic rows do
/// not appear there.
pub open spec fn spec_msg_rows(
    rows: Seq<RowV>,
    vch: char,
    pad: nat,
    inner: nat,
    align: Align,
) -> Seq<char>
    decreases rows.len(),
{
    if rows.len() == 0 {
        Seq::empty()
    } else {
        spec_msg_rows(rows.drop_last(), vch, pad, inner, align) + match rows.last() {
            RowV::Message(l) => spec_msg_line(vch, pad, l, inner, align),
            RowV::Stat(_, _) => Seq::<char>::empty(),
        }
    }
}

/// A message box: a border sized to the widest line plus the padding, the
/// title and each message line aligned within it.
pub open spec fn spec_message_box(
    title: Seq<char>,
    rows: Seq<RowV>,
    pad: nat,
    border: BorderStyle,
    align: Align,
) -> Seq<char> {
    let b = spec_border_chars(border);
    let inner = spec_sat_add(spec_max_msg_width(title, rows), spec_sat_add(pad, pad));
    seq![b.0] + spec_repeat_char(b.4, inner) + seq![b.1] + seq!['\n'] + spec_msg_line(
        b.5,
        pad,
        title,
        inner,
        align,
    ) + spec_msg_rows(rows, b.5, pad, inner, align) + seq![b.2] + spec_repeat_char(b.4, inner)
        + seq![b.3]
}

/// What `FormattedBox::render` produces: a stats box when any statistic
/// row was added, a message box otherwise.
pub open spec fn spec_render_box(title: Seq<char>, rows: Seq<RowV>, theme: BoxTheme) -> Seq<char> {
    if spec_has_stat(rows) {
        spec_stats_box(title, rows)
    } else {
        spec_message_box(title, rows, theme.padding as nat, theme.border, theme.align)
    }
}

/// FormattedBox creates aligned boxes with statistics or messages.
pub struct FormattedBox {
    pub title: String,
    pub rows: Vec<RowKind>,
    pub theme: BoxTheme,
}

impl FormattedBox {
    /// Creates a new FormattedBox with the specified title.
    pub fn new(title: &str) -> (r: FormattedBox)
        ensures
            r.title@ == title@,
            r.rows@ == Seq::<RowKind>::empty(),
            r.theme.padding == 2,
            r.theme.border is Sharp,
            r.theme.align is Center,
    {
        FormattedBox { title: String::from_str(title), rows: Vec::new(), theme: BoxTheme::default() }
    }

    /// Adds a label/value row to the box (builder pattern).
    pub fn row(self, label: &str, value: &str) -> (r: FormattedBox)
        ensures
            r.title == self.title,
            r.theme == self.theme,
            r.rows@.len() == self.rows@.len() + 1,
            rows_view(r.rows@) == rows_view(self.rows@).push(RowV::Stat(label@, value@)),
    {
        let mut rows = self.rows;
        rows.push(RowKind::Stat { label: String::from_str(label), value: String::from_str(value) });
        proof {
            assert(rows_view(rows@) =~= rows_view(rows@.drop_last()).push(row_view(rows@.last())));
            assert(rows@.drop_last() =~= self.rows@);
        }
        FormattedBox { title: self.title, rows, theme: self.theme }
    }

    /// Adds a message line to the box (builder pattern).
    pub fn message_line(self, line: &str) -> (r: FormattedBox)
        ensures
            r.title == self.title,
            r.theme == self.theme,
            r.rows@.len() == self.rows@.len() + 1,
            rows_view(r.rows@) == rows_view(self.rows@).push(RowV::Message(line@)),
    {
        let mut rows = self.rows;
        rows.push(RowKind::Message(String::from_str(line)));
        proof {
            assert(rows_view(rows@) =~= rows_view(rows@.drop_last()).push(row_view(rows@.last())));
            assert(rows@.drop_last() =~= self.rows@);
        }
        FormattedBox { title: self.title, rows, theme: self.theme }
    }

    /// Sets the theme (builder pattern).
    pub fn theme(self, theme: BoxTheme) -> (r: FormattedBox)
        ensures
            r.title == self.title,
            r.rows == self.rows,
            r.theme == theme,
    {
        FormattedBox { title: self.title, rows: self.rows, theme }
    }

    /// Sets the border style (builder pattern).
    pub fn border_style(self, style: BorderStyle) -> (r: FormattedBox)
        ensures
            r.title == self.title,
            r.rows == self.rows,
            r.theme.padding == self.theme.padding,
            r.theme.border == style,
            r.theme.align == self.theme.align,
    {
        FormattedBox {
            title: self.title,
            rows: self.rows,
            theme: BoxTheme { border: style, ..self.theme },
        }
    }

    /// Sets the padding (builder pattern).
    pub fn padding(self, pad: usize) -> (r: FormattedBox)
        ensures
            r.title == self.title,
            r.rows == self.rows,
            r.theme.padding == pad,
            r.theme.border == self.theme.border,
            r.theme.align == self.theme.align,
    {
        FormattedBox {
            title: self.title,
            rows: self.rows,
            theme: BoxTheme { padding: pad, ..self.theme },
        }
    }

    /// Sets the text alignment (builder pattern).
    pub fn align(self, align: Align) -> (r: FormattedBox)
        ensures
            r.title == self.title,
            r.rows == self.rows,
            r.theme.padding == self.theme.padding,
            r.theme.border == self.theme.border,
            r.theme.align == align,
    {
        FormattedBox {
            title: self.title,
            rows: self.rows,
            theme: BoxTheme { align, ..self.theme },
        }
    }

    fn has_stat_row(&self) -> (r: bool)
        ensures
            r == spec_has_stat(rows_view(self.rows@)),
    {
        let ghost v = rows_view(self.rows@);
        let mut i: usize = 0;
        while i < self.rows.len()
            invariant
                i <= self.rows@.len(),
                v == rows_view(self.rows@),
                v.len() == self.rows@.len(),
                forall|k: int| 0 <= k < i ==> !((#[trigger] v[k]) is Stat),
            decreases self.rows@.len() - i,
        {
            let is_stat = match &self.rows[i] {
                RowKind::Stat { .. } => true,
                RowKind::Message(_) => false,
            };
            if is_stat {
                proof {
                    assert(v[i as int] is Stat);
                }
                return true;
            }
            i = i + 1;
        }
        false
    }

    /// Renders the box as a formatted string: a stats box when any
    /// statistic row was added, a message box otherwise.
    pub fn render(&self) -> (r: String)
        ensures
            r@ == spec_render_box(self.title@, rows_view(self.rows@), self.theme),
    {
        if self.has_stat_row() {
            self.render_stats_box()
        } else {
            self.render_message_box()
        }
    }

    fn render_stats_box(&self) -> (r: String)
        ensures
            r@ == spec_stats_box(self.title@, rows_view(self.rows@)),
    {
        let ghost v = rows_view(self.rows@);
        let tw = str_width(self.title.as_str());
        let total: usize = 51;
        let p = total.saturating_sub(tw) / 2;
        let rr = total.saturating_sub(p).saturating_sub(tw).saturating_sub(1);
        let mut out = String::from_str("┌──────────────────────────────────────────────────┐\n");
        out.append("│");
        let lp = spaces(p);
        out.append(lp.as_str());
        out.append(self.title.as_str());
        let rp = spaces(rr);
        out.append(rp.as_str());
        out.append("│\n");
        out.append("├──────────────────────────────────────────────────┤\n");
        let ghost head = out@;
        let mut i: usize = 0;
        proof {
            assert(v.take(0) =~= Seq::<RowV>::empty());
        }
        while i < self.rows.len()
            invariant
                i <= self.rows@.len(),
                v == rows_view(self.rows@),
                v.len() == self.rows@.len(),
                out@ == head + spec_stat_rows(v.take(i as int)),
            decreases self.rows@.len() - i,
        {
            proof {
                assert(v.take(i as int + 1).drop_last() =~= v.take(i as int));
                assert(v.take(i as int + 1).last() == v[i as int]);
            }
            match &self.rows[i] {
                RowKind::Stat { label, value } => {
                    out.append("│  ");
                    let l = pad_left(label.as_str(), 18);
                    out.append(l.as_str());
                    out.append("  ");
                    let vv = pad_right(value.as_str(), 26);
                    out.append(vv.as_str());
                    out.append("  │\n");
                    proof {
                        assert(out@ =~= head + spec_stat_rows(v.take(i as int + 1)));
                    }
                },
                RowKind::Message(_) => {
                    proof {
                        assert(out@ =~= head + spec_stat_rows(v.take(i as int + 1)));
                    }
                },
            }
            i = i + 1;
        }
        proof {
            assert(v.take(v.len() as int) =~= v);
        }
        out.append("└──────────────────────────────────────────────────┘");
        proof {
            assert(out@ =~= spec_stats_box(self.title@, rows_view(self.rows@)));
        }
        out
    }

    fn render_message_box(&self) -> (r: String)
        ensures
            r@ == spec_message_box(
                self.title@,
                rows_view(self.rows@),
                self.theme.padding as nat,
                self.theme.border,
                self.theme.align,
            ),
    {
        let ghost v = rows_view(self.rows@);
        let b = border_chars(self.theme.border);
        let pad = self.theme.padding;
        let mut maxw = str_width(self.title.as_str());
        let mut i: usize = 0;
        proof {
            assert(v.take(0) =~= Seq::<RowV>::empty());
        }
        while i < self.rows.len()
            invariant
                i <= self.rows@.len(),
                v == rows_view(self.rows@),
                v.len() == self.rows@.len(),
                maxw as nat == spec_max_msg_width(self.title@, v.take(i as int)),
            decreases self.rows@.len() - i,
        {
            proof {
                assert(v.take(i as int + 1).drop_last() =~= v.take(i as int));
                assert(v.take(i as int + 1).last() == v[i as int]);
            }
            match &self.rows[i] {
                RowKind::Message(line) => {
                    let w = str_width(line.as_str());
                    if w > maxw {
                        maxw = w;
                    }
                },
                RowKind::Stat { .. } => {},
            }
            i = i + 1;
        }
        proof {
            assert(v.take(v.len() as int) =~= v);
        }
        let inner = maxw.saturating_add(pad.saturating_add(pad));
        let mut out = String::new();
        crate::strutil::push_char(&mut out, b.top_left);
        let hline = repeat_char(b.h, inner);
        out.append(hline.as_str());
        crate::strutil::push_char(&mut out, b.top_right);
        crate::strutil::push_char(&mut out, '\n');
        let tl = msg_line(b.v, pad, self.title.as_str(), inner, self.theme.align);
        out.append(tl.as_str());
        let ghost head = out@;
        let mut i: usize = 0;
        while i < self.rows.len()
            invariant
                i <= self.rows@.len(),
                v == rows_view(self.rows@),
                v.len() == self.rows@.len(),
                out@ == head + spec_msg_rows(
                    v.take(i as int),
                    b.v,
                    pad as nat,
                    inner as nat,
                    self.theme.align,
                ),
            decreases self.rows@.len() - i,
        {
            proof {
                assert(v.take(i as int + 1).drop_last() =~= v.take(i as int));
                assert(v.take(i as int + 1).last() == v[i as int]);
            }
            match &self.rows[i] {
                RowKind::Message(line) => {
                    let ml = msg_line(b.v, pad, line.as_str(), inner, self.theme.align);
                    out.append(ml.as_str());
                    proof {
                        assert(out@ =~= head + spec_msg_rows(
                            v.take(i as int + 1),
                            b.v,
                            pad as nat,
                            inner as nat,
                            self.theme.align,
                        ));
                    }
                },
                RowKind::Stat { .. } => {
                    proof {
                        assert(out@ =~= head + spec_msg_rows(
                            v.take(i as int + 1),
                            b.v,
                            pad as nat,
                            inner as nat,
                            self.theme.align,
                        ));
                    }
                },
            }
            i = i + 1;
        }
        proof {
            assert(v.take(v.len() as int) =~= v);
        }
        crate::strutil::push_char(&mut out, b.bottom_left);
        let hline2 = repeat_char(b.h, inner);
        out.append(hline2.as_str());
        crate::strutil::push_char(&mut out, b.bottom_right);
        proof {
            assert(out@ =~= spec_message_box(
                self.title@,
                rows_view(self.rows@),
                self.theme.padding as nat,
                self.theme.border,
                self.theme.align,
            ));
        }
        out
    }
}

/// Renders one bordered line of a message box.
fn msg_line(vch: char, pad: usize, text: &str, inner: usize, align: Align) -> (r: String)
    ensures
        r@ == spec_msg_line(vch, pad as nat, text@, inner as nat, align),
{
    let mut content = spaces(pad);
    content.append(text);
    let aligned = align_text(content.as_str(), inner, align);
    let mut out = String::new();
    crate::strutil::push_char(&mut out, vch);
    out.append(aligned.as_str());
    crate::strutil::push_char(&mut out, vch);
    crate::strutil::push_char(&mut out, '\n');
    proof {
        assert(out@ =~= spec_msg_line(vch, pad as nat, text@, inner as nat, align));
    }
    out
}

} // verus!
