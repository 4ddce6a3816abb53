//! The rendering of a recap: a box-drawn table of the counts, with columns
//! sized by what a terminal shows, followed by the details of the items that
//! failed or panicked, as far as the harness's caps allow.

use vstd::prelude::*;
use vstd::string::*;
use crate::ansi::{terminal_str_len, visible_width, COLOR_GREEN, COLOR_RED, COLOR_RESET};
use crate::harness::{HarnessView, KrarkHarness};
use crate::recap::{KrarkRecap, RecapView};
use crate::result::{
    FailedResult,
    FailedTc,
    FailedTcView,
    FailedView,
    PanickedResult,
    PanickedView,
};
use crate::text::{
    decimal,
    decimal_text,
    lemma_percent_of_nothing,
    percent,
    percent_text,
    push_repeated,
    repeated,
};

verus! {

/// A column of a line: its content, and the glyph that ends it.
pub type Column = (Seq<char>, Seq<char>);

/// The contents and end glyphs of the columns of a line, as texts.
pub open spec fn column_texts(columns: Seq<(&str, &str)>) -> Seq<Column> {
    columns.map_values(|c: (&str, &str)| (c.0@, c.1@))
}

/// The widths of the columns of a table.
pub open spec fn widths(column_sizes: Seq<usize>) -> Seq<nat> {
    column_sizes.map_values(|size: usize| size as nat)
}

/// The first `count` columns of a separator line: in each, the rule
/// glyph over the width of the column, then the end glyph.
pub open spec fn separator_cells(columns: Seq<Column>, sizes: Seq<nat>, count: nat) -> Seq<char>
    decreases count,
{
    if count == 0 {
        Seq::empty()
    } else {
        let last = (count - 1) as int;
        separator_cells(columns, sizes, (count - 1) as nat) + repeated(
            columns[last].0,
            sizes[last],
        ) + columns[last].1
    }
}

/// A separator line: the corner glyph, the columns, and a line feed.
pub open spec fn separator_line(first: Seq<char>, columns: Seq<Column>, sizes: Seq<nat>) -> Seq<
    char,
> {
    first + separator_cells(columns, sizes, columns.len()) + "\n"@
}

/// The number of blanks that fill a column after `value`: what the width
/// of the column exceeds the visible width of the value by.
pub open spec fn padding(value: Seq<char>, size: nat) -> nat {
    if visible_width(value) < size {
        (size - visible_width(value)) as nat
    } else {
        0
    }
}

/// The first `count` columns of a result line: in each, the value,
/// blanks up to the width of the column, then the end glyph.
pub open spec fn result_cells(columns: Seq<Column>, sizes: Seq<nat>, count: nat) -> Seq<char>
    decreases count,
{
    if count == 0 {
        Seq::empty()
    } else {
        let last = (count - 1) as int;
        result_cells(columns, sizes, (count - 1) as nat) + columns[last].0 + repeated(
            " "@,
            padding(columns[last].0, sizes[last]),
        ) + columns[last].1
    }
}

/// A result line: the border glyph, the columns, and a line feed.
pub open spec fn result_line(first: Seq<char>, columns: Seq<Column>, sizes: Seq<nat>) -> Seq<char> {
    first + result_cells(columns, sizes, columns.len()) + "\n"@
}

/// Writes the lines of a table of `N` columns of fixed widths to a text.
pub struct TableDisplay<'out, const N: usize> {
    pub output: &'out mut String,
    pub column_sizes: [usize; N],
}

impl<'out, const N: usize> TableDisplay<'out, N> {
    /// A table that appends its lines to `output`.
    pub fn new(output: &'out mut String, column_sizes: [usize; N]) -> (r: Self)
        ensures
            *r.output == *old(output),
            *final(r.output) == *final(output),
            r.column_sizes == column_sizes,
    {
        TableDisplay { output, column_sizes }
    }

    /// Appends a separator line: `first`, then for each column its rule
    /// glyph repeated over the column's width and its end glyph, then a line feed.
    pub fn separator_line(&mut self, first: &str, columns: &[(&str, &str); N])
        ensures
            final(self).output@ == old(self).output@ + separator_line(
                first@,
                column_texts(columns@),
                widths(old(self).column_sizes@),
            ),
            *final(final(self).output) == *final(old(self).output),
            final(self).column_sizes == old(self).column_sizes,
    {
        let ghost start = self.output@;
        let ghost cols = column_texts(columns@);
        let ghost sizes = widths(self.column_sizes@);
        self.output.append(first);
        assert(self.output@ =~= start + first@ + separator_cells(cols, sizes, 0));
        for i in 0..N
            invariant
                self.output@ == start + first@ + separator_cells(cols, sizes, i as nat),
                cols == column_texts(columns@),
                sizes == widths(self.column_sizes@),
                self.column_sizes == old(self).column_sizes,
                *final(self.output) == *final(old(self).output),
        {
            let (column_line, column_end) = columns[i];
            let size: usize = self.column_sizes[i];
            push_repeated(self.output, column_line, size);
            self.output.append(column_end);
            assert(self.output@ =~= start + first@ + separator_cells(cols, sizes, (i + 1) as nat));
        }
        self.output.append("\n");
        assert(self.output@ =~= start + separator_line(first@, cols, sizes));
    }

    /// Appends a result line: `first`, then for each column its value,
    /// blanks up to the column's width and its end glyph, then a line feed.
    /// A value wider than its column is written whole.
    pub fn result_line(&mut self, first: &str, columns: &[(&str, &str); N])
        ensures
            final(self).output@ == old(self).output@ + result_line(
                first@,
                column_texts(columns@),
                widths(old(self).column_sizes@),
            ),
            *final(final(self).output) == *final(old(self).output),
            final(self).column_sizes == old(self).column_sizes,
    {
        let ghost start = self.output@;
        let ghost cols = column_texts(columns@);
        let ghost sizes = widths(self.column_sizes@);
        self.output.append(first);
        assert(self.output@ =~= start + first@ + result_cells(cols, sizes, 0));
        for i in 0..N
            invariant
                self.output@ == start + first@ + result_cells(cols, sizes, i as nat),
                cols == column_texts(columns@),
                sizes == widths(self.column_sizes@),
                self.column_sizes == old(self).column_sizes,
                *final(self.output) == *final(old(self).output),
        {
            let (column_value, end_sep) = columns[i];
            let size: usize = self.column_sizes[i];
            self.output.append(column_value);
            let width = terminal_str_len(column_value);
            let blanks: usize = if width < size {
                size - width
            } else {
                0
            };
            push_repeated(self.output, " ", blanks);
            self.output.append(end_sep);
            assert(self.output@ =~= start + first@ + result_cells(cols, sizes, (i + 1) as nat));
        }
        self.output.append("\n");
        assert(self.output@ =~= start + result_line(first@, cols, sizes));
    }
}

/// A row of the recap table: its label and its value.
pub type Row = (Seq<char>, Seq<char>);

/// The colour that a value starts with: green for a healthy count, red
/// for any other, nothing where the recap is not coloured.
pub open spec fn tone(healthy: bool, colored: bool) -> Seq<char> {
    if !colored {
        ""@
    } else if healthy {
        COLOR_GREEN@
    } else {
        COLOR_RED@
    }
}

/// The escape sequence that ends a colour, or nothing where the recap is
/// not coloured.
pub open spec fn reset(colored: bool) -> Seq<char> {
    if colored {
        COLOR_RESET@
    } else {
        ""@
    }
}

/// The value of a row that counts a share of the results: the count and,
/// in brackets, its percentage of the total, such as `1 (33.3%)`.
pub open spec fn share_value(count: nat, total: nat, healthy: bool, colored: bool) -> Seq<char> {
    tone(healthy, colored) + decimal(count) + " ("@ + percent(count, total) + "%)"@ + reset(colored)
}

/// The value of the row of the total.
pub open spec fn total_value(total: nat, colored: bool) -> Seq<char> {
    reset(colored) + decimal(total) + reset(colored)
}

/// The four rows of the recap table. The passed row is healthy when
/// everything passed, the failed and the panicked row when they count nothing.
pub open spec fn recap_rows(recap: RecapView, colored: bool) -> Seq<Row> {
    let total = recap.total();
    seq![
        ("Passed"@, share_value(recap.passed.len(), total, recap.passed.len() == total, colored)),
        ("Failed"@, share_value(recap.failed.len(), total, recap.failed.len() == 0, colored)),
        (
            "Panicked"@,
            share_value(recap.panicked.len(), total, recap.panicked.len() == 0, colored),
        ),
        ("Total"@, total_value(total, colored)),
    ]
}

/// The labels of rows, in order.
pub open spec fn labels(rows: Seq<Row>) -> Seq<Seq<char>> {
    rows.map_values(|row: Row| row.0)
}

/// The values of rows, in order.
pub open spec fn values(rows: Seq<Row>) -> Seq<Seq<char>> {
    rows.map_values(|row: Row| row.1)
}

/// The largest visible width among `texts`, zero if there are none.
pub open spec fn max_width(texts: Seq<Seq<char>>) -> nat
    decreases texts.len(),
{
    if texts.len() == 0 {
        0
    } else {
        let before = max_width(texts.drop_last());
        let last = visible_width(texts.last());
        if last > before {
            last
        } else {
            before
        }
    }
}

/// The widths of the two columns of the recap table: the first holds
/// every label and the title, the second every value.
pub open spec fn table_widths(title: Seq<char>, rows: Seq<Row>) -> Seq<nat> {
    seq![max_width(labels(rows).push(title)), max_width(values(rows))]
}

/// The first `count` rows of the table, a light rule after each row but
/// the last of the table.
pub open spec fn rows_text(rows: Seq<Row>, sizes: Seq<nat>, count: nat) -> Seq<char>
    decreases count,
{
    if count == 0 {
        Seq::empty()
    } else {
        let last = (count - 1) as int;
        rows_text(rows, sizes, (count - 1) as nat) + result_line(
            "┃"@,
            seq![(rows[last].0, "│"@), (rows[last].1, "┃"@)],
            sizes,
        ) + if last < rows.len() - 1 {
            separator_line("┠"@, seq![("─"@, "┼"@), ("─"@, "┨"@)], sizes)
        } else {
            Seq::empty()
        }
    }
}

/// The table: a heavy frame, the title over both columns, a heavy rule,
/// and the rows with light rules between them.
pub open spec fn table_text(title: Seq<char>, rows: Seq<Row>, sizes: Seq<nat>) -> Seq<char> {
    separator_line("┏"@, seq![("━"@, "━"@), ("━"@, "┓"@)], sizes) + result_line(
        "┃"@,
        seq![(title, " "@), (""@, "┃"@)],
        sizes,
    ) + separator_line("┣"@, seq![("━"@, "┯"@), ("━"@, "┫"@)], sizes) + rows_text(
        rows,
        sizes,
        rows.len(),
    ) + separator_line("┗"@, seq![("━"@, "┷"@), ("━"@, "┛"@)], sizes)
}

/// How many of `len` items are listed under a cap of `cap`.
pub open spec fn shown(len: nat, cap: nat) -> nat {
    if len < cap {
        len
    } else {
        cap
    }
}

/// The line that says how many items are not listed, if any is not.
pub open spec fn omitted_line(omitted: nat) -> Seq<char> {
    if omitted == 0 {
        Seq::empty()
    } else {
        "  ... and "@ + decimal(omitted) + " more\n"@
    }
}

/// A line each for the first `count` failed checks of an item.
pub open spec fn failure_lines(failed: Seq<FailedTcView>, count: nat) -> Seq<char>
    decreases count,
{
    if count == 0 {
        Seq::empty()
    } else {
        let last = (count - 1) as int;
        failure_lines(failed, (count - 1) as nat) + "    "@ + failed[last].check_name + ": "@
            + failed[last].failure + "\n"@
    }
}

/// The name of a failed item and, below it, its failed checks.
pub open spec fn failed_item(item: FailedView) -> Seq<char> {
    "  "@ + item.card_name + "\n"@ + failure_lines(item.failed, item.failed.len())
}

/// The first `count` failed items.
pub open spec fn failed_items(items: Seq<FailedView>, count: nat) -> Seq<char>
    decreases count,
{
    if count == 0 {
        Seq::empty()
    } else {
        failed_items(items, (count - 1) as nat) + failed_item(items[count - 1])
    }
}

/// The details of the failed items: nothing if none failed, else a
/// heading, the first `cap` items, and the number of those left out.
pub open spec fn failed_details(items: Seq<FailedView>, cap: nat) -> Seq<char> {
    if items.len() == 0 {
        Seq::empty()
    } else {
        "Failed:\n"@ + failed_items(items, shown(items.len(), cap)) + omitted_line(
            (items.len() - shown(items.len(), cap)) as nat,
        )
    }
}

/// The name and the trace of a panicked item.
pub open spec fn panicked_item(item: PanickedView) -> Seq<char> {
    "  "@ + item.card_name + ": "@ + item.trace + "\n"@
}

/// The first `count` panicked items.
pub open spec fn panicked_items(items: Seq<PanickedView>, count: nat) -> Seq<char>
    decreases count,
{
    if count == 0 {
        Seq::empty()
    } else {
        panicked_items(items, (count - 1) as nat) + panicked_item(items[count - 1])
    }
}

/// The details of the panicked items: nothing if none panicked, else a
/// heading, the first `cap` items, and the number of those left out.
pub open spec fn panicked_details(items: Seq<PanickedView>, cap: nat) -> Seq<char> {
    if items.len() == 0 {
        Seq::empty()
    } else {
        "Panicked:\n"@ + panicked_items(items, shown(items.len(), cap)) + omitted_line(
            (items.len() - shown(items.len(), cap)) as nat,
        )
    }
}

/// The whole rendering of a recap for a harness.
pub open spec fn recap_text(harness: HarnessView, recap: RecapView) -> Seq<char> {
    let rows = recap_rows(recap, harness.colored());
    table_text(harness.name, rows, table_widths(harness.name, rows)) + failed_details(
        recap.failed,
        harness.max_failed_shown,
    ) + panicked_details(recap.panicked, harness.max_panicked_shown)
}

/// The recap of a run that checked nothing shows `0 (0.0%)` in each of
/// the three rows of shares, and `0` as the total.
pub proof fn lemma_empty_recap_rows(colored: bool)
    ensures
        forall|i: int|
            0 <= i < 3 ==> (#[trigger] recap_rows(RecapView::empty(), colored)[i]).1 == tone(
                true,
                colored,
            ) + seq!['0'] + " ("@ + seq!['0', '.', '0'] + "%)"@ + reset(colored),
        recap_rows(RecapView::empty(), colored)[3].1 == reset(colored) + seq!['0'] + reset(
            colored,
        ),
{
    lemma_percent_of_nothing(0);
    assert(decimal(0) =~= seq!['0']);
}

/// Two columns, as the lines of the recap table take them.
fn two_columns<'a>(left: (&'a str, &'a str), right: (&'a str, &'a str)) -> (r: [(&'a str, &'a str); 2])
    ensures
        column_texts(r@) == seq![(left.0@, left.1@), (right.0@, right.1@)],
{
    let r = [left, right];
    assert(column_texts(r@) =~= seq![(left.0@, left.1@), (right.0@, right.1@)]);
    r
}

/// The value of a row that counts a share of the results; see [`share_value`].
fn share_text(color: &str, count: usize, total: u128, color_reset: &str) -> (r: String)
    ensures
        r@ == color@ + decimal(count as nat) + " ("@ + percent(count as nat, total as nat) + "%)"@
            + color_reset@,
{
    let mut r = String::from_str(color);
    r.append(decimal_text(count as u128).as_str());
    r.append(" (");
    r.append(percent_text(count, total).as_str());
    r.append("%)");
    r.append(color_reset);
    r
}

/// Appends the line that says how many items are not listed, if any is not.
fn push_omitted_line(out: &mut String, omitted: usize)
    ensures
        final(out)@ == old(out)@ + omitted_line(omitted as nat),
{
    if omitted > 0 {
        out.append("  ... and ");
        out.append(decimal_text(omitted as u128).as_str());
        out.append(" more\n");
    }
    assert(out@ =~= old(out)@ + omitted_line(omitted as nat));
}

/// Appends the name of a failed item and its failed checks.
fn push_failed_item(out: &mut String, item: &FailedResult)
    ensures
        final(out)@ == old(out)@ + failed_item(item@),
{
    let ghost start = out@;
    let ghost head = "  "@ + item@.card_name + "\n"@;
    out.append("  ");
    out.append(item.card_name);
    out.append("\n");
    assert(out@ =~= start + head + failure_lines(item@.failed, 0));
    for j in 0..item.failed.len()
        invariant
            out@ == start + head + failure_lines(item@.failed, j as nat),
    {
        let entry: &FailedTc = &item.failed[j];
        out.append("    ");
        out.append(entry.check_name.as_str());
        out.append(": ");
        out.append(entry.failure.as_str());
        out.append("\n");
        assert(item@.failed[j as int] == entry@);
        assert(out@ =~= start + head + failure_lines(item@.failed, (j + 1) as nat));
    }
    assert(out@ =~= start + failed_item(item@));
}

/// Appends the details of the failed items, at most `cap` of them.
fn push_failed_details(out: &mut String, failed: &Vec<FailedResult>, cap: usize)
    ensures
        final(out)@ == old(out)@ + failed_details(
            failed@.map_values(|f: FailedResult| f@),
            cap as nat,
        ),
{
    let ghost start = out@;
    let ghost items = failed@.map_values(|f: FailedResult| f@);
    if failed.len() > 0 {
        let listed: usize = if failed.len() < cap {
            failed.len()
        } else {
            cap
        };
        out.append("Failed:\n");
        assert(out@ =~= start + "Failed:\n"@ + failed_items(items, 0));
        for i in 0..listed
            invariant
                listed <= failed.len(),
                items == failed@.map_values(|f: FailedResult| f@),
                out@ == start + "Failed:\n"@ + failed_items(items, i as nat),
        {
            push_failed_item(out, &failed[i]);
            assert(items[i as int] == failed[i as int]@);
            assert(out@ =~= start + "Failed:\n"@ + failed_items(items, (i + 1) as nat));
        }
        push_omitted_line(out, failed.len() - listed);
        assert(out@ =~= start + failed_details(items, cap as nat));
    } else {
        assert(out@ =~= start + failed_details(items, cap as nat));
    }
}

/// Appends the details of the panicked items, at most `cap` of them.
fn push_panicked_details(out: &mut String, panicked: &Vec<PanickedResult>, cap: usize)
    ensures
        final(out)@ == old(out)@ + panicked_details(
            panicked@.map_values(|c: PanickedResult| c@),
            cap as nat,
        ),
{
    let ghost start = out@;
    let ghost items = panicked@.map_values(|c: PanickedResult| c@);
    if panicked.len() > 0 {
        let listed: usize = if panicked.len() < cap {
            panicked.len()
        } else {
            cap
        };
        out.append("Panicked:\n");
        assert(out@ =~= start + "Panicked:\n"@ + panicked_items(items, 0));
        for i in 0..listed
            invariant
                listed <= panicked.len(),
                items == panicked@.map_values(|c: PanickedResult| c@),
                out@ == start + "Panicked:\n"@ + panicked_items(items, i as nat),
        {
            let item: &PanickedResult = &panicked[i];
            out.append("  ");
            out.append(item.card_name);
            out.append(": ");
            out.append(item.trace.as_str());
            out.append("\n");
            assert(items[i as int] == item@);
            assert(out@ =~= start + "Panicked:\n"@ + panicked_items(items, (i + 1) as nat));
        }
        push_omitted_line(out, panicked.len() - listed);
        assert(out@ =~= start + panicked_details(items, cap as nat));
    } else {
        assert(out@ =~= start + panicked_details(items, cap as nat));
    }
}

/// The value of the row of the total; see [`total_value`].
fn total_text(color: &str, total: u128, color_reset: &str) -> (r: String)
    ensures
        r@ == color@ + decimal(total as nat) + color_reset@,
{
    let mut r = String::from_str(color);
    r.append(decimal_text(total).as_str());
    r.append(color_reset);
    r
}

/// Renders the recap of a run for `harness`: the table of the counts of
/// passed, failed and panicked items and of their total, then the details
/// of the failed and of the panicked items, as far as the harness's caps allow.
/// The text is coloured as the harness's options say.
pub fn output_recap(harness: &KrarkHarness, recap: &KrarkRecap) -> (text: String)
    ensures
        text@ == recap_text(harness@, recap@),
{
    let color: bool = harness.use_color();

    let (color_green, color_red, color_reset) = if color {
        (COLOR_GREEN, COLOR_RED, COLOR_RESET)
    } else {
        ("", "", "")
    };

    let passed = recap.passed.len();
    let failed = recap.failed.len();
    let panicked = recap.panicked.len();
    let total = recap.total();

    let color_passed = if passed as u128 == total {
        color_green
    } else {
        color_red
    };
    let color_failed = if failed == 0 {
        color_green
    } else {
        color_red
    };
    let color_panicked = if panicked == 0 {
        color_green
    } else {
        color_red
    };
    let color_total = color_reset;

    let lines: [(&str, String); 4] = [
        ("Passed", share_text(color_passed, passed, total, color_reset)),
        ("Failed", share_text(color_failed, failed, total, color_reset)),
        ("Panicked", share_text(color_panicked, panicked, total, color_reset)),
        ("Total", total_text(color_total, total, color_reset)),
    ];
    let ghost title = harness@.name;
    let ghost rows = recap_rows(recap@, color);
    assert(rows.len() == 4);
    assert(forall|i: int| 0 <= i < 4 ==> lines@[i].0@ == rows[i].0 && lines@[i].1@ == rows[i].1);

    let mut status_column_width: usize = 0;
    assert(labels(rows).take(0) =~= Seq::empty());
    for i in 0..4
        invariant
            rows.len() == 4,
            forall|k: int| 0 <= k < 4 ==> lines@[k].0@ == rows[k].0,
            status_column_width == max_width(labels(rows).take(i as int)),
    {
        let width = terminal_str_len(lines[i].0);
        assert(labels(rows).take(i + 1).drop_last() =~= labels(rows).take(i as int));
        if width > status_column_width {
            status_column_width = width;
        }
    }
    let title_width = terminal_str_len(harness.name());
    assert(labels(rows).take(4) =~= labels(rows));
    assert(labels(rows).push(title).drop_last() =~= labels(rows));
    if title_width > status_column_width {
        status_column_width = title_width;
    }

    let mut result_column_width: usize = 0;
    assert(values(rows).take(0) =~= Seq::empty());
    for i in 0..4
        invariant
            rows.len() == 4,
            forall|k: int| 0 <= k < 4 ==> lines@[k].1@ == rows[k].1,
            result_column_width == max_width(values(rows).take(i as int)),
    {
        let width = terminal_str_len(lines[i].1.as_str());
        assert(values(rows).take(i + 1).drop_last() =~= values(rows).take(i as int));
        if width > result_column_width {
            result_column_width = width;
        }
    }
    assert(values(rows).take(4) =~= values(rows));

    let ghost sizes = table_widths(title, rows);
    let column_sizes = [status_column_width, result_column_width];
    assert(widths(column_sizes@) =~= sizes);

    let mut output = String::new();
    let mut table_display = TableDisplay::new(&mut output, column_sizes);

    table_display.separator_line("┏", &two_columns(("━", "━"), ("━", "┓")));
    table_display.result_line("┃", &two_columns((harness.name(), " "), ("", "┃")));
    table_display.separator_line("┣", &two_columns(("━", "┯"), ("━", "┫")));
    let ghost head = table_display.output@;
    assert(head =~= separator_line("┏"@, seq![("━"@, "━"@), ("━"@, "┓"@)], sizes) + result_line(
        "┃"@,
        seq![(title, " "@), (""@, "┃"@)],
        sizes,
    ) + separator_line("┣"@, seq![("━"@, "┯"@), ("━"@, "┫"@)], sizes));
    assert(table_display.output@ =~= head + rows_text(rows, sizes, 0));
    for i in 0..4
        invariant
            rows.len() == 4,
            forall|k: int| 0 <= k < 4 ==> lines@[k].0@ == rows[k].0 && lines@[k].1@ == rows[k].1,
            widths(table_display.column_sizes@) == sizes,
            table_display.output@ == head + rows_text(rows, sizes, i as nat),
            after_borrow(output) == *final(table_display.output),
    {
        let (status, result) = (lines[i].0, lines[i].1.as_str());
        table_display.result_line("┃", &two_columns((status, "│"), (result, "┃")));
        if i < 4 - 1 {
            table_display.separator_line("┠", &two_columns(("─", "┼"), ("─", "┨")));
        }
        assert(table_display.output@ =~= head + rows_text(rows, sizes, (i + 1) as nat));
    }
    table_display.separator_line("┗", &two_columns(("━", "┷"), ("━", "┛")));
    assert(output@ =~= table_text(title, rows, sizes));

    push_failed_details(&mut output, &recap.failed, harness.max_failed_shown());
    push_panicked_details(&mut output, &recap.panicked, harness.max_panicked_shown());
    output
}

} // verus!
