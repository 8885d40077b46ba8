use vstd::prelude::*;
use vstd::string::StringExecFns;

use crate::strutil::spec_repeat_char;
use crate::table::{
    spec_sat_sub, spec_spaces, spec_stats_box, FormattedBox, RowV,
};
use crate::utils::{format_bytes, format_number, spec_format_bytes, spec_format_number};

verus! {

/// ConfigFormatter handles formatting of configuration settings display.
pub struct ConfigFormatter;

impl ConfigFormatter {
    /// Formats a section header with icon and title, underlined across the
    /// display's box width.
    pub fn format_section_header(title: &str, icon: &str) -> (r: String)
        ensures
            r@ == "\n"@ + icon@ + " "@ + title@ + "\n"@ + spec_repeat_char('─', 55),
    {
        let mut s = String::from_str("\n");
        s.append(icon);
        s.append(" ");
        s.append(title);
        s.append("\n");
        let line = crate::strutil::repeat_char('─', 55);
        s.append(line.as_str());
        s
    }

    /// Formats a configuration line: icon, the label padded to the label
    /// column, and the value.
    pub fn format_config_line(icon: &str, label: &str, value: &str) -> (r: String)
        ensures
            r@ == "  "@ + icon@ + " "@ + label@ + spec_spaces(spec_sat_sub(18, label@.len()))
                + " "@ + value@,
    {
        let mut s = String::from_str("  ");
        s.append(icon);
        s.append(" ");
        s.append(label);
        let ll = label.unicode_len();
        let pad = crate::strutil::repeat_char(' ', if ll < 18 {
            18 - ll
        } else {
            0
        });
        s.append(pad.as_str());
        s.append(" ");
        s.append(value);
        s
    }

    /// Formats a path for display: its canonical form when the filesystem
    /// resolves it, the path as given otherwise.
    pub fn format_path(path: &str) -> String {
        Self::canonical_or_input(canonicalize_path(path), path)
    }

    /// Picks the displayed form of a path from the outcome of a
    /// canonicalization probe: the resolved form when there is one, the
    /// input otherwise.
    pub fn canonical_or_input(canonical: Option<String>, path: &str) -> (r: String)
        ensures
            canonical matches Some(p) ==> r@ == p@,
            canonical is None ==> r@ == path@,
    {
        match canonical {
            Some(p) => p,
            None => String::from_str(path),
        }
    }

    /// Formats a boolean value with its symbol.
    pub fn format_bool(val: bool) -> (r: String)
        ensures
            val ==> r@ == "✓ Yes"@,
            !val ==> r@ == "✗ No"@,
    {
        if val {
            String::from_str("✓ Yes")
        } else {
            String::from_str("✗ No")
        }
    }

    /// Formats a list item with icon and text.
    pub fn format_list_item(icon: &str, text: &str) -> (r: String)
        ensures
            r@ == "  "@ + icon@ + " "@ + text@,
    {
        let mut s = String::from_str("  ");
        s.append(icon);
        s.append(" ");
        s.append(text);
        s
    }
}

/// Relies on std::path's Path::canonicalize: asks the filesystem for the
/// absolute, resolved form of the path. The answer depends on the state of
/// the disk; a path that cannot be resolved gives nothing.
#[verifier::external_body]
fn canonicalize_path(path: &str) -> Option<String> {
    match std::path::Path::new(path).canonicalize() {
        Ok(p) => Some(p.to_string_lossy().into_owned()),
        Err(_) => None,
    }
}

/// StatsBox displays content statistics in a formatted box.
pub struct StatsBox {
    pub lines: usize,
    pub chars: usize,
    pub words: usize,
    pub bytes: usize,
}

impl StatsBox {
    /// Creates a new StatsBox with the specified statistics.
    pub fn new(lines: usize, chars: usize, words: usize, bytes: usize) -> (r: StatsBox)
        ensures
            r.lines == lines,
            r.chars == chars,
            r.words == words,
            r.bytes == bytes,
    {
        StatsBox { lines, chars, words, bytes }
    }

    /// The four statistic rows of the box, in display order.
    pub open spec fn spec_rows(&self) -> Seq<RowV> {
        seq![
            RowV::Stat("📝 Characters:"@, spec_format_number(self.chars as int)),
            RowV::Stat("📄 Lines:"@, spec_format_number(self.lines as int)),
            RowV::Stat("💬 Words:"@, spec_format_number(self.words as int)),
            RowV::Stat("💾 Size:"@, spec_format_bytes(self.bytes as nat)),
        ]
    }

    /// Renders the statistics box as a formatted string.
    pub fn render(&self) -> (r: String)
        requires
            self.chars <= i64::MAX,
            self.lines <= i64::MAX,
            self.words <= i64::MAX,
        ensures
            r@ == spec_stats_box("Content Statistics"@, self.spec_rows()),
    {
        let chars = format_number(self.chars as i64);
        let lines = format_number(self.lines as i64);
        let words = format_number(self.words as i64);
        let size = format_bytes(self.bytes);
        let b = FormattedBox::new("Content Statistics")
            .row("📝 Characters:", chars.as_str())
            .row("📄 Lines:", lines.as_str())
            .row("💬 Words:", words.as_str())
            .row("💾 Size:", size.as_str());
        proof {
            assert(crate::table::rows_view(b.rows@) =~= self.spec_rows());
            assert(self.spec_rows()[0] is Stat);
            assert(crate::table::spec_has_stat(self.spec_rows()));
        }
        b.render()
    }

    /// Returns an emoji and message chosen by the content's size class.
    pub fn get_size_message(&self) -> (r: (String, String))
        ensures
            self.bytes < 1024 ==> r.0@ == "🐣"@ && r.1@ == "Tiny but mighty!"@,
            1024 <= self.bytes < 102400 ==> r.0@ == "🐇"@ && r.1@
                == "Perfect size! Easy to handle~"@,
            102400 <= self.bytes < 1048576 ==> r.0@ == "🐘"@ && r.1@
                == "That's a big one! Impressive~"@,
            self.bytes >= 1048576 ==> r.0@ == "🐋"@ && r.1@
                == "Whoa! You've got a whale of content!"@,
    {
        if self.bytes < 1024 {
            (String::from_str("🐣"), String::from_str("Tiny but mighty!"))
        } else if self.bytes < 102400 {
            (String::from_str("🐇"), String::from_str("Perfect size! Easy to handle~"))
        } else if self.bytes < 1048576 {
            (String::from_str("🐘"), String::from_str("That's a big one! Impressive~"))
        } else {
            (String::from_str("🐋"), String::from_str("Whoa! You've got a whale of content!"))
        }
    }
}

} // verus!
