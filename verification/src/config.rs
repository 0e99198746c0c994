//! The resolved configuration the engine consumes: a config-file path, a
//! debug mode, and the registry root under which snapshots live.

use vstd::prelude::*;
use vstd::string::StrSliceExecFns;
use vstd::string::StringExecFns;

use crate::text::find_char;
use crate::text::find_char_str;
use crate::text::lemma_find_char_characterization;
use crate::text::split_lines;
use crate::text::split_lines_str;
use crate::text::str_seq_views;
use crate::text::trim_spec;
use crate::text::trim_str;
use crate::text::eq_str;

verus! {

/// The process-wide configuration, handed to the engine fully resolved.
#[derive(Debug, PartialEq)]
pub struct Config {
    pub config_file_path: String,
    pub debug_mode: String,
    pub snapshots_path: String,
}

/// The failure of reading a `Config` back from its display form.
#[derive(Debug, PartialEq, Eq)]
pub struct ParseConfigError;

impl Config {
    /// The configuration used when no config file names another, rooted in
    /// the given home directory.
    pub fn default_with_home(home: &str) -> (r: Config)
        ensures
            r.config_file_path@ == home@ + "/.config/setuprs/setuprs.toml"@,
            r.debug_mode@ == "error"@,
            r.snapshots_path@ == home@ + "/.config/setuprs/snapshots/"@,
    {
        let mut config_file_path = home.to_owned();
        config_file_path.append("/.config/setuprs/setuprs.toml");
        let mut snapshots_path = home.to_owned();
        snapshots_path.append("/.config/setuprs/snapshots/");
        Config {
            config_file_path,
            debug_mode: "error".to_owned(),
            snapshots_path,
        }
    }

    /// The text written into a fresh config file for this configuration.
    pub fn file_content(&self) -> (r: String)
        ensures
            r@ == "config_file_path = '"@ + self.config_file_path@ + "'\ndebug_mode = '"@
                + self.debug_mode@ + "'\nsnapshots_path = '"@ + self.snapshots_path@ + "'"@,
    {
        let mut r = "config_file_path = '".to_owned();
        r.append(self.config_file_path.as_str());
        r.append("'\ndebug_mode = '");
        r.append(self.debug_mode.as_str());
        r.append("'\nsnapshots_path = '");
        r.append(self.snapshots_path.as_str());
        r.append("'");
        r
    }

    /// The display form of this configuration, as the command line prints it.
    pub fn display_text(&self) -> (r: String)
        ensures
            r@ == "\n----------------------\nCONFIG\n----------------------\nConfig file path: "@
                + self.config_file_path@ + "\nSnapshots path: "@ + self.snapshots_path@
                + "\nDebug mode: "@ + self.debug_mode@ + "\n----------------------"@,
    {
        let mut r = "\n----------------------\nCONFIG\n----------------------\nConfig file path: "
            .to_owned();
        r.append(self.config_file_path.as_str());
        r.append("\nSnapshots path: ");
        r.append(self.snapshots_path.as_str());
        r.append("\nDebug mode: ");
        r.append(self.debug_mode.as_str());
        r.append("\n----------------------");
        r
    }
}

/// The key and value of a display line: a line with exactly one colon is
/// split there, both sides trimmed; any other line carries no field.
pub open spec fn line_entry(line: Seq<char>) -> Option<(Seq<char>, Seq<char>)> {
    match find_char(line, ':') {
        None => None,
        Some(i) => match find_char(line.skip(i + 1), ':') {
            Some(_) => None,
            None => Some((trim_spec(line.take(i)), trim_spec(line.skip(i + 1)))),
        },
    }
}

/// The value of the field named `key` among `lines`; a later line overwrites
/// an earlier one.
pub open spec fn scan_field(lines: Seq<Seq<char>>, key: Seq<char>) -> Option<Seq<char>>
    decreases lines.len(),
{
    if lines.len() == 0 {
        None
    } else {
        match line_entry(lines.last()) {
            Some(kv) => if kv.0 == key {
                Some(kv.1)
            } else {
                scan_field(lines.drop_last(), key)
            },
            None => scan_field(lines.drop_last(), key),
        }
    }
}

/// The three configuration fields that the display form of a `Config`
/// carries, when all three are present.
pub open spec fn display_fields(s: Seq<char>) -> Option<(Seq<char>, Seq<char>, Seq<char>)> {
    let lines = split_lines(s);
    match (scan_field(lines, "Config file path"@), scan_field(lines, "Snapshots path"@),
        scan_field(lines, "Debug mode"@)) {
        (Some(c), Some(p), Some(d)) => Some((c, p, d)),
        _ => None,
    }
}

/// Splits one display line into its trimmed key and value, when the line
/// holds exactly one colon.
fn parse_line(line: &str) -> (r: Option<(String, String)>)
    ensures
        match line_entry(line@) {
            None => r is None,
            Some(kv) => r matches Some(p) && p.0@ == kv.0 && p.1@ == kv.1,
        },
{
    let n: usize = line.unicode_len();
    match find_char_str(line, ':') {
        None => None,
        Some(i) => {
            proof {
                lemma_find_char_characterization(line@, ':');
            }
            let rest = line.substring_char(i + 1, n);
            match find_char_str(rest, ':') {
                Some(_) => None,
                None => {
                    let key = trim_str(line.substring_char(0, i));
                    let value = trim_str(rest);
                    proof {
                        assert(line@.subrange(0, i as int) =~= line@.take(i as int));
                        assert(line@.subrange(i + 1, n as int) =~= line@.skip(i + 1));
                    }
                    Some((key, value))
                },
            }
        },
    }
}

/// Reads a `Config` back from its display form.  Each line with exactly one
/// colon names a field; the last occurrence of each field wins; all three
/// fields must be present, else the text is rejected.
pub fn parse_config_display(s: &str) -> (r: Result<Config, ParseConfigError>)
    ensures
        match display_fields(s@) {
            Some(t) => r matches Ok(c) && c.config_file_path@ == t.0 && c.snapshots_path@ == t.1
                && c.debug_mode@ == t.2,
            None => r is Err,
        },
{
    let lines = split_lines_str(s);
    let ghost line_views = str_seq_views(lines@);
    let mut config_file_path: Option<String> = None;
    let mut snapshots_path: Option<String> = None;
    let mut debug_mode: Option<String> = None;
    let mut i: usize = 0;
    proof {
        assert(line_views.take(0) =~= Seq::<Seq<char>>::empty());
    }
    while i < lines.len()
        invariant
            line_views == str_seq_views(lines@),
            0 <= i <= lines.len(),
            line_views.len() == lines.len(),
            opt_view(config_file_path) == scan_field(
                line_views.take(i as int),
                "Config file path"@,
            ),
            opt_view(snapshots_path) == scan_field(line_views.take(i as int), "Snapshots path"@),
            opt_view(debug_mode) == scan_field(line_views.take(i as int), "Debug mode"@),
        decreases lines.len() - i,
    {
        proof {
            assert(line_views.take(i + 1).drop_last() =~= line_views.take(i as int));
            assert(line_views.take(i + 1).last() == lines@[i as int]@);
            reveal_strlit("Config file path");
            reveal_strlit("Snapshots path");
            reveal_strlit("Debug mode");
            assert("Config file path"@.len() == 16);
            assert("Snapshots path"@.len() == 14);
            assert("Debug mode"@.len() == 10);
        }
        match parse_line(lines[i].as_str()) {
            None => {},
            Some(kv) => {
                let (key, value) = kv;
                if eq_str(key.as_str(), "Config file path") {
                    config_file_path = Some(value);
                } else if eq_str(key.as_str(), "Snapshots path") {
                    snapshots_path = Some(value);
                } else if eq_str(key.as_str(), "Debug mode") {
                    debug_mode = Some(value);
                }
            },
        }
        i = i + 1;
    }
    proof {
        assert(line_views.take(lines.len() as int) =~= line_views);
    }
    match (config_file_path, snapshots_path, debug_mode) {
        (Some(c), Some(p), Some(d)) => Ok(
            Config { config_file_path: c, snapshots_path: p, debug_mode: d },
        ),
        _ => Err(ParseConfigError),
    }
}

/// The view of an optional string.
pub open spec fn opt_view(o: Option<String>) -> Option<Seq<char>> {
    match o {
        Some(x) => Some(x@),
        None => None,
    }
}

impl core::str::FromStr for Config {
    type Err = ParseConfigError;

    fn from_str(s: &str) -> Result<Config, ParseConfigError> {
        parse_config_display(s)
    }
}

} // verus!
