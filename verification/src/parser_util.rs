//! Helpers shared by the per-format parsers: the location-list clean-up
//! applied to "warning for" and "watch for" blocks.

use vstd::prelude::*;
use crate::coord::{latlon_spec, str_to_latlon};
use crate::domain::Coordinates;
use crate::patterns::{block_content, find_block, good_pair, scan_block};
use crate::text::{replace_seq, replace_string, trim_seq, trim_string, sub_string};
use vstd::utf8::is_ascii_chars;

verus! {

broadcast use vstd::string::group_string_axioms;

/// The location list of a warning: newlines dropped, ellipses turned
/// into commas, double spaces single, surrounding whitespace trimmed and
/// the trailing separator cut.  An empty list is a malformed block.
pub open spec fn warning_issued_for_spec(c: Seq<char>) -> Option<Seq<char>> {
    let t = trim_seq(
        replace_seq(replace_seq(replace_seq(c, "\n"@, ""@), "..."@, ","@), "  "@, " "@),
    );
    if t.len() == 0 {
        None
    } else {
        Some(t.subrange(0, t.len() - 1))
    }
}

pub fn warning_issued_for(content: &str) -> (r: Option<String>)
    requires
        content.is_ascii(),
    ensures
        match r {
            Some(v) => {
                &&& warning_issued_for_spec(content@) == Some(v@)
                &&& is_ascii_chars(v@)
            },
            None => warning_issued_for_spec(content@) is None,
        },
{
    proof {
        reveal_strlit("\n");
        reveal_strlit("");
        reveal_strlit("...");
        reveal_strlit(",");
        reveal_strlit("  ");
        reveal_strlit(" ");
        assert("\n"@.len() == 1);
        assert("...".is_ascii() && ",".is_ascii() && "  ".is_ascii() && " ".is_ascii()
            && "".is_ascii());
        assert("..."@.len() == 3 && "  "@.len() == 2);
    }
    let a = replace_string(content, "\n", "");
    let b = replace_string(a.as_str(), "...", ",");
    let c2 = replace_string(b.as_str(), "  ", " ");
    let t = trim_string(c2.as_str());
    let tlen = crate::text::str_len(t.as_str());
    if tlen == 0 {
        None
    } else {
        Some(sub_string(t.as_str(), 0, tlen - 1))
    }
}

/// The location list of a watch: trimmed, with line-break indentation
/// turned into a comma separator.
pub open spec fn watch_issued_for_spec(c: Seq<char>) -> Seq<char> {
    replace_seq(trim_seq(c), "\n  "@, ", "@)
}

pub fn watch_issued_for(content: &str) -> (r: String)
    requires
        content.is_ascii(),
    ensures
        r@ == watch_issued_for_spec(content@),
        is_ascii_chars(r@),
{
    proof {
        reveal_strlit("\n  ");
        reveal_strlit(", ");
        assert("\n  "@.len() == 3);
        assert(", ".is_ascii());
    }
    let t = trim_string(content);
    replace_string(t.as_str(), "\n  ", ", ")
}

/// The cleaned "warning for" location list, when its block is present
/// and nonempty.
pub open spec fn warning_for_spec(text: Seq<char>) -> Option<Seq<char>> {
    match find_block(text, "warning for"@, 3, ""@, 0, 1, "\n\n"@) {
        None => None,
        Some(i) => warning_issued_for_spec(
            block_content(text, "warning for"@, 3, ""@, 0, 1, "\n\n"@, i),
        ),
    }
}

/// Finds and cleans the "warning for" location list.
pub fn scan_warning_for(text: &str) -> (r: Option<String>)
    requires
        text.is_ascii(),
    ensures
        match r {
            Some(v) => {
                &&& warning_for_spec(text@) == Some(v@)
                &&& is_ascii_chars(v@)
            },
            None => warning_for_spec(text@) is None,
        },
{
    match scan_block(text, "warning for", 3, "", 0, 1, "\n\n") {
        Some(c) => warning_issued_for(c.as_str()),
        None => None,
    }
}

/// The decoded polygon of a list of raw coordinate pairs: each latitude
/// decoded plain, each longitude decoded inverted.
pub fn pairs_to_coords(pairs: &Vec<(String, String)>) -> (r: Vec<Coordinates>)
    requires
        forall|q: int|
            0 <= q < pairs.deep_view().len() ==> good_pair(#[trigger] pairs.deep_view()[q]),
    ensures
        r@.len() == pairs@.len(),
        forall|q: int|
            0 <= q < r@.len() ==> {
                &&& (#[trigger] r@[q]).lat as int == latlon_spec(pairs.deep_view()[q].0, false)
                &&& r@[q].lon as int == latlon_spec(pairs.deep_view()[q].1, true)
            },
{
    let mut coords: Vec<Coordinates> = Vec::new();
    let mut i: usize = 0;
    while i < pairs.len()
        invariant
            forall|q: int|
                0 <= q < pairs.deep_view().len() ==> good_pair(#[trigger] pairs.deep_view()[q]),
            i <= pairs@.len(),
            coords@.len() == i,
            forall|q: int|
                0 <= q < i ==> {
                    &&& (#[trigger] coords@[q]).lat as int == latlon_spec(
                        pairs.deep_view()[q].0,
                        false,
                    )
                    &&& coords@[q].lon as int == latlon_spec(pairs.deep_view()[q].1, true)
                },
        decreases pairs@.len() - i,
    {
        proof {
            assert(good_pair(pairs.deep_view()[i as int]));
            assert(pairs.deep_view()[i as int].0 == pairs@[i as int].0@);
            assert(pairs.deep_view()[i as int].1 == pairs@[i as int].1@);
        }
        let lat = str_to_latlon(pairs[i].0.as_str(), false);
        let lon = str_to_latlon(pairs[i].1.as_str(), true);
        coords.push(Coordinates { lat, lon });
        i += 1;
    }
    coords
}

} // verus!
