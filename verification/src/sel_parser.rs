//! Watch issuance/cancellation bulletin parser.  The status is classified
//! from the issuing phrases, the watch type from the watch-number phrase,
//! the numeric watch id is required, and an optional "watch for" block
//! becomes the location list.

use vstd::prelude::*;
use vstd::string::StringExecFns;
use crate::domain::{Event, EventType, Product, Watch, WatchStatus, WatchType, wf_event};
use crate::parser_util::{watch_issued_for, watch_issued_for_spec};
use crate::patterns::{
    block_content, find_block, find_number, lemma_run_all_digits, number_digits, scan_block,
    scan_number,
};
use crate::text::{
    contains_ci, contains_ci_at, dec_str, digits_val, lemma_digits_val_bound, lemma_pow10_mono,
    pow10, u64_string,
};
use crate::time_codec::{ts_ticks, ts_to_ticks};
use vstd::utf8::is_ascii_chars;

verus! {

broadcast use vstd::string::group_string_axioms;

pub open spec fn sel_status(text: Seq<char>) -> WatchStatus {
    if contains_ci(text, "storm prediction center has issued"@) {
        WatchStatus::Issued
    } else if contains_ci(text, "storm prediction center has cancelled"@) {
        WatchStatus::Cancelled
    } else {
        WatchStatus::Unknown
    }
}

pub open spec fn sel_watch_type(text: Seq<char>) -> WatchType {
    if contains_ci(text, "tornado watch number"@) {
        WatchType::Tornado
    } else if contains_ci(text, "severe thunderstorm watch number"@) {
        WatchType::SevereThunderstorm
    } else {
        WatchType::Other
    }
}

pub open spec fn sel_verb(status: WatchStatus) -> Seq<char> {
    match status {
        WatchStatus::Issued => "issues "@,
        WatchStatus::Cancelled => "cancels "@,
        WatchStatus::Unknown => ""@,
    }
}

pub open spec fn sel_type_text(t: WatchType) -> Seq<char> {
    match t {
        WatchType::Tornado => "Tor "@,
        WatchType::SevereThunderstorm => "Tstm "@,
        WatchType::Other => ""@,
    }
}

/// The watch id: the digits after the first "watch number" phrase, at
/// most three of them.
pub open spec fn sel_id(text: Seq<char>) -> int {
    digits_val(
        number_digits(text, "watch number "@, 0, 3, find_number(text, "watch number "@, 0, 1, 3, ""@)->0),
    )
}

/// The optional "watch for" location block.
pub open spec fn sel_issued_for(text: Seq<char>) -> Option<Seq<char>> {
    match find_block(text, "watch for portions of"@, 2, ""@, 0, 1, "\n\n"@) {
        None => None,
        Some(i) => Some(
            watch_issued_for_spec(
                block_content(text, "watch for portions of"@, 2, ""@, 0, 1, "\n\n"@, i),
            ),
        ),
    }
}

/// Everything the parser guarantees of its result.
pub open spec fn sel_post(product: Product, r: Option<Event>) -> bool {
    ({
        let text = product.product_text@;
        let pds = contains_ci(text, "particularly dangerous situation"@);
        &&& (r is Some) == (is_ascii_chars(text) && ts_ticks(product.issuance_time@) is Some
            && find_number(text, "watch number "@, 0, 1, 3, ""@) is Some)
        &&& r matches Some(e) ==> {
            &&& e.event_ts == ts_ticks(product.issuance_time@)->0
            &&& e.event_type == EventType::NwsSel
            &&& e.title@ == "SPC "@ + sel_verb(sel_status(text)) + (if pds {
                "PDS "@
            } else {
                ""@
            }) + sel_type_text(sel_watch_type(text)) + "Watch "@ + dec_str(sel_id(text))
            &&& e.watch matches Some(w) && {
                &&& w.is_pds == pds
                &&& w.id as int == sel_id(text)
                &&& w.watch_type == sel_watch_type(text)
                &&& w.status == sel_status(text)
                &&& match (w.issued_for, sel_issued_for(text)) {
                    (Some(a), Some(b)) => a@ == b,
                    (None, None) => true,
                    _ => false,
                }
            }
            &&& e.text matches Some(t) && t@ == text
            &&& e.location is None
            &&& e.expires_ts is None
            &&& e.ext_uri is None
            &&& e.ingest_ts == 0
            &&& e.valid_ts is None
            &&& wf_event(e)
        }
    })
}

/// Parses a watch issuance/cancellation record.
pub fn parse(product: &Product) -> (r: Option<Event>)
    ensures
        sel_post(*product, r),
{
    let text = product.product_text.as_str();
    if !text.is_ascii() {
        return None;
    }
    let event_ts = match ts_to_ticks(product.issuance_time.as_str()) {
        Some(t) => t,
        None => {
            return None;
        },
    };
    let is_pds = contains_ci_at(text, "particularly dangerous situation");
    let id: u16 = match scan_number(text, "watch number ", 0, 1, 3, "") {
        None => {
            return None;
        },
        Some(v) => {
            proof {
                let i = find_number(text@, "watch number "@, 0, 1, 3, ""@)->0;
                crate::patterns::lemma_first_at_some(
                    |j: int|
                        crate::patterns::number_at(text@, "watch number "@, 0, 1, 3, ""@, j),
                    0,
                    text@.len() as int,
                    i,
                );
                lemma_run_all_digits(text@, i + "watch number "@.len());
                let digits = number_digits(text@, "watch number "@, 0, 3, i);
                assert(crate::text::all_digits(digits, 0, digits.len() as int));
                lemma_digits_val_bound(digits);
                lemma_pow10_mono(digits.len() as nat, 3);
                assert(pow10(3) == 1000) by {
                    reveal_with_fuel(pow10, 4);
                }
            }
            match v {
                Some(id) => id,
                None => {
                    // dead arm: a three-digit value always fits in the id
                    proof {
                        assert(false);
                    }
                    return None;
                },
            }
        },
    };
    let issued_for: Option<String> = match scan_block(
        text,
        "watch for portions of",
        2,
        "",
        0,
        1,
        "\n\n",
    ) {
        None => None,
        Some(c) => Some(watch_issued_for(c.as_str())),
    };
    let status = if contains_ci_at(text, "storm prediction center has issued") {
        WatchStatus::Issued
    } else if contains_ci_at(text, "storm prediction center has cancelled") {
        WatchStatus::Cancelled
    } else {
        WatchStatus::Unknown
    };
    let watch_type = if contains_ci_at(text, "tornado watch number") {
        WatchType::Tornado
    } else if contains_ci_at(text, "severe thunderstorm watch number") {
        WatchType::SevereThunderstorm
    } else {
        WatchType::Other
    };
    let verb: &str = match status {
        WatchStatus::Issued => "issues ",
        WatchStatus::Cancelled => "cancels ",
        WatchStatus::Unknown => "",
    };
    let pds_text: &str = if is_pds {
        "PDS "
    } else {
        ""
    };
    let watch_type_text: &str = match watch_type {
        WatchType::Tornado => "Tor ",
        WatchType::SevereThunderstorm => "Tstm ",
        WatchType::Other => "",
    };
    let mut title = String::from_str("SPC ");
    title.append(verb);
    title.append(pds_text);
    title.append(watch_type_text);
    title.append("Watch ");
    let id_str = u64_string(id as u64);
    title.append(id_str.as_str());
    let watch = Watch { is_pds, id, watch_type, status, issued_for };
    let mut event = Event::new(event_ts, EventType::NwsSel, title);
    event.watch = Some(watch);
    event.text = Some(product.product_text.clone());
    Some(event)
}

} // verus!
