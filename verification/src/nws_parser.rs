//! Dispatcher: routes a raw product record to the per-format parser its
//! product code selects; unrecognized codes yield no event.  Every
//! per-format parser is total, so no fault of one record can reach the
//! processing of another: containment is proved rather than caught.

use vstd::prelude::*;
use crate::domain::{Event, Product, wf_event};
use crate::text::str_eq;
use crate::{afd_parser, ffw_parser, lsr_parser, sel_parser, svr_parser, svs_parser, swo_parser,
    tor_parser};

verus! {

broadcast use vstd::string::group_string_axioms;

/// The dispatch table as a guarantee: each recognized product code hands
/// the record to its parser and carries that parser's full contract; an
/// unrecognized code yields no event.
pub open spec fn dispatch_post(product: Product, r: Option<Event>) -> bool {
    let code = product.product_code@;
    &&& code == "AFD"@ ==> afd_parser::afd_post(product, r)
    &&& code == "FFW"@ ==> ffw_parser::ffw_post(product, r)
    &&& code == "LSR"@ ==> lsr_parser::lsr_post(product, r)
    &&& code == "SEL"@ ==> sel_parser::sel_post(product, r)
    &&& code == "SVR"@ ==> svr_parser::svr_post(product, r)
    &&& code == "SVS"@ ==> svs_parser::svs_post(product, r)
    &&& code == "SWO"@ ==> swo_parser::swo_post(product, r)
    &&& code == "TOR"@ ==> tor_parser::tor_post(product, r)
    &&& (code != "AFD"@ && code != "FFW"@ && code != "LSR"@ && code != "SEL"@ && code != "SVR"@
        && code != "SVS"@ && code != "SWO"@ && code != "TOR"@) ==> r is None
}

/// Whatever record comes in, an event that comes out respects the
/// variant-to-substructure rule of the schema.
pub proof fn lemma_dispatch_wf(product: Product, r: Option<Event>)
    requires
        dispatch_post(product, r),
        r is Some,
    ensures
        wf_event(r->0),
{
}

/// Determines which product gets which parser.
pub fn parse(product: &Product) -> (r: Option<Event>)
    ensures
        dispatch_post(*product, r),
{
    proof {
        reveal_strlit("AFD");
        reveal_strlit("FFW");
        reveal_strlit("LSR");
        reveal_strlit("SEL");
        reveal_strlit("SVR");
        reveal_strlit("SVS");
        reveal_strlit("SWO");
        reveal_strlit("TOR");
        assert("AFD".is_ascii());
        assert("FFW".is_ascii());
        assert("LSR".is_ascii());
        assert("SEL".is_ascii());
        assert("SVR".is_ascii());
        assert("SVS".is_ascii());
        assert("SWO".is_ascii());
        assert("TOR".is_ascii());
        assert("AFD"@[0] == 'A' && "AFD"@[1] == 'F' && "AFD"@[2] == 'D');
        assert("FFW"@[0] == 'F' && "FFW"@[1] == 'F' && "FFW"@[2] == 'W');
        assert("LSR"@[0] == 'L' && "LSR"@[1] == 'S' && "LSR"@[2] == 'R');
        assert("SEL"@[0] == 'S' && "SEL"@[1] == 'E' && "SEL"@[2] == 'L');
        assert("SVR"@[0] == 'S' && "SVR"@[1] == 'V' && "SVR"@[2] == 'R');
        assert("SVS"@[0] == 'S' && "SVS"@[1] == 'V' && "SVS"@[2] == 'S');
        assert("SWO"@[0] == 'S' && "SWO"@[1] == 'W' && "SWO"@[2] == 'O');
        assert("TOR"@[0] == 'T' && "TOR"@[1] == 'O' && "TOR"@[2] == 'R');
    }
    let code = product.product_code.as_str();
    if str_eq("AFD", code) {
        afd_parser::parse(product)
    } else if str_eq("FFW", code) {
        ffw_parser::parse(product)
    } else if str_eq("LSR", code) {
        lsr_parser::parse(product)
    } else if str_eq("SEL", code) {
        sel_parser::parse(product)
    } else if str_eq("SVR", code) {
        svr_parser::parse(product)
    } else if str_eq("SVS", code) {
        svs_parser::parse(product)
    } else if str_eq("SWO", code) {
        swo_parser::parse(product)
    } else if str_eq("TOR", code) {
        tor_parser::parse(product)
    } else {
        None
    }
}

} // verus!
