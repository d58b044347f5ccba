use sware::domain::{EventType, ListProduct, Product, ProductsResult, Context, MdConcerning, OutlookRisk, SwoType};

fn make_product(code: &str, office: &str, issuance: &str, ext: &str, text: &str) -> Product {
    Product {
        _id: ext.to_string(),
        id: "id".to_string(),
        wmo_collective_id: String::new(),
        issuing_office: office.to_string(),
        issuance_time: issuance.to_string(),
        product_code: code.to_string(),
        product_name: String::new(),
        product_text: text.to_string(),
    }
}


#[test]
fn parse_afd_product() {
    let product = make_product(
        "AFD",
        "KMPX",
        "2018-04-14T02:07:00+00:00",
        "https://api.weather.gov/products/d0b93b47-1052-4b07-965e-286025226ba8",
        "narrative body",
    );
    let event = sware::afd_parser::parse(&product).unwrap();
    assert_eq!(event.event_ts, 1523671620000000);
    assert!(matches!(event.event_type, EventType::NwsAfd));
    assert_eq!(event.title, "Area Forecast Discussion (KMPX)");
    assert!(event.location.is_none());
    assert_eq!(
        event.ext_uri.as_deref(),
        Some("https://api.weather.gov/products/d0b93b47-1052-4b07-965e-286025226ba8")
    );
    assert_eq!(event.ingest_ts, 0);
}

#[test]
fn bad_timestamp() {
    let product = make_product("AFD", "KMPX", "invalid ts", "_id", "narrative body");
    assert!(sware::afd_parser::parse(&product).is_none());
}

#[test]
fn dispatcher_rejects_unknown_product_codes() {
    let product = make_product("XYZ", "KMPX", "2018-04-13T21:27:00+00:00", "_id", "whatever");
    assert!(sware::nws_parser::parse(&product).is_none());
}

#[test]
fn dispatcher_contains_malformed_bodies() {
    let junk = make_product("TOR", "KTOP", "2018-05-02T01:01:00+00:00", "_id", "no structure here");
    assert!(sware::nws_parser::parse(&junk).is_none());
    let good = make_product(
        "AFD",
        "KMPX",
        "2018-04-13T21:27:00+00:00",
        "_id",
        "narrative body",
    );
    assert!(sware::nws_parser::parse(&good).is_some());
}

#[test]
fn dispatcher_routes_by_product_code() {
    let product = make_product("AFD", "KMPX", "2018-04-13T21:27:00+00:00", "_id", "n");
    let event = sware::nws_parser::parse(&product).unwrap();
    assert!(matches!(event.event_type, EventType::NwsAfd));
}

#[test]
fn get_swo_type_classifies_by_identifier() {
    assert!(matches!(sware::swo_parser::get_swo_type("xx ACUS01 yy"), SwoType::Day1));
    assert!(matches!(sware::swo_parser::get_swo_type("xx ACUS02 yy"), SwoType::Day2));
    assert!(matches!(sware::swo_parser::get_swo_type("xx ACUS03 yy"), SwoType::Day3));
    assert!(matches!(sware::swo_parser::get_swo_type("xx ACUS48 yy"), SwoType::Day48));
    assert!(matches!(sware::swo_parser::get_swo_type("xx ACUS11 yy"), SwoType::MesoscaleDiscussion));
    assert!(matches!(sware::swo_parser::get_swo_type("xx nothing yy"), SwoType::Unknown));
}

#[test]
fn get_outlook_risk_takes_highest_phrase() {
    let both = "THERE IS A SLIGHT RISK here and THERE IS A MODERATE RISK there";
    assert!(matches!(sware::swo_parser::get_outlook_risk(both), OutlookRisk::MDT));
    let reversed = "THERE IS A MODERATE RISK here and THERE IS A SLIGHT RISK there";
    assert!(matches!(sware::swo_parser::get_outlook_risk(reversed), OutlookRisk::MDT));
    assert!(matches!(sware::swo_parser::get_outlook_risk("no phrases"), OutlookRisk::TSTM));
}

#[test]
fn parse_swo_day1_moderate() {
    let product = make_product("SWO", "KWNS", "2018-04-03T17:40:00+00:00", "_id", "\n587 \nACUS01 KWNS 031740\nSWODY1\nSPC AC 031739\n\nDay 1 Convective Outlook CORR 1\nNWS Storm Prediction Center Norman OK\n1239 PM CDT Tue Apr 03 2018\n\nValid 031630Z - 041200Z\n\n...THERE IS A MODERATE RISK OF SEVERE THUNDERSTORMS OVER PARTS OF\nEASTERN ARKANSAS...NORTHERN MISSISSIPPI...WESTERN AND MIDDLE\nTENNESSEE...SOUTHEAST MISSOURI...SOUTHERN ILLINOIS...WESTERN AND\nCENTRAL KENTUCKY...SOUTHERN AND CENTRAL INDIANA...AND SOUTHWEST\nOHIO...\n\n...THERE IS AN ENHANCED RISK OF SEVERE THUNDERSTORMS SURROUNDING THE\nMODERATE RISK AREA OVER PARTS OF THE LOWER AND MID\nMISSISSIPPI...OHIO...AND TENNESSEE VALLEYS...\n\n...THERE IS A SLIGHT RISK OF SEVERE THUNDERSTORMS FROM CENTRAL TEXAS\nINTO OHIO...\n\n...THERE IS A MARGINAL RISK OF SEVERE THUNDERSTORMS FROM CENTRAL\nTEXAS INTO WESTERN PENNSYLVANIA...\n\nCORRECTED SMALL TEXT ERROR\n\n...SUMMARY...\nA Moderate Risk for thunderstorms producing widespread damaging\nwinds, large hail, and a few tornadoes exists over parts of the Ohio\nValley and Mid-South regions.\n\n...AR/MS northeastward through much of the OH/TN Valleys...\nAn active severe weather day is expected across the MS/OH/TN Valleys\ntoday with numerous strong/severe thunderstorms affecting a large\narea.  The primary focus for severe storms will be a progressive and\ndeepening shortwave trough moving across the central Plains.  A\ndeepening surface low and cold front in advance of this system will\nsweep across the risk area this afternoon through tonight, resulting\nin a fast-moving squall line extending from IL/IN/OH southward into\nthe Mid South.  Visible satellite imagery shows broken cloud cover\nacross most of the warm sector, promoting heating and\ndestabilization.  Forecast soundings suggest a corridor of moderate\nCAPE values ahead of the front by mid-afternoon as thunderstorms\nbegin to form.  Initial activity may be supercellular in nature,\nwith a risk of tornadoes (some strong) and large hail from northeast\nAR/western MS into parts of southern IL/IN and western KY. \nEventually, the storms should congeal into a line with multiple\nbowing segments as it progresses across the MDT and ENH risk areas\nwith the potential for widespread damaging winds and a few QLCS\ntornadoes.\n\n...TX/LA...\nScattered strong to severe thunderstorms have developed this morning\nover central TX, ahead of a southern stream shortwave trough.  This\nactivity will persist through the day and spread into LA, with a\nrisk of large hail and damaging wind gusts.  By mid-afternoon,\nthunderstorms are expected to form along the advancing cold front\nand affect these same areas.\n\n...IN/OH...\nA persistent cluster of thunderstorms is affecting much of\ncentral/northern IN and OH.  The air mass south of the activity\ncontinues to warm, leading to a favorable environment for\nsevere/supercell thunderstorms.  This corridor remains in the higher\ntornado/damaging wind probability area for both warm frontal\nactivity this afternoon, and the squall line activity later today.\n\n..Hart.. 04/03/2018\n\n$$\n\n");
    let event = sware::swo_parser::parse(&product).unwrap();
    assert_eq!(event.event_ts, 1522777200000000);
    assert_eq!(event.title, "SPC Day1 Outlook: MDT");
    let outlook = event.outlook.unwrap();
    assert!(matches!(outlook.swo_type, SwoType::Day1));
    assert!(matches!(outlook.max_risk, OutlookRisk::MDT));
    assert!(outlook.polys.is_none());
}

#[test]
fn parse_swo_day1_no_severe() {
    let product = make_product("SWO", "KWNS", "2018-03-31T19:35:00+00:00", "_id", "\n931 \nACUS01 KWNS 311935\nSWODY1\nSPC AC 311934\n\nDay 1 Convective Outlook  \nNWS Storm Prediction Center Norman OK\n0234 PM CDT Sat Mar 31 2018\n\nValid 312000Z - 011200Z\n\n...NO SEVERE THUNDERSTORM AREAS FORECAST...\n\n...SUMMARY...\nThunderstorms are possible from southern Oklahoma across the Ozarks\nregion and over parts of the Florida Peninsula.\n\n...Discussion...\n\nNo changes to 1630z outlook are warranted.\n\n..Darrow.. 03/31/2018\n\n.PREV DISCUSSION... /ISSUED 1126 AM CDT Sat Mar 31 2018/\n\n...TX/OK into the Ozarks...\nA strong surface cold front is surging southward across KS, and will\nmove into parts of TX/OK/AR/MO later this evening.  Southerly\nlow-level winds ahead of the front will continue to moisten the\nregion, leading to a corridor of marginal CAPE values by late\nafternoon.  Virtually all 12z model guidance is consistent in the\ndevelopment of scattered showers and a few thunderstorms along/ahead\nof the front later today.  Shear profiles would be conditionally\nconducive for organized/rotating updrafts.  However, weak low-level\nconvergence/shear and some weak capping inversion are expected to\nlimit updraft strength and resultant severe risk.  One or two cells\nmay briefly approach severe limits producing hail, but the overall\nrisk appears to warrant a continuation of less-than-5% hail\nprobabilities at this time.\n\n$$\n\n");
    let event = sware::swo_parser::parse(&product).unwrap();
    let outlook = event.outlook.unwrap();
    assert!(matches!(outlook.max_risk, OutlookRisk::TSTM));
    assert_eq!(event.title, "SPC Day1 Outlook: TSTM");
}

#[test]
fn parse_swo_md_tor_watch_likely() {
    let product = make_product("SWO", "KWNS", "2018-04-03T16:41:00+00:00", "_id", "\n504 \nACUS11 KWNS 031641\nSWOMCD\nSPC MCD 031641 \nOHZ000-KYZ000-INZ000-ILZ000-031915-\n\nMesoscale Discussion 0205\nNWS Storm Prediction Center Norman OK\n1141 AM CDT Tue Apr 03 2018\n\nAreas affected...Central and southern Indiana...far northern\nKentucky...western Ohio\n\nConcerning...Severe potential...Tornado Watch likely \n\nValid 031641Z - 031915Z\n\nProbability of Watch Issuance...95 percent\n\nSUMMARY...Storms are expected to increase in intensity this\nafternoon with a few tornadoes possible along with large hail.\nAdditional severe storms are likely later this evening.\n\nDISCUSSION...Scattered storms persist from southern IL across\ncentral IN and into OH along and north of a warm front. This\nboundary will gradually shift northward due to boundary layer\nheating/mixing to the south and strengthening warm air advection via\na backing 50-60 kt low-level jet. While some of the activity is\ncurrently elevated, a transition may occur in a few hours allowing\nstorms along the warm front to become supercells and/or bows.\nAdditional storms may also form south of the warm front as the air\nmass continues to destabilize, most likely across southern IN, far\nnorthern KY, and southwest OH. Wind profiles will become\nincreasingly favorable for supercells and tornadoes throughout the\nday as the low deepens.\n\n..Jewell/Hart.. 04/03/2018\n\n...Please see www.spc.noaa.gov for graphic product...\n\nATTN...WFO...ILN...LMK...IWX...IND...PAH...ILX...\n\nLAT...LON   37828769 38538776 39738706 40628525 40468356 40368310\n            40128274 39658275 39248339 38808423 38208503 37818597\n            37738630 37648721 37828769 \n\n\n");
    let event = sware::swo_parser::parse(&product).unwrap();
    assert_eq!(event.event_ts, 1522773660000000);
    assert_eq!(event.title, "SPC MD: Tornado Watch 95%");
    let md = event.md.unwrap();
    assert_eq!(md.id, 205);
    assert_eq!(md.affected, "Central and southern Indiana...far northern Kentucky...western Ohio");
    assert!(matches!(md.concerning, MdConcerning::NewTorWatch));
    assert_eq!(md.watch_issuance_probability, Some(95));
    let wfos: Vec<&str> = md.wfos.iter().map(|w| w.as_str()).collect();
    assert_eq!(wfos, vec!["ILN", "LMK", "IWX", "IND", "PAH", "ILX"]);
    let poly = event.location.unwrap().poly.unwrap();
    let got: Vec<(i64, i64)> = poly.iter().map(|c| (c.lat, c.lon)).collect();
    let expected: Vec<(i64, i64)> = vec![(37820000, -87690000), (38530000, -87760000), (39730000, -87060000), (40620000, -85250000), (40460000, -83560000), (40360000, -83100000), (40120000, -82740000), (39650000, -82750000), (39240000, -83390000), (38800000, -84230000), (38200000, -85030000), (37810000, -85970000), (37730000, -86300000), (37640000, -87210000), (37820000, -87690000)];
    assert_eq!(got, expected);
}

#[test]
fn parse_swo_md_continues() {
    let product = make_product("SWO", "KWNS", "2018-03-28T22:33:00+00:00", "_id", "\n205 \nACUS11 KWNS 282233\nSWOMCD\nSPC MCD 282232 \nMSZ000-LAZ000-290030-\n\nMesoscale Discussion 0190\nNWS Storm Prediction Center Norman OK\n0532 PM CDT Wed Mar 28 2018\n\nAreas affected...West central through north central Mississippi and\nadjacent portions of Arkansas/Louisiana\n\nConcerning...Tornado Watch 23...\n\nValid 282232Z - 290030Z\n\nThe severe weather threat for Tornado Watch 23 continues.\n\nSUMMARY...A risk for thunderstorm activity capable of producing\ndamaging wind gusts and a couple of tornadoes will gradually spread\nacross and northeast of the Vicksburg MS area, toward Greenwood and\nTupelo, through 7-9 PM CDT.\n\nDISCUSSION...The risk for severe weather will gradually increase\nacross west central into north central Mississippi through the\n00-02Z time frame.  This will largely occur in association with the\nnortheastward migration of a weak wave along an effective warm\nfrontal zone/zone of enhanced low-level convergence.  Strengthening\nof southerly 850 mb flow to 40-50 kt appears likely to accompany\nthis feature.  This will contribute to enlarging low-level\nhodographs along the boundary, supportive of supercell structures\nwith a risk for potentially damaging wind gusts and perhaps a couple\nof tornadoes.  Northeast of the Vicksburg area, thermodynamic\nprofiles/instability still appears somewhat marginal, but this may\nchange during the next couple of hours with continued low-level\nmoistening.\n\n..Kerr.. 03/28/2018\n\n...Please see www.spc.noaa.gov for graphic product...\n\nATTN...WFO...MEG...JAN...\n\nLAT...LON   33189084 34139008 34498933 34078856 32918941 32209065\n            31669155 31719186 32459121 33180084 \n\n\n");
    let event = sware::swo_parser::parse(&product).unwrap();
    assert_eq!(event.title, "SPC MD: Existing Tornado Watch");
    let md = event.md.unwrap();
    assert_eq!(md.id, 190);
    assert!(matches!(md.concerning, MdConcerning::ExistingTorWatch));
    assert!(md.watch_issuance_probability.is_none());
}

#[test]
fn compact_round_trip_is_lossless() {
    let product = make_product("AFD", "KMPX", "2018-04-13T21:27:00+00:00", "uri", "n");
    let event = sware::afd_parser::parse(&product).unwrap();
    let back = sware::optimized::from_compact(sware::optimized::to_compact(event.clone()));
    assert_eq!(back, event);
    let sel = "\n281 \nWWUS20 KWNS 031713\nSEL6  \nSPC WW 031713\nINZ000-KYZ000-OHZ000-040000-\n\nURGENT - IMMEDIATE BROADCAST REQUESTED\nTornado Watch Number 26\nNWS Storm Prediction Center Norman OK\n115 PM EDT Tue Apr 3 2018\n\nThe NWS Storm Prediction Center has issued a\n\n* Tornado Watch for portions of \n  Southern and Central Indiana\n  Northern Kentucky\n  Western and Central Ohio\n\n* Effective this Tuesday afternoon and evening from 115 PM until\n  800 PM EDT.\n\n* Primary threats include...\n  A few tornadoes likely with a couple intense tornadoes possible\n  Scattered damaging wind gusts to 70 mph likely\n  Scattered large hail and isolated very large hail events to 2\n    inches in diameter possible\n\nSUMMARY...Thunderstorms are intensifying along the IL/IN border, and\nwill track eastward across the watch area through the afternoon. \nConditions appear favorable for supercell storms capable of large\nhail, damaging winds, and perhaps a strong tornado or two.\n\nThe tornado watch area is approximately along and 70 statute miles\nnorth and south of a line from 40 miles south southwest of Terre\nHaute IN to 20 miles south southeast of Columbus OH. For a complete\ndepiction of the watch see the associated watch outline update\n(WOUS64 KWNS WOU6).\n\nPRECAUTIONARY/PREPAREDNESS ACTIONS...\n\nREMEMBER...A Tornado Watch means conditions are favorable for\ntornadoes and severe thunderstorms in and close to the watch\narea. Persons in these areas should be on the lookout for\nthreatening weather conditions and listen for later statements\nand possible warnings.\n\n&&\n\nOTHER WATCH INFORMATION...CONTINUE...WW 25...\n\nAVIATION...Tornadoes and a few severe thunderstorms with hail\nsurface and aloft to 2 inches. Extreme turbulence and surface wind\ngusts to 60 knots. A few cumulonimbi with maximum tops to 450. Mean\nstorm motion vector 24035.\n\n...Hart\n\n";
    let product = make_product("SEL", "KWNS", "2018-04-03T17:13:00+00:00", "_id", sel);
    let event = sware::sel_parser::parse(&product).unwrap();
    let back = sware::optimized::from_compact(sware::optimized::to_compact(event.clone()));
    assert_eq!(back, event);
}

fn list_product(issuance: &str) -> ListProduct {
    ListProduct {
        _id: "_id".to_string(),
        id: "id".to_string(),
        wmo_collective_id: String::new(),
        issuing_office: "KMPX".to_string(),
        issuance_time: issuance.to_string(),
        product_code: "AFD".to_string(),
        product_name: String::new(),
    }
}

#[test]
fn get_new_products_stops_at_seen_stamp() {
    let listing = ProductsResult {
        _context: Context { _vocab: String::new() },
        products: vec![
            list_product("2018-04-13T21:27:00+00:00"),
            list_product("not a stamp"),
            list_product("2018-04-13T20:27:00+00:00"),
            list_product("2018-04-13T19:27:00+00:00"),
        ],
    };
    let last = sware::time_codec::ts_to_ticks("2018-04-13T20:27:00+00:00").unwrap();
    let fresh = sware::loader::get_new_products(last, listing);
    assert_eq!(fresh.len(), 1);
    assert_eq!(fresh[0].issuance_time, "2018-04-13T21:27:00+00:00");
}

#[test]
fn get_new_products_skips_unparseable_stamps() {
    let listing = ProductsResult {
        _context: Context { _vocab: String::new() },
        products: vec![
            list_product("bad"),
            list_product("2018-04-13T21:27:00+00:00"),
        ],
    };
    let fresh = sware::loader::get_new_products(0, listing);
    assert_eq!(fresh.len(), 1);
}
