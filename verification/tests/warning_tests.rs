use sware::domain::{EventType, Units};

use sware::domain::Product;

fn make_product(code: &str, office: &str, issuance: &str, ext: &str, text: &str) -> Product {
    Product {
        _id: ext.to_string(),
        id: "id".to_string(),
        wmo_collective_id: String::new(),
        issuing_office: office.to_string(),
        issuance_time: issuance.to_string(),
        product_code: code.to_string(),
        product_name: String::new(),
        product_text: text.to_string(),
    }
}


#[test]
fn parse_ffw_product_happy_path() {
    let product = make_product("FFW", "KGID", "2018-05-02T01:52:00+00:00", "_id", "\n500 \nWGUS53 KGID 020152\nFFWGID\nKSC123-141-020545-\n/O.NEW.KGID.FF.W.0001.180502T0152Z-180502T0545Z/\n/00000.0.ER.000000T0000Z.000000T0000Z.000000T0000Z.OO/\n\nBULLETIN - EAS ACTIVATION REQUESTED\nFlash Flood Warning\nNational Weather Service Hastings NE\n852 PM CDT TUE MAY 1 2018\n\nThe National Weather Service in Hastings has issued a\n\n* Flash Flood Warning for...\n  Mitchell County in north central Kansas...\n  Southeastern Osborne County in north central Kansas...\n\n* Until 1245 AM CDT\n\n* At 844 PM CDT, Doppler radar indicated thunderstorms producing\n  heavy rain across the warned area. Flash flooding is expected to \n  begin shortly. Three to five inches of rain have been estimated to \n  have already fallen for some areas, with potentially another \n  couple of inches of rain before ending Tuesday night.\n\n* Some locations that will experience flooding include...\n  Beloit, Tipton, Asherville, Simpson, Hunter and Victor and along \n  the Solomon River. \n\nLAT...LON 3935 9847 3953 9793 3922 9793 3922 9849\n      3913 9849 3913 9889\n\n$$\n\nHeinlein\n\n");
    let event = sware::ffw_parser::parse(&product).unwrap();
    assert_eq!(event.event_ts, 1525225920000000);
    assert!(matches!(event.event_type, EventType::NwsFfw));
    assert_eq!(event.title, "Flash Flood Warning (KGID)");
    assert_eq!(event.valid_ts, Some(1525225920000000));
    assert_eq!(event.expires_ts, Some(1525239900000000));
    let location = event.location.unwrap();
    assert_eq!(location.wfo.as_deref(), Some("KGID"));
    assert!(location.point.is_none());
    let poly = location.poly.unwrap();
    let expected_poly: Vec<(i64, i64)> = vec![(39350000, -98470000), (39530000, -97930000), (39220000, -97930000), (39220000, -98490000), (39130000, -98490000), (39130000, -98890000)];
    let got_poly: Vec<(i64, i64)> = poly.iter().map(|c| (c.lat, c.lon)).collect();
    assert_eq!(got_poly, expected_poly);
    let warning = event.warning.unwrap();
    assert_eq!(warning.is_pds, false);
    assert_eq!(warning.issued_for, "Mitchell County in north central Kansas, Southeastern Osborne County in north central Kansas");
    assert_eq!(warning.time, "N/A");
    assert!(warning.motion_deg.is_none());
    assert!(warning.motion_kt.is_none());
    assert!(warning.source.is_none());
    assert!(warning.is_tor_emergency.is_none());
    assert!(warning.was_observed.is_none());
    assert_eq!(event.text.as_deref(), Some("\n500 \nWGUS53 KGID 020152\nFFWGID\nKSC123-141-020545-\n/O.NEW.KGID.FF.W.0001.180502T0152Z-180502T0545Z/\n/00000.0.ER.000000T0000Z.000000T0000Z.000000T0000Z.OO/\n\nBULLETIN - EAS ACTIVATION REQUESTED\nFlash Flood Warning\nNational Weather Service Hastings NE\n852 PM CDT TUE MAY 1 2018\n\nThe National Weather Service in Hastings has issued a\n\n* Flash Flood Warning for...\n  Mitchell County in north central Kansas...\n  Southeastern Osborne County in north central Kansas...\n\n* Until 1245 AM CDT\n\n* At 844 PM CDT, Doppler radar indicated thunderstorms producing\n  heavy rain across the warned area. Flash flooding is expected to \n  begin shortly. Three to five inches of rain have been estimated to \n  have already fallen for some areas, with potentially another \n  couple of inches of rain before ending Tuesday night.\n\n* Some locations that will experience flooding include...\n  Beloit, Tipton, Asherville, Simpson, Hunter and Victor and along \n  the Solomon River. \n\nLAT...LON 3935 9847 3953 9793 3922 9793 3922 9849\n      3913 9849 3913 9889\n\n$$\n\nHeinlein\n\n"));
}

#[test]
fn parse_svr_product_happy_path() {
    let product = make_product("SVR", "KDMX", "2018-04-13T22:36:00+00:00", "_id", "\n601 \nWUUS53 KDMX 132236\nSVRDMX\nIAC027-073-132315-\n/O.NEW.KDMX.SV.W.0002.180413T2236Z-180413T2315Z/\n\nBULLETIN - IMMEDIATE BROADCAST REQUESTED\nSevere Thunderstorm Warning\nNational Weather Service Des Moines IA\n536 PM CDT FRI APR 13 2018\n\nThe National Weather Service in Des Moines  has issued a\n\n* Severe Thunderstorm Warning for...\n  Western Greene County in west central Iowa...\n  Eastern Carroll County in west central Iowa...\n\n* Until 615 PM CDT.\n\n* At 536 PM CDT, a severe thunderstorm was located 7 miles southeast\n  of Glidden, or 12 miles west of Jefferson, moving northeast at 30\n  mph.\n\n  HAZARD...60 mph wind gusts and quarter size hail. \n\n  SOURCE...Radar indicated. \n\n  IMPACT...Hail damage to vehicles is expected. Expect wind damage \n           to roofs, siding, and trees. \n\n* Locations impacted include...\n  Glidden, Scranton, Churdan, Lanesboro, Ralston and Hobbs County\n  Park.\n\nPRECAUTIONARY/PREPAREDNESS ACTIONS...\n\nFor your protection move to an interior room on the lowest floor of a\nbuilding.\n\nTorrential rainfall is occurring with this storm, and may lead to\nflash flooding. Do not drive your vehicle through flooded roadways.\n\n&&\n\nLAT...LON 4221 9475 4221 9434 4191 9452 4191 9475\nTIME...MOT...LOC 2236Z 206DEG 24KT 4198 9462 \n\nHAIL...1.00IN\nWIND...60MPH\n \n$$\n\nMF\n\n");
    let event = sware::svr_parser::parse(&product).unwrap();
    assert_eq!(event.event_ts, 1523658960000000);
    assert!(matches!(event.event_type, EventType::NwsSvr));
    assert_eq!(event.title, "Severe Thunderstorm Warning (KDMX)");
    assert_eq!(event.valid_ts, Some(1523658960000000));
    assert_eq!(event.expires_ts, Some(1523661300000000));
    let location = event.location.unwrap();
    assert_eq!(location.wfo.as_deref(), Some("KDMX"));
    let point = location.point.unwrap();
    assert_eq!((point.lat, point.lon), (41980000, -94620000));
    let poly = location.poly.unwrap();
    let expected_poly: Vec<(i64, i64)> = vec![(42210000, -94750000), (42210000, -94340000), (41910000, -94520000), (41910000, -94750000)];
    let got_poly: Vec<(i64, i64)> = poly.iter().map(|c| (c.lat, c.lon)).collect();
    assert_eq!(got_poly, expected_poly);
    let warning = event.warning.unwrap();
    assert_eq!(warning.is_pds, false);
    assert_eq!(warning.issued_for, "Western Greene County in west central Iowa, Eastern Carroll County in west central Iowa");
    assert_eq!(warning.time, "2236Z");
    assert_eq!(warning.motion_deg, Some(206));
    assert_eq!(warning.motion_kt, Some(24));
    assert_eq!(warning.source.as_deref(), Some("Radar indicated"));
    assert!(warning.is_tor_emergency.is_none());
    assert!(warning.was_observed.is_none());
    assert_eq!(event.text.as_deref(), Some("\n601 \nWUUS53 KDMX 132236\nSVRDMX\nIAC027-073-132315-\n/O.NEW.KDMX.SV.W.0002.180413T2236Z-180413T2315Z/\n\nBULLETIN - IMMEDIATE BROADCAST REQUESTED\nSevere Thunderstorm Warning\nNational Weather Service Des Moines IA\n536 PM CDT FRI APR 13 2018\n\nThe National Weather Service in Des Moines  has issued a\n\n* Severe Thunderstorm Warning for...\n  Western Greene County in west central Iowa...\n  Eastern Carroll County in west central Iowa...\n\n* Until 615 PM CDT.\n\n* At 536 PM CDT, a severe thunderstorm was located 7 miles southeast\n  of Glidden, or 12 miles west of Jefferson, moving northeast at 30\n  mph.\n\n  HAZARD...60 mph wind gusts and quarter size hail. \n\n  SOURCE...Radar indicated. \n\n  IMPACT...Hail damage to vehicles is expected. Expect wind damage \n           to roofs, siding, and trees. \n\n* Locations impacted include...\n  Glidden, Scranton, Churdan, Lanesboro, Ralston and Hobbs County\n  Park.\n\nPRECAUTIONARY/PREPAREDNESS ACTIONS...\n\nFor your protection move to an interior room on the lowest floor of a\nbuilding.\n\nTorrential rainfall is occurring with this storm, and may lead to\nflash flooding. Do not drive your vehicle through flooded roadways.\n\n&&\n\nLAT...LON 4221 9475 4221 9434 4191 9452 4191 9475\nTIME...MOT...LOC 2236Z 206DEG 24KT 4198 9462 \n\nHAIL...1.00IN\nWIND...60MPH\n \n$$\n\nMF\n\n"));
}

#[test]
fn parse_tor_product_happy_path() {
    let product = make_product("TOR", "KTOP", "2018-05-02T01:01:00+00:00", "_id", "\n271 \nWFUS53 KTOP 020101\nTORTOP\nKSC027-161-201-020145-\n/O.NEW.KTOP.TO.W.0009.180502T0101Z-180502T0145Z/\n\nBULLETIN - EAS ACTIVATION REQUESTED\nTornado Warning\nNational Weather Service Topeka KS\n801 PM CDT TUE MAY 1 2018\n\nThe National Weather Service in Topeka has issued a\n\n* Tornado Warning for...\n  Northwestern Riley County in northeastern Kansas...\n  Southern Washington County in north central Kansas...\n  Northern Clay County in north central Kansas...\n\n* Until 845 PM CDT\n    \n* At 800 PM CDT, a large and extremely dangerous tornado was located\n  2 miles south of Clifton, moving northeast at 25 mph.\n\n  TAKE COVER NOW! \n\n  HAZARD...Damaging tornado. \n\n  SOURCE...Radar indicated rotation. \n\n  IMPACT...You are in a life-threatening situation. Flying debris \n           may be deadly to those caught without shelter. Mobile \n           homes will be destroyed. Considerable damage to homes, \n           businesses, and vehicles is likely and complete \n           destruction is possible. \n\n* The tornado will be near...\n  Morganville around 805 PM CDT. \n  Palmer around 820 PM CDT. \n  Linn around 830 PM CDT. \n  Greenleaf around 845 PM CDT. \n\nPRECAUTIONARY/PREPAREDNESS ACTIONS...\n\nTo repeat, a large, extremely dangerous and potentially deadly\ntornado is developing. To protect your life, TAKE COVER NOW! Move to\na basement or an interior room on the lowest floor of a sturdy\nbuilding. Avoid windows. If you are outdoors, in a mobile home, or in\na vehicle, move to the closest substantial shelter and protect\nyourself from flying debris.\n\nTornadoes are extremely difficult to see and confirm at night. Do not\nwait to see or hear the tornado. TAKE COVER NOW!\n\n&&\n\nLAT...LON 3977 9697 3950 9680 3939 9737 3959 9737\nTIME...MOT...LOC 0100Z 245DEG 24KT 3952 9728 \n\nTORNADO...RADAR INDICATED\nTORNADO DAMAGE THREAT...CONSIDERABLE\nHAIL...2.00IN\n\n$$\n\nBaerg\n\n");
    let event = sware::tor_parser::parse(&product).unwrap();
    assert_eq!(event.event_ts, 1525222860000000);
    assert!(matches!(event.event_type, EventType::NwsTor));
    assert_eq!(event.title, "Tornado Warning (KTOP)");
    assert_eq!(event.valid_ts, Some(1525222860000000));
    assert_eq!(event.expires_ts, Some(1525225500000000));
    let location = event.location.unwrap();
    assert_eq!(location.wfo.as_deref(), Some("KTOP"));
    let point = location.point.unwrap();
    assert_eq!((point.lat, point.lon), (39520000, -97280000));
    let poly = location.poly.unwrap();
    let expected_poly: Vec<(i64, i64)> = vec![(39770000, -96970000), (39500000, -96800000), (39390000, -97370000), (39590000, -97370000)];
    let got_poly: Vec<(i64, i64)> = poly.iter().map(|c| (c.lat, c.lon)).collect();
    assert_eq!(got_poly, expected_poly);
    let warning = event.warning.unwrap();
    assert_eq!(warning.is_pds, false);
    assert_eq!(warning.issued_for, "Northwestern Riley County in northeastern Kansas, Southern Washington County in north central Kansas, Northern Clay County in north central Kansas");
    assert_eq!(warning.time, "0100Z");
    assert_eq!(warning.motion_deg, Some(245));
    assert_eq!(warning.motion_kt, Some(24));
    assert_eq!(warning.source.as_deref(), Some("Radar indicated rotation"));
    assert_eq!(warning.is_tor_emergency, Some(false));
    assert_eq!(warning.was_observed, Some(false));
    assert_eq!(event.text.as_deref(), Some("\n271 \nWFUS53 KTOP 020101\nTORTOP\nKSC027-161-201-020145-\n/O.NEW.KTOP.TO.W.0009.180502T0101Z-180502T0145Z/\n\nBULLETIN - EAS ACTIVATION REQUESTED\nTornado Warning\nNational Weather Service Topeka KS\n801 PM CDT TUE MAY 1 2018\n\nThe National Weather Service in Topeka has issued a\n\n* Tornado Warning for...\n  Northwestern Riley County in northeastern Kansas...\n  Southern Washington County in north central Kansas...\n  Northern Clay County in north central Kansas...\n\n* Until 845 PM CDT\n    \n* At 800 PM CDT, a large and extremely dangerous tornado was located\n  2 miles south of Clifton, moving northeast at 25 mph.\n\n  TAKE COVER NOW! \n\n  HAZARD...Damaging tornado. \n\n  SOURCE...Radar indicated rotation. \n\n  IMPACT...You are in a life-threatening situation. Flying debris \n           may be deadly to those caught without shelter. Mobile \n           homes will be destroyed. Considerable damage to homes, \n           businesses, and vehicles is likely and complete \n           destruction is possible. \n\n* The tornado will be near...\n  Morganville around 805 PM CDT. \n  Palmer around 820 PM CDT. \n  Linn around 830 PM CDT. \n  Greenleaf around 845 PM CDT. \n\nPRECAUTIONARY/PREPAREDNESS ACTIONS...\n\nTo repeat, a large, extremely dangerous and potentially deadly\ntornado is developing. To protect your life, TAKE COVER NOW! Move to\na basement or an interior room on the lowest floor of a sturdy\nbuilding. Avoid windows. If you are outdoors, in a mobile home, or in\na vehicle, move to the closest substantial shelter and protect\nyourself from flying debris.\n\nTornadoes are extremely difficult to see and confirm at night. Do not\nwait to see or hear the tornado. TAKE COVER NOW!\n\n&&\n\nLAT...LON 3977 9697 3950 9680 3939 9737 3959 9737\nTIME...MOT...LOC 0100Z 245DEG 24KT 3952 9728 \n\nTORNADO...RADAR INDICATED\nTORNADO DAMAGE THREAT...CONSIDERABLE\nHAIL...2.00IN\n\n$$\n\nBaerg\n\n"));
}

#[test]
fn parse_tor_product_non_default_fields() {
    let product = make_product("TOR", "KTOP", "2018-05-02T01:01:00+00:00", "_id", "\n271 \nWFUS53 KTOP 020101\nTORTOP\nKSC027-161-201-020145-\n/O.NEW.KTOP.TO.W.0009.180502T0101Z-180502T0145Z/\n\nBULLETIN - EAS ACTIVATION REQUESTED\nTornado Warning\nNational Weather Service Topeka KS\n801 PM CDT TUE MAY 1 2018\n\nThe National Weather Service in Topeka has issued a\n\n* Tornado Warning for...\n  Northwestern Riley County in northeastern Kansas...\n  Southern Washington County in north central Kansas...\n  Northern Clay County in north central Kansas...\n\n* Until 845 PM CDT\n    \n* At 800 PM CDT, a large and extremely dangerous tornado was located\n  2 miles south of Clifton, moving northeast at 25 mph.\n\n  THIS IS A TORNADO EMERGENCY FOR CLIFTON. \n\n This is a PARTICULARLY DANGEROUS SITUATION. TAKE COVER NOW! \n\n  HAZARD...Damaging tornado. \n\n  SOURCE...Radar indicated rotation. \n\n  IMPACT...You are in a life-threatening situation. Flying debris \n           may be deadly to those caught without shelter. Mobile \n           homes will be destroyed. Considerable damage to homes, \n           businesses, and vehicles is likely and complete \n           destruction is possible. \n\n* The tornado will be near...\n  Morganville around 805 PM CDT. \n  Palmer around 820 PM CDT. \n  Linn around 830 PM CDT. \n  Greenleaf around 845 PM CDT. \n\nPRECAUTIONARY/PREPAREDNESS ACTIONS...\n\nTo repeat, a large, extremely dangerous and potentially deadly\ntornado is developing. To protect your life, TAKE COVER NOW! Move to\na basement or an interior room on the lowest floor of a sturdy\nbuilding. Avoid windows. If you are outdoors, in a mobile home, or in\na vehicle, move to the closest substantial shelter and protect\nyourself from flying debris.\n\nTornadoes are extremely difficult to see and confirm at night. Do not\nwait to see or hear the tornado. TAKE COVER NOW!\n\n&&\n\nLAT...LON 3977 9697 3950 9680 3939 9737 3959 9737\nTIME...MOT...LOC 0100Z 245DEG 24KT 3952 9728 \n\nTORNADO...OBSERVED\nTORNADO DAMAGE THREAT...CONSIDERABLE\nHAIL...2.00IN\n\n$$\n\nBaerg\n\n");
    let event = sware::tor_parser::parse(&product).unwrap();
    assert_eq!(event.event_ts, 1525222860000000);
    assert!(matches!(event.event_type, EventType::NwsTor));
    assert_eq!(event.title, "Tornado Warning (KTOP)");
    assert_eq!(event.valid_ts, Some(1525222860000000));
    assert_eq!(event.expires_ts, Some(1525225500000000));
    let location = event.location.unwrap();
    assert_eq!(location.wfo.as_deref(), Some("KTOP"));
    let point = location.point.unwrap();
    assert_eq!((point.lat, point.lon), (39520000, -97280000));
    let poly = location.poly.unwrap();
    let expected_poly: Vec<(i64, i64)> = vec![(39770000, -96970000), (39500000, -96800000), (39390000, -97370000), (39590000, -97370000)];
    let got_poly: Vec<(i64, i64)> = poly.iter().map(|c| (c.lat, c.lon)).collect();
    assert_eq!(got_poly, expected_poly);
    let warning = event.warning.unwrap();
    assert_eq!(warning.is_pds, true);
    assert_eq!(warning.issued_for, "Northwestern Riley County in northeastern Kansas, Southern Washington County in north central Kansas, Northern Clay County in north central Kansas");
    assert_eq!(warning.time, "0100Z");
    assert_eq!(warning.motion_deg, Some(245));
    assert_eq!(warning.motion_kt, Some(24));
    assert_eq!(warning.source.as_deref(), Some("Radar indicated rotation"));
    assert_eq!(warning.is_tor_emergency, Some(true));
    assert_eq!(warning.was_observed, Some(true));
    assert_eq!(event.text.as_deref(), Some("\n271 \nWFUS53 KTOP 020101\nTORTOP\nKSC027-161-201-020145-\n/O.NEW.KTOP.TO.W.0009.180502T0101Z-180502T0145Z/\n\nBULLETIN - EAS ACTIVATION REQUESTED\nTornado Warning\nNational Weather Service Topeka KS\n801 PM CDT TUE MAY 1 2018\n\nThe National Weather Service in Topeka has issued a\n\n* Tornado Warning for...\n  Northwestern Riley County in northeastern Kansas...\n  Southern Washington County in north central Kansas...\n  Northern Clay County in north central Kansas...\n\n* Until 845 PM CDT\n    \n* At 800 PM CDT, a large and extremely dangerous tornado was located\n  2 miles south of Clifton, moving northeast at 25 mph.\n\n  THIS IS A TORNADO EMERGENCY FOR CLIFTON. \n\n This is a PARTICULARLY DANGEROUS SITUATION. TAKE COVER NOW! \n\n  HAZARD...Damaging tornado. \n\n  SOURCE...Radar indicated rotation. \n\n  IMPACT...You are in a life-threatening situation. Flying debris \n           may be deadly to those caught without shelter. Mobile \n           homes will be destroyed. Considerable damage to homes, \n           businesses, and vehicles is likely and complete \n           destruction is possible. \n\n* The tornado will be near...\n  Morganville around 805 PM CDT. \n  Palmer around 820 PM CDT. \n  Linn around 830 PM CDT. \n  Greenleaf around 845 PM CDT. \n\nPRECAUTIONARY/PREPAREDNESS ACTIONS...\n\nTo repeat, a large, extremely dangerous and potentially deadly\ntornado is developing. To protect your life, TAKE COVER NOW! Move to\na basement or an interior room on the lowest floor of a sturdy\nbuilding. Avoid windows. If you are outdoors, in a mobile home, or in\na vehicle, move to the closest substantial shelter and protect\nyourself from flying debris.\n\nTornadoes are extremely difficult to see and confirm at night. Do not\nwait to see or hear the tornado. TAKE COVER NOW!\n\n&&\n\nLAT...LON 3977 9697 3950 9680 3939 9737 3959 9737\nTIME...MOT...LOC 0100Z 245DEG 24KT 3952 9728 \n\nTORNADO...OBSERVED\nTORNADO DAMAGE THREAT...CONSIDERABLE\nHAIL...2.00IN\n\n$$\n\nBaerg\n\n"));
}


#[test]
fn parse_tor_with_five_digit_lon() {
    let product = make_product("TOR", "KTOP", "2018-05-02T01:01:00+00:00", "_id", "\n271 \nWFUS53 KTOP 020101\nTORTOP\nKSC027-161-201-020145-\n/O.NEW.KTOP.TO.W.0009.180502T0101Z-180502T0145Z/\n\nBULLETIN - EAS ACTIVATION REQUESTED\nTornado Warning\nNational Weather Service Topeka KS\n801 PM CDT TUE MAY 1 2018\n\nThe National Weather Service in Topeka has issued a\n\n* Tornado Warning for...\n  Northwestern Riley County in northeastern Kansas...\n  Southern Washington County in north central Kansas...\n  Northern Clay County in north central Kansas...\n\n* Until 845 PM CDT\n    \n* At 800 PM CDT, a large and extremely dangerous tornado was located\n  2 miles south of Clifton, moving northeast at 25 mph.\n\n  TAKE COVER NOW! \n\n  HAZARD...Damaging tornado. \n\n  SOURCE...Radar indicated rotation. \n\n  IMPACT...You are in a life-threatening situation. Flying debris \n           may be deadly to those caught without shelter. Mobile \n           homes will be destroyed. Considerable damage to homes, \n           businesses, and vehicles is likely and complete \n           destruction is possible. \n\n* The tornado will be near...\n  Morganville around 805 PM CDT. \n  Palmer around 820 PM CDT. \n  Linn around 830 PM CDT. \n  Greenleaf around 845 PM CDT. \n\nPRECAUTIONARY/PREPAREDNESS ACTIONS...\n\nTo repeat, a large, extremely dangerous and potentially deadly\ntornado is developing. To protect your life, TAKE COVER NOW! Move to\na basement or an interior room on the lowest floor of a sturdy\nbuilding. Avoid windows. If you are outdoors, in a mobile home, or in\na vehicle, move to the closest substantial shelter and protect\nyourself from flying debris.\n\nTornadoes are extremely difficult to see and confirm at night. Do not\nwait to see or hear the tornado. TAKE COVER NOW!\n\n&&\n\nLAT...LON 3977 9697 3950 9680 3939 9737 3959 9737\nTIME...MOT...LOC 0100Z 245DEG 24KT 3952 10028 \n\nTORNADO...RADAR INDICATED\nTORNADO DAMAGE THREAT...CONSIDERABLE\nHAIL...2.00IN\n\n$$\n\nBaerg\n\n");
    let event = sware::tor_parser::parse(&product).unwrap();
    let point = event.location.unwrap().point.unwrap();
    assert_eq!((point.lat, point.lon), (39520000, -100280000));
}

#[test]
fn parse_tor_with_long_source() {
    let product = make_product("TOR", "KTOP", "2018-05-02T01:01:00+00:00", "_id", "\n271 \nWFUS53 KTOP 020101\nTORTOP\nKSC027-161-201-020145-\n/O.NEW.KTOP.TO.W.0009.180502T0101Z-180502T0145Z/\n\nBULLETIN - EAS ACTIVATION REQUESTED\nTornado Warning\nNational Weather Service Topeka KS\n801 PM CDT TUE MAY 1 2018\n\nThe National Weather Service in Topeka has issued a\n\n* Tornado Warning for...\n  Northwestern Riley County in northeastern Kansas...\n  Southern Washington County in north central Kansas...\n  Northern Clay County in north central Kansas...\n\n* Until 845 PM CDT\n    \n* At 800 PM CDT, a large and extremely dangerous tornado was located\n  2 miles south of Clifton, moving northeast at 25 mph.\n\n  TAKE COVER NOW! \n\n  HAZARD...Damaging tornado. \n\n  SOURCE...Law enforcement confirmed tornado\nnear the county line. \n\n  IMPACT...You are in a life-threatening situation. Flying debris \n           may be deadly to those caught without shelter. Mobile \n           homes will be destroyed. Considerable damage to homes, \n           businesses, and vehicles is likely and complete \n           destruction is possible. \n\n* The tornado will be near...\n  Morganville around 805 PM CDT. \n  Palmer around 820 PM CDT. \n  Linn around 830 PM CDT. \n  Greenleaf around 845 PM CDT. \n\nPRECAUTIONARY/PREPAREDNESS ACTIONS...\n\nTo repeat, a large, extremely dangerous and potentially deadly\ntornado is developing. To protect your life, TAKE COVER NOW! Move to\na basement or an interior room on the lowest floor of a sturdy\nbuilding. Avoid windows. If you are outdoors, in a mobile home, or in\na vehicle, move to the closest substantial shelter and protect\nyourself from flying debris.\n\nTornadoes are extremely difficult to see and confirm at night. Do not\nwait to see or hear the tornado. TAKE COVER NOW!\n\n&&\n\nLAT...LON 3977 9697 3950 9680 3939 9737 3959 9737\nTIME...MOT...LOC 0100Z 245DEG 24KT 3952 9728 \n\nTORNADO...RADAR INDICATED\nTORNADO DAMAGE THREAT...CONSIDERABLE\nHAIL...2.00IN\n\n$$\n\nBaerg\n\n");
    let event = sware::tor_parser::parse(&product).unwrap();
    assert_eq!(
        event.warning.unwrap().source.as_deref(),
        Some("Law enforcement confirmed tornado\nnear the county line")
    );
}
